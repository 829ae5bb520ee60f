//! What each call does, told by what goes in and what comes out.
use vstd::prelude::*;

use crate::bytes::zeros;
use crate::config::Account;
use crate::config::Config;
use crate::flow::ActionView;
use crate::flow::ExistenceRequirement;
use crate::flow::FundRequest;
use crate::flow::Refund;
use crate::flow::ReplyView;
use crate::flow::SerializationFormat;
use crate::flow::Settlement;
use crate::flow::SignLimits;
use crate::flow::Stage;
use crate::flow::StepView;
use crate::laws::formats::funds;
use crate::laws::formats::identifying_bytes;
use crate::laws::formats::law_call_data_holds_its_arguments;
use crate::laws::formats::law_genuine_signatures_are_accepted;
use crate::laws::formats::law_output_is_one_byte;
use crate::laws::formats::law_request_id_identifies_the_request;
use crate::laws::formats::recovers;
use crate::laws::formats::recovers_to;
use crate::laws::performed;
use crate::laws::run;
use crate::laws::FundCall;
use crate::outside::keccak_256_digest;
use crate::rules::State;
use crate::types::CallError;
use crate::types::Error;
use crate::types::Event;
use crate::types::EvmTx;
use crate::types::PendingData;
use crate::types::RawOrigin;
use crate::types::Signature;

verus! {

// ---- setting the address ---------------------------------------------------

/// Any signed call sets the address of a vault that has none, and reports it.
/// Nothing else in the vault changes.
pub proof fn law_initialize_sets_the_address<T: Config>(
    state: State<T>,
    who: T::AccountId,
    mpc: [u8; 20],
)
    requires
        state.config is None,
    ensures
        ({
            let (after, result) = state.initialize(RawOrigin::Signed(who), mpc);
            &&& result == Ok::<(), CallError>(())
            &&& after.config == Some(mpc)
            &&& after.events == state.events.push(Event::Initialized { mpc })
            &&& after.pending == state.pending
            &&& after.pallet_id == state.pallet_id
            &&& after.limits == state.limits
        }),
{
}

/// A call that is not signed, or comes when the address is set, is refused and
/// changes nothing.
pub proof fn law_initialize_is_refused<T: Config>(
    state: State<T>,
    origin: RawOrigin<T::AccountId>,
    mpc: [u8; 20],
)
    ensures
        !(origin is Signed) ==> state.initialize(origin, mpc) == (
            state,
            Err::<(), CallError>(CallError::BadOrigin),
        ),
        origin is Signed && state.config is Some ==> state.initialize(origin, mpc) == (
            state,
            Err::<(), CallError>(CallError::Vault(Error::AlreadyInitialized)),
        ),
{
}

// ---- what the runtime is asked to do ---------------------------------------

/// Whether `action` moves exactly `amount` from `from` to `to`, be it all that
/// `from` has.
pub open spec fn pays<A, B>(action: ActionView<A, B>, from: A, to: A, amount: B) -> bool {
    action matches ActionView::Transfer(transfer) && {
        &&& transfer.from == from
        &&& transfer.to == to
        &&& transfer.amount == amount
        &&& transfer.existence == ExistenceRequirement::AllowDeath
    }
}

/// Whether `action` builds, for `requester`, the transaction that calls
/// `fund(to, amount_wei, word)` on `faucet`, with no value and with the nonce, gas,
/// fees and chain of `tx`.
pub open spec fn builds_faucet_call<A, B>(
    action: ActionView<A, B>,
    requester: A,
    to: [u8; 20],
    amount_wei: u128,
    faucet: [u8; 20],
    tx: EvmTx,
    word: Seq<u8>,
) -> bool {
    action matches ActionView::BuildEvmTx(build) && {
        &&& build.origin == RawOrigin::Signed(requester)
        &&& build.to == Some(faucet)
        &&& build.value == 0
        &&& funds(build.data, to@, amount_wei, word)
        &&& build.nonce == tx.nonce
        &&& build.gas_limit == tx.gas_limit
        &&& build.max_fee_per_gas == tx.max_fee_per_gas
        &&& build.max_priority_fee_per_gas == tx.max_priority_fee_per_gas
        &&& build.access_list.len() == 0
        &&& build.chain_id == tx.chain_id
    }
}

/// Whether `action` has the signing service sign `transaction` on behalf of
/// `vault` under the path of `requester`: for the coin type 60 and the key version
/// 0, by `ecdsa`, for `ethereum`, with no parameters and no explorer schema, and
/// with the outcome to be given back by Borsh as a `"bool"`.
pub open spec fn orders_signature<A: Account, B>(
    action: ActionView<A, B>,
    vault: A,
    requester: A,
    transaction: Seq<u8>,
) -> bool {
    action matches ActionView::SignRespond(order) && {
        &&& order.origin == RawOrigin::Signed(vault)
        &&& order.serialized_transaction == transaction
        &&& order.slip44_chain_id == 60
        &&& order.key_version == 0
        &&& order.path == requester.encoded()
        &&& order.algo == seq![0x65u8, 0x63u8, 0x64u8, 0x73u8, 0x61u8]
        &&& order.dest == seq![0x65u8, 0x74u8, 0x68u8, 0x65u8, 0x72u8, 0x65u8, 0x75u8, 0x6du8]
        &&& order.params.len() == 0
        &&& order.explorer_deserialization_format == SerializationFormat::AbiJson
        &&& order.explorer_deserialization_schema.len() == 0
        &&& order.callback_serialization_format == SerializationFormat::Borsh
        &&& order.callback_serialization_schema == seq![
            0x22u8,
            0x62u8,
            0x6fu8,
            0x6fu8,
            0x6cu8,
            0x22u8,
        ]
    }
}

/// Whether the signing service takes the order for `transaction` by its length and
/// those of its texts.
pub open spec fn short_enough<A: Account>(
    limits: SignLimits,
    requester: A,
    transaction: Seq<u8>,
) -> bool {
    &&& transaction.len() <= 65536
    &&& requester.encoded().len() <= limits.path
    &&& 5 <= limits.algo
    &&& 8 <= limits.dest
    &&& 6 <= limits.callback_serialization_schema
}

// ---- requests, step by step ------------------------------------------------

/// A signed request to a vault whose address is set begins with the deposit, from
/// the requester to the vault. It keeps all that it was made with.
pub proof fn law_request_opens_with_the_deposit<T: Config>(
    state: State<T>,
    requester: T::AccountId,
    to: [u8; 20],
    amount_wei: u128,
    pay_amount: T::Balance,
    faucet: [u8; 20],
    tx: EvmTx,
    deposit: T::Balance,
)
    requires
        state.config is Some,
    ensures
        state.request_fund(
            RawOrigin::Signed(requester),
            to,
            amount_wei,
            pay_amount,
            faucet,
            tx,
            deposit,
        ) matches StepView::Perform { request, action } && {
            &&& pays(action, requester, state.account(), deposit)
            &&& request.requester == requester
            &&& request.to == to
            &&& request.amount_wei == amount_wei
            &&& request.pay_amount == pay_amount
            &&& request.faucet == faucet
            &&& request.tx == tx
            &&& request.stage == Stage::ChargingDeposit
        },
{
}

/// A request that is not signed, or comes before the address is set, is refused at
/// once.
pub proof fn law_request_is_refused_at_once<T: Config>(
    state: State<T>,
    origin: RawOrigin<T::AccountId>,
    to: [u8; 20],
    amount_wei: u128,
    pay_amount: T::Balance,
    faucet: [u8; 20],
    tx: EvmTx,
    deposit: T::Balance,
)
    ensures
        ({
            let step = state.request_fund(origin, to, amount_wei, pay_amount, faucet, tx, deposit);
            &&& !(origin is Signed) ==> step == StepView::<T::AccountId, T::Balance>::Finished(
                Err(CallError::BadOrigin),
            )
            &&& origin is Signed && state.config is None ==> step == StepView::<
                T::AccountId,
                T::Balance,
            >::Finished(Err(CallError::Vault(Error::NotInitialized)))
        }),
{
}

/// Whether `later` is the request `earlier` at the stage `stage`.
pub open spec fn goes_on<A, B>(
    earlier: FundRequest<A, B>,
    later: FundRequest<A, B>,
    stage: Stage,
) -> bool {
    &&& later.requester == earlier.requester
    &&& later.to == earlier.to
    &&& later.amount_wei == earlier.amount_wei
    &&& later.pay_amount == earlier.pay_amount
    &&& later.faucet == earlier.faucet
    &&& later.tx == earlier.tx
    &&& later.stage == stage
}

/// Once the deposit is paid, the payment follows, from the requester to the vault.
pub proof fn law_payment_follows_the_deposit<T: Config>(
    state: State<T>,
    request: FundRequest<T::AccountId, T::Balance>,
    bytes: Seq<u8>,
)
    requires
        request.stage == Stage::ChargingDeposit,
    ensures
        state.resume_fund(request, Ok(bytes)).0 == state,
        state.resume_fund(request, Ok(bytes)).1 matches StepView::Perform { request: next, action }
            && goes_on(request, next, Stage::ChargingPayment) && pays(
            action,
            request.requester,
            state.account(),
            request.pay_amount,
        ),
{
}

/// Once the payment is made, the faucet call is built with 32 zeros for an id.
pub proof fn law_draft_follows_the_payment<T: Config>(
    state: State<T>,
    request: FundRequest<T::AccountId, T::Balance>,
    bytes: Seq<u8>,
)
    requires
        request.stage == Stage::ChargingPayment,
    ensures
        state.resume_fund(request, Ok(bytes)).0 == state,
        state.resume_fund(request, Ok(bytes)).1 matches StepView::Perform { request: next, action }
            && goes_on(request, next, Stage::BuildingDraft) && builds_faucet_call(
            action,
            request.requester,
            request.to,
            request.amount_wei,
            request.faucet,
            request.tx,
            zeros(32),
        ),
{
    law_call_data_holds_its_arguments(request.to, request.amount_wei, zeros(32));
}

/// The draft gives the request its id, and the faucet call is built with it.
pub proof fn law_draft_gives_the_id<T: Config>(
    state: State<T>,
    request: FundRequest<T::AccountId, T::Balance>,
    draft: Seq<u8>,
    request_id: [u8; 32],
)
    requires
        request.stage == Stage::BuildingDraft,
        request_id@ == keccak_256_digest(identifying_bytes(request.requester, draft)),
    ensures
        state.resume_fund(request, Ok(draft)).0 == state,
        state.resume_fund(request, Ok(draft)).1 == state.identify(request, request_id),
        state.resume_fund(request, Ok(draft)).1 matches StepView::Perform { request: next, action }
            && goes_on(request, next, Stage::BuildingFinal { request_id }) && builds_faucet_call(
            action,
            request.requester,
            request.to,
            request.amount_wei,
            request.faucet,
            request.tx,
            request_id@,
        ),
{
    law_request_id_identifies_the_request(request.requester, draft, request_id);
    law_identified_call_carries_the_id(state, request, request_id);
}

/// The call of a request whose id is found carries that id.
pub proof fn law_identified_call_carries_the_id<T: Config>(
    state: State<T>,
    request: FundRequest<T::AccountId, T::Balance>,
    request_id: [u8; 32],
)
    ensures
        state.identify(request, request_id) matches StepView::Perform { request: next, action }
            && goes_on(request, next, Stage::BuildingFinal { request_id }) && builds_faucet_call(
            action,
            request.requester,
            request.to,
            request.amount_wei,
            request.faucet,
            request.tx,
            request_id@,
        ),
{
    law_call_data_holds_its_arguments(request.to, request.amount_wei, request_id@);
}

/// A request whose transaction is built is recorded under its id, as it was made,
/// and the signing service is to sign that transaction. A pending id is refused as
/// a duplicate, and what the service does not take as not serializable: both
/// change nothing.
pub proof fn law_built_request_is_recorded<T: Config>(
    state: State<T>,
    request: FundRequest<T::AccountId, T::Balance>,
    request_id: [u8; 32],
    transaction: Seq<u8>,
)
    ensures
        ({
            let (after, step) = state.record(request, request_id, transaction);
            let known = state.pending.dom().contains(request_id);
            let short = short_enough(state.limits, request.requester, transaction);
            &&& known ==> (after, step) == (
                state,
                StepView::<T::AccountId, T::Balance>::Finished(
                    Err(CallError::Vault(Error::DuplicateRequest)),
                ),
            )
            &&& !known && !short ==> (after, step) == (
                state,
                StepView::<T::AccountId, T::Balance>::Finished(
                    Err(CallError::Vault(Error::Serialization)),
                ),
            )
            &&& !known && short ==> {
                &&& after.config == state.config
                &&& after.events == state.events
                &&& after.pallet_id == state.pallet_id
                &&& after.limits == state.limits
                &&& after.pending == state.pending.insert(
                    request_id,
                    PendingData {
                        requester: request.requester,
                        pay_amount: request.pay_amount,
                        to: request.to,
                        amount_wei: request.amount_wei,
                    },
                )
                &&& step matches StepView::Perform { request: next, action } && goes_on(
                    request,
                    next,
                    Stage::Signing { request_id },
                ) && orders_signature(action, state.account(), request.requester, transaction)
            }
        }),
{
    let order = state.signing_order(request, transaction);
    assert(order.algo =~= seq![0x65u8, 0x63u8, 0x64u8, 0x73u8, 0x61u8]);
    assert(order.dest =~= seq![
        0x65u8,
        0x74u8,
        0x68u8,
        0x65u8,
        0x72u8,
        0x65u8,
        0x75u8,
        0x6du8,
    ]);
}

/// The transaction that is built last is the one recorded and signed.
pub proof fn law_last_transaction_is_recorded<T: Config>(
    state: State<T>,
    request: FundRequest<T::AccountId, T::Balance>,
    request_id: [u8; 32],
    transaction: Seq<u8>,
)
    requires
        request.stage == (Stage::BuildingFinal { request_id }),
    ensures
        state.resume_fund(request, Ok(transaction)) == state.record(
            request,
            request_id,
            transaction,
        ),
{
}

/// Requests of different requesters are signed under different paths.
pub proof fn law_requesters_have_paths_of_their_own<T: Config>(
    state: State<T>,
    a: FundRequest<T::AccountId, T::Balance>,
    b: FundRequest<T::AccountId, T::Balance>,
    a_id: [u8; 32],
    b_id: [u8; 32],
    a_transaction: Seq<u8>,
    b_transaction: Seq<u8>,
)
    ensures
        state.record(a, a_id, a_transaction).1 matches StepView::Perform {
            action: ActionView::SignRespond(a_order),
            ..
        } ==> (state.record(b, b_id, b_transaction).1 matches StepView::Perform {
            action: ActionView::SignRespond(b_order),
            ..
        } ==> (a_order.path == b_order.path <==> a.requester == b.requester)),
{
    if a.requester.encoded() =~= b.requester.encoded() {
        T::AccountId::lemma_injective(&a.requester, &b.requester);
    }
}

/// Once the signing service has taken the request, it is reported as it was made,
/// and is over.
pub proof fn law_taken_request_is_reported<T: Config>(
    state: State<T>,
    request: FundRequest<T::AccountId, T::Balance>,
    request_id: [u8; 32],
    bytes: Seq<u8>,
)
    requires
        request.stage == (Stage::Signing { request_id }),
    ensures
        ({
            let (after, step) = state.resume_fund(request, Ok(bytes));
            &&& step == StepView::<T::AccountId, T::Balance>::Finished(Ok(()))
            &&& after.events == state.events.push(
                Event::FundRequested {
                    request_id,
                    requester: request.requester,
                    to: request.to,
                    amount_wei: request.amount_wei,
                    pay_amount: request.pay_amount,
                },
            )
            &&& after.pending == state.pending
            &&& after.config == state.config
            &&& after.pallet_id == state.pallet_id
            &&& after.limits == state.limits
        }),
{
}

/// An error of the runtime ends a request with that error. A request that was
/// recorded is taken out again, and nothing else changes.
pub proof fn law_runtime_error_ends_the_request<T: Config>(
    state: State<T>,
    request: FundRequest<T::AccountId, T::Balance>,
    error: sp_runtime::DispatchError,
)
    ensures
        ({
            let (after, step) = state.resume_fund(request, Err(error));
            &&& step == StepView::<T::AccountId, T::Balance>::Finished(
                Err(CallError::Runtime(error)),
            )
            &&& after.events == state.events
            &&& after.config == state.config
            &&& after.pallet_id == state.pallet_id
            &&& after.limits == state.limits
            &&& after.pending == match request.stage {
                Stage::Signing { request_id } => state.pending.remove(request_id),
                _ => state.pending,
            }
        }),
{
}

// ---- requests as a whole ---------------------------------------------------

/// A request that nothing stands against goes through: it is recorded and reported
/// under its id, as it was made. The requester pays the deposit and the payment,
/// the faucet call is built without and with the id, and the last transaction
/// built is signed under the requester's own path.
pub proof fn law_sound_request_goes_through<T: Config>(
    state: State<T>,
    call: FundCall<T>,
    replies: Seq<ReplyView>,
    requester: T::AccountId,
    request_id: [u8; 32],
)
    requires
        call.origin == RawOrigin::Signed(requester),
        state.config is Some,
        replies.len() >= 5,
        forall|i: int| 0 <= i < 5 ==> #[trigger] replies[i] is Ok,
        request_id@ == keccak_256_digest(identifying_bytes(requester, replies[2]->Ok_0)),
        !state.pending.dom().contains(request_id),
        short_enough(state.limits, requester, replies[3]->Ok_0),
    ensures
        ({
            let (after, step) = run(state, call.open(state), replies);
            let actions = performed(state, call.open(state), replies);
            &&& step == StepView::<T::AccountId, T::Balance>::Finished(Ok(()))
            &&& after.pending == state.pending.insert(
                request_id,
                PendingData {
                    requester,
                    pay_amount: call.pay_amount,
                    to: call.to,
                    amount_wei: call.amount_wei,
                },
            )
            &&& after.events == state.events.push(
                Event::FundRequested {
                    request_id,
                    requester,
                    to: call.to,
                    amount_wei: call.amount_wei,
                    pay_amount: call.pay_amount,
                },
            )
            &&& after.config == state.config
            &&& after.pallet_id == state.pallet_id
            &&& after.limits == state.limits
            &&& actions.len() == 5
            &&& pays(actions[0], requester, state.account(), call.signature_deposit)
            &&& pays(actions[1], requester, state.account(), call.pay_amount)
            &&& builds_faucet_call(
                actions[2],
                requester,
                call.to,
                call.amount_wei,
                call.faucet,
                call.tx,
                zeros(32),
            )
            &&& builds_faucet_call(
                actions[3],
                requester,
                call.to,
                call.amount_wei,
                call.faucet,
                call.tx,
                request_id@,
            )
            &&& orders_signature(actions[4], state.account(), requester, replies[3]->Ok_0)
        }),
{
    reveal_with_fuel(run, 7);
    reveal_with_fuel(performed, 7);
    assert(replies[0] is Ok && replies[1] is Ok && replies[2] is Ok && replies[3] is Ok
        && replies[4] is Ok);
    let request = call.request(Stage::ChargingDeposit);
    law_request_id_identifies_the_request(requester, replies[2]->Ok_0, request_id);
    law_call_data_holds_its_arguments(call.to, call.amount_wei, zeros(32));
    law_call_data_holds_its_arguments(call.to, call.amount_wei, request_id@);
    law_built_request_is_recorded(state, request, request_id, replies[3]->Ok_0);
}

/// How the runtime's replies, the id and the lengths decide on a signed request to
/// a vault whose address is set: the first error of the runtime is passed on, a
/// pending id is a duplicate, and what is too long is not serializable. Each leaves
/// the vault as it was.
pub proof fn law_first_obstacle_stops_the_request<T: Config>(
    state: State<T>,
    call: FundCall<T>,
    replies: Seq<ReplyView>,
    requester: T::AccountId,
    request_id: [u8; 32],
    n: int,
)
    requires
        call.origin == RawOrigin::Signed(requester),
        state.config is Some,
        0 <= n <= 4,
        replies.len() > n,
        forall|i: int| 0 <= i < n ==> #[trigger] replies[i] is Ok,
        n > 2 ==> request_id@ == keccak_256_digest(
            identifying_bytes(requester, replies[2]->Ok_0),
        ),
    ensures
        ({
            let known = n > 3 && state.pending.dom().contains(request_id);
            let long = n > 3 && !short_enough(state.limits, requester, replies[3]->Ok_0);
            let (after, step) = run(state, call.open(state), replies);
            &&& known ==> step == StepView::<T::AccountId, T::Balance>::Finished(
                Err(CallError::Vault(Error::DuplicateRequest)),
            )
            &&& !known && long ==> step == StepView::<T::AccountId, T::Balance>::Finished(
                Err(CallError::Vault(Error::Serialization)),
            )
            &&& !known && !long ==> (replies[n] matches Err(error) ==> step == StepView::<
                T::AccountId,
                T::Balance,
            >::Finished(Err(CallError::Runtime(error))))
            &&& known || long || replies[n] is Err ==> after == state
        }),
{
    reveal_with_fuel(run, 7);
    let request = call.request(Stage::ChargingDeposit);
    assert(n > 0 ==> replies[0] is Ok);
    assert(n > 1 ==> replies[1] is Ok);
    assert(n > 2 ==> replies[2] is Ok);
    assert(n > 3 ==> replies[3] is Ok);
    if n > 2 {
        law_request_id_identifies_the_request(requester, replies[2]->Ok_0, request_id);
    }
    if n > 3 {
        law_built_request_is_recorded(state, request, request_id, replies[3]->Ok_0);
    }
    let after = run(state, call.open(state), replies).0;
    if replies[n] is Err {
        assert(after =~= state);
    }
}

// ---- responses -------------------------------------------------------------

/// Whether the service with the address `mpc` signed `output` as the response to a
/// request.
pub open spec fn service_signed(
    mpc: [u8; 20],
    request_id: [u8; 32],
    output: Seq<u8>,
    signature: Signature,
) -> bool {
    recovers_to(signature, keccak_256_digest(request_id@ + output), mpc@)
}

/// The service's response that the call failed has the vault pay the requester of
/// the pending request back exactly what was paid. The request is no longer
/// pending, and nothing is reported before the refund is paid.
pub proof fn law_signed_failure_is_refunded<T: Config>(
    state: State<T>,
    who: T::AccountId,
    request_id: [u8; 32],
    signature: Signature,
    mpc: [u8; 20],
)
    requires
        state.pending.dom().contains(request_id),
        state.config == Some(mpc),
        service_signed(mpc, request_id, seq![0u8], signature),
    ensures
        ({
            let pending = state.pending[request_id];
            let (after, settlement) = state.respond_fund(
                RawOrigin::Signed(who),
                request_id,
                seq![0u8],
                signature,
            );
            &&& settlement matches Ok(Settlement::Refund { refund, transfer }) && {
                &&& transfer.from == state.account()
                &&& transfer.to == pending.requester
                &&& transfer.amount == pending.pay_amount
                &&& transfer.existence == ExistenceRequirement::AllowDeath
                &&& refund.request_id == request_id
                &&& refund.pending == pending
            }
            &&& after.pending == state.pending.remove(request_id)
            &&& after.events == state.events
            &&& after.config == state.config
            &&& after.pallet_id == state.pallet_id
            &&& after.limits == state.limits
        }),
{
    law_genuine_signatures_are_accepted(
        keccak_256_digest(request_id@ + seq![0u8]),
        signature,
        mpc@,
    );
    law_output_is_one_byte(seq![0u8]);
}

/// The service's response that the call went through ends the pending request: it
/// is reported, and the vault keeps the payment.
pub proof fn law_signed_success_is_kept<T: Config>(
    state: State<T>,
    who: T::AccountId,
    request_id: [u8; 32],
    signature: Signature,
    mpc: [u8; 20],
)
    requires
        state.pending.dom().contains(request_id),
        state.config == Some(mpc),
        service_signed(mpc, request_id, seq![1u8], signature),
    ensures
        ({
            let (after, settlement) = state.respond_fund(
                RawOrigin::Signed(who),
                request_id,
                seq![1u8],
                signature,
            );
            &&& settlement == Ok::<Settlement<T::AccountId, T::Balance>, CallError>(
                Settlement::Kept,
            )
            &&& after.pending == state.pending.remove(request_id)
            &&& after.events == state.events.push(Event::FundSucceeded { request_id })
            &&& after.config == state.config
            &&& after.pallet_id == state.pallet_id
            &&& after.limits == state.limits
        }),
{
    law_genuine_signatures_are_accepted(
        keccak_256_digest(request_id@ + seq![1u8]),
        signature,
        mpc@,
    );
    law_output_is_one_byte(seq![1u8]);
}

/// Why a response is refused, if it is: the first of these that holds. A refusal
/// changes nothing.
pub proof fn law_response_is_refused_for_cause<T: Config>(
    state: State<T>,
    origin: RawOrigin<T::AccountId>,
    request_id: [u8; 32],
    output: Seq<u8>,
    signature: Signature,
    mpc: [u8; 20],
)
    ensures
        ({
            let (after, settlement) = state.respond_fund(origin, request_id, output, signature);
            let hash = keccak_256_digest(request_id@ + output);
            let cause = if !(origin is Signed) {
                Some(CallError::BadOrigin)
            } else if !state.pending.dom().contains(request_id) {
                Some(CallError::Vault(Error::NotFound))
            } else if state.config is None {
                Some(CallError::Vault(Error::NotInitialized))
            } else if !recovers(signature, hash) {
                Some(CallError::Vault(Error::InvalidSignature))
            } else if state.config == Some(mpc) && !recovers_to(signature, hash, mpc@) {
                Some(CallError::Vault(Error::InvalidSigner))
            } else if state.config == Some(mpc) && output != seq![0u8] && output != seq![1u8] {
                Some(CallError::Vault(Error::InvalidOutput))
            } else {
                None
            };
            cause matches Some(error) ==> after == state && settlement == Err::<
                Settlement<T::AccountId, T::Balance>,
                CallError,
            >(error)
        }),
{
    if let Some(address) = state.config {
        law_genuine_signatures_are_accepted(
            keccak_256_digest(request_id@ + output),
            signature,
            address@,
        );
    }
    law_output_is_one_byte(output);
}

/// Settling goes by the findings: a request that is not pending, a vault without
/// an address, a bad signature and a bad output are refused in this order, and
/// change nothing. A success is kept, and a failure gives the requester of the
/// pending request exactly the payment back.
pub proof fn law_settling_goes_by_the_findings<T: Config>(
    state: State<T>,
    request_id: [u8; 32],
    error: Error,
    verdict: Result<(), Error>,
    outcome: Result<bool, Error>,
)
    ensures
        ({
            let (after, settlement) = state.settle(request_id, verdict, outcome);
            let pending = state.pending[request_id];
            let found = state.pending.dom().contains(request_id) && state.config is Some;
            &&& !state.pending.dom().contains(request_id) ==> settlement == Err::<
                Settlement<T::AccountId, T::Balance>,
                CallError,
            >(CallError::Vault(Error::NotFound))
            &&& state.pending.dom().contains(request_id) && state.config is None ==> settlement
                == Err::<Settlement<T::AccountId, T::Balance>, CallError>(
                CallError::Vault(Error::NotInitialized),
            )
            &&& found && verdict == Err::<(), Error>(error) ==> settlement == Err::<
                Settlement<T::AccountId, T::Balance>,
                CallError,
            >(CallError::Vault(error))
            &&& found && verdict is Ok && outcome == Err::<bool, Error>(error) ==> settlement
                == Err::<Settlement<T::AccountId, T::Balance>, CallError>(CallError::Vault(error))
            &&& settlement is Err ==> after == state
            &&& found && verdict is Ok && outcome == Ok::<bool, Error>(true) ==> {
                &&& settlement == Ok::<Settlement<T::AccountId, T::Balance>, CallError>(
                    Settlement::Kept,
                )
                &&& after.events == state.events.push(Event::FundSucceeded { request_id })
            }
            &&& found && verdict is Ok && outcome == Ok::<bool, Error>(false) ==> {
                &&& settlement matches Ok(Settlement::Refund { refund, transfer }) && {
                    &&& transfer.from == state.account()
                    &&& transfer.to == pending.requester
                    &&& transfer.amount == pending.pay_amount
                    &&& transfer.existence == ExistenceRequirement::AllowDeath
                    &&& refund.request_id == request_id
                    &&& refund.pending == pending
                }
                &&& after.events == state.events
            }
            &&& settlement is Ok ==> {
                &&& after.pending == state.pending.remove(request_id)
                &&& after.config == state.config
                &&& after.pallet_id == state.pallet_id
                &&& after.limits == state.limits
            }
        }),
{
}

/// A refund that was paid is reported with the payment. One that was not leaves
/// the request pending as it was, and ends the call with the runtime's error.
pub proof fn law_refund_is_reported_or_undone<T: Config>(
    state: State<T>,
    refund: Refund<T::AccountId, T::Balance>,
    error: sp_runtime::DispatchError,
)
    ensures
        ({
            let (after, result) = state.finish_refund(refund, Ok(()));
            &&& result == Ok::<(), CallError>(())
            &&& after.events == state.events.push(
                Event::FundFailed {
                    request_id: refund.request_id,
                    refunded: refund.pending.pay_amount,
                },
            )
            &&& after.pending == state.pending
            &&& after.config == state.config
            &&& after.pallet_id == state.pallet_id
            &&& after.limits == state.limits
        }),
        ({
            let (after, result) = state.finish_refund(refund, Err(error));
            &&& result == Err::<(), CallError>(CallError::Runtime(error))
            &&& after.events == state.events
            &&& after.pending == state.pending.insert(refund.request_id, refund.pending)
            &&& after.config == state.config
            &&& after.pallet_id == state.pallet_id
            &&& after.limits == state.limits
        }),
{
}

} // verus!
