//! What holds of the vault across its calls.
use vstd::prelude::*;

pub mod formats;
pub mod operations;

use crate::abi::fund_call_bytes;
use crate::bytes::be_bytes;
use crate::bytes::lemma_be_bytes_injective;
use crate::bytes::lemma_integer_lengths;
use crate::bytes::lemma_u128_fits;
use crate::bytes::zeros;
use crate::config::Config;
use crate::flow::ActionView;
use crate::flow::ExistenceRequirement;
use crate::flow::FundRequest;
use crate::flow::Refund;
use crate::flow::ReplyView;
use crate::flow::Settlement;
use crate::flow::Stage;
use crate::flow::StepView;
use crate::flow::Transfer;
use crate::messages::address_of;
use crate::messages::rsv;
use crate::messages::signature_verdict;
use crate::outside::keccak_256_digest;
use crate::outside::recovered_key;
use crate::rules::faucet_call;
use crate::rules::refused;
use crate::rules::request_id_of;
use crate::rules::within_limits;
use crate::rules::State;
use crate::types::signer_of;
use crate::types::CallError;
use crate::types::DispatchResult;
use crate::types::Error;
use crate::types::Event;
use crate::types::EvmTx;
use crate::types::PendingData;
use crate::types::RawOrigin;
use crate::types::Signature;

verus! {

/// What a request is opened with.
pub struct FundCall<T: Config> {
    pub origin: RawOrigin<T::AccountId>,
    pub to: [u8; 20],
    pub amount_wei: u128,
    pub pay_amount: T::Balance,
    pub faucet: [u8; 20],
    pub tx: EvmTx,
    pub signature_deposit: T::Balance,
}

impl<T: Config> FundCall<T> {
    /// The first step of the request.
    pub open spec fn open(self, state: State<T>) -> StepView<T::AccountId, T::Balance> {
        state.request_fund(
            self.origin,
            self.to,
            self.amount_wei,
            self.pay_amount,
            self.faucet,
            self.tx,
            self.signature_deposit,
        )
    }

    /// Who makes the request.
    pub open spec fn requester(self) -> T::AccountId {
        signer_of(self.origin)->Ok_0
    }

    /// The request at a stage.
    pub open spec fn request(self, stage: Stage) -> FundRequest<T::AccountId, T::Balance> {
        FundRequest {
            requester: self.requester(),
            to: self.to,
            amount_wei: self.amount_wei,
            pay_amount: self.pay_amount,
            faucet: self.faucet,
            tx: self.tx,
            stage,
        }
    }

    /// What is kept of the request until its response.
    pub open spec fn record(self) -> PendingData<T::AccountId, T::Balance> {
        PendingData {
            requester: self.requester(),
            pay_amount: self.pay_amount,
            to: self.to,
            amount_wei: self.amount_wei,
        }
    }

    /// How the request is reported.
    pub open spec fn report(self, request_id: [u8; 32]) -> Event<T> {
        Event::FundRequested {
            request_id,
            requester: self.requester(),
            to: self.to,
            amount_wei: self.amount_wei,
            pay_amount: self.pay_amount,
        }
    }
}

/// A request carried on from `step` for as long as there are replies: the state
/// that it leaves, and where it ends.
pub open spec fn run<T: Config>(
    state: State<T>,
    step: StepView<T::AccountId, T::Balance>,
    replies: Seq<ReplyView>,
) -> (State<T>, StepView<T::AccountId, T::Balance>)
    decreases replies.len(),
{
    match step {
        StepView::Perform { request, .. } if replies.len() > 0 => {
            let (next_state, next_step) = state.resume_fund(request, replies[0]);
            run(next_state, next_step, replies.drop_first())
        },
        _ => (state, step),
    }
}

/// The actions that the runtime reports done while a request is carried on.
pub open spec fn performed<T: Config>(
    state: State<T>,
    step: StepView<T::AccountId, T::Balance>,
    replies: Seq<ReplyView>,
) -> Seq<ActionView<T::AccountId, T::Balance>>
    decreases replies.len(),
{
    match step {
        StepView::Perform { request, action } if replies.len() > 0 => {
            let (next_state, next_step) = state.resume_fund(request, replies[0]);
            let later = performed(next_state, next_step, replies.drop_first());
            if replies[0] is Ok {
                seq![action] + later
            } else {
                later
            }
        },
        _ => Seq::empty(),
    }
}

/// Whether the runtime does all that a request has it do.
pub open spec fn all_done(replies: Seq<ReplyView>) -> bool {
    replies.len() >= 5 && forall|i: int| 0 <= i < 5 ==> #[trigger] replies[i] is Ok
}

/// What an action changes in the balance of `who`, where `value` says what a
/// balance is worth: a transfer adds to what it goes to and takes from the other
/// end.
pub open spec fn effect<A, B>(action: ActionView<A, B>, who: A, value: spec_fn(B) -> int) -> int {
    match action {
        ActionView::Transfer(transfer) => {
            let received = if transfer.to == who {
                value(transfer.amount)
            } else {
                0
            };
            let spent = if transfer.from == who {
                value(transfer.amount)
            } else {
                0
            };
            received - spent
        },
        _ => 0,
    }
}

/// What `actions` together change in the balance of `who`.
pub open spec fn net<A, B>(actions: Seq<ActionView<A, B>>, who: A, value: spec_fn(B) -> int) -> int
    decreases actions.len(),
{
    if actions.len() == 0 {
        0
    } else {
        net(actions.drop_last(), who, value) + effect(actions.last(), who, value)
    }
}

// ---- requests --------------------------------------------------------------

/// A request that fails, wherever it fails, leaves the vault as it was.
pub proof fn law_failed_request_changes_nothing<T: Config>(
    state: State<T>,
    call: FundCall<T>,
    replies: Seq<ReplyView>,
)
    ensures
        run(state, call.open(state), replies).1 matches StepView::Finished(Err(_)) ==> run(
            state,
            call.open(state),
            replies,
        ).0 == state,
{
    reveal_with_fuel(run, 7);
    let (end, step) = run(state, call.open(state), replies);
    assert(step matches StepView::Finished(Err(_)) ==> end =~= state);
}

/// How a request is answered, once the runtime has replied to all it was asked:
/// the first obstacle decides.
pub open spec fn answer<T: Config>(
    state: State<T>,
    call: FundCall<T>,
    replies: Seq<ReplyView>,
) -> DispatchResult {
    if let Err(error) = signer_of(call.origin) {
        Err(error)
    } else if state.config is None {
        Err(CallError::Vault(Error::NotInitialized))
    } else if let Err(error) = replies[0] {
        Err(CallError::Runtime(error))
    } else if let Err(error) = replies[1] {
        Err(CallError::Runtime(error))
    } else if let Err(error) = replies[2] {
        Err(CallError::Runtime(error))
    } else if let Err(error) = replies[3] {
        Err(CallError::Runtime(error))
    } else if state.pending.dom().contains(request_id_of(call.requester(), replies[2]->Ok_0)) {
        Err(CallError::Vault(Error::DuplicateRequest))
    } else if !within_limits(
        state.signing_order(call.request(Stage::ChargingDeposit), replies[3]->Ok_0),
        state.limits,
    ) {
        Err(CallError::Vault(Error::Serialization))
    } else if let Err(error) = replies[4] {
        Err(CallError::Runtime(error))
    } else {
        Ok(())
    }
}

/// Every request is answered, and by the first obstacle that it meets.
pub proof fn law_request_is_answered<T: Config>(
    state: State<T>,
    call: FundCall<T>,
    replies: Seq<ReplyView>,
)
    requires
        replies.len() >= 5,
    ensures
        run(state, call.open(state), replies).1 == StepView::<T::AccountId, T::Balance>::Finished(
            answer(state, call, replies),
        ),
{
    reveal_with_fuel(run, 7);
}

/// A request goes through exactly when it is signed, the vault is initialised,
/// the runtime does its part, the id is new and the order is short enough.
pub proof fn law_request_goes_through<T: Config>(
    state: State<T>,
    call: FundCall<T>,
    replies: Seq<ReplyView>,
)
    ensures
        run(state, call.open(state), replies).1 == StepView::<
            T::AccountId,
            T::Balance,
        >::Finished(Ok(())) <==> {
            &&& signer_of(call.origin) is Ok
            &&& state.config is Some
            &&& all_done(replies)
            &&& !state.pending.dom().contains(
                request_id_of(call.requester(), replies[2]->Ok_0),
            )
            &&& within_limits(
                state.signing_order(call.request(Stage::ChargingDeposit), replies[3]->Ok_0),
                state.limits,
            )
        },
{
    reveal_with_fuel(run, 7);
    if all_done(replies) {
        assert(replies[0] is Ok && replies[1] is Ok && replies[2] is Ok && replies[3] is Ok
            && replies[4] is Ok);
    }
}

/// A request that goes through is pending under its id and reported, and nothing
/// else in the vault is changed. The requester has been charged the deposit and
/// the payment, and the transaction that the service is to sign is the faucet
/// call under the request's id.
pub proof fn law_request_is_recorded<T: Config>(
    state: State<T>,
    call: FundCall<T>,
    replies: Seq<ReplyView>,
)
    requires
        run(state, call.open(state), replies).1 == StepView::<
            T::AccountId,
            T::Balance,
        >::Finished(Ok(())),
    ensures
        ({
            let request_id = request_id_of(call.requester(), replies[2]->Ok_0);
            let request = call.request(Stage::ChargingDeposit);
            &&& run(state, call.open(state), replies).0 == state.with_pending(
                request_id,
                call.record(),
            ).with_event(call.report(request_id))
            &&& performed(state, call.open(state), replies) == seq![
                state.charge(call.requester(), call.signature_deposit),
                state.charge(call.requester(), call.pay_amount),
                faucet_call(request, zeros(32)),
                faucet_call(request, request_id@),
                ActionView::SignRespond(state.signing_order(request, replies[3]->Ok_0)),
            ]
        }),
{
    reveal_with_fuel(run, 7);
    reveal_with_fuel(performed, 7);
    law_request_goes_through(state, call, replies);
    assert(replies[0] is Ok && replies[1] is Ok && replies[2] is Ok && replies[3] is Ok
        && replies[4] is Ok);
}

/// A request that goes through costs the requester the deposit and the payment,
/// which the vault receives. Nobody else's balance is touched.
pub proof fn law_requester_pays_the_vault<T: Config>(
    state: State<T>,
    call: FundCall<T>,
    replies: Seq<ReplyView>,
    who: T::AccountId,
    value: spec_fn(T::Balance) -> int,
)
    requires
        run(state, call.open(state), replies).1 == StepView::<
            T::AccountId,
            T::Balance,
        >::Finished(Ok(())),
        call.requester() != state.account(),
    ensures
        net(performed(state, call.open(state), replies), who, value) == if who == call.requester() {
            -(value(call.signature_deposit) + value(call.pay_amount))
        } else if who == state.account() {
            value(call.signature_deposit) + value(call.pay_amount)
        } else {
            0
        },
{
    law_request_is_recorded(state, call, replies);
    let actions = performed(state, call.open(state), replies);
    reveal_with_fuel(net, 6);
    assert(actions.drop_last().drop_last().drop_last() =~= actions.subrange(0, 2));
    assert(actions.subrange(0, 2).drop_last() =~= actions.subrange(0, 1));
    assert(actions.subrange(0, 1).drop_last() =~= actions.subrange(0, 0));
}

/// The same request, made again while the first is pending, is refused as a
/// duplicate and leaves the vault as the first left it.
pub proof fn law_duplicate_request_is_refused<T: Config>(
    state: State<T>,
    first: FundCall<T>,
    first_replies: Seq<ReplyView>,
    second: FundCall<T>,
    second_replies: Seq<ReplyView>,
)
    requires
        run(state, first.open(state), first_replies).1 == StepView::<
            T::AccountId,
            T::Balance,
        >::Finished(Ok(())),
        signer_of(second.origin) == signer_of(first.origin),
        second_replies.len() >= 4,
        forall|i: int| 0 <= i < 4 ==> #[trigger] second_replies[i] is Ok,
        second_replies[2] == first_replies[2],
    ensures
        ({
            let after = run(state, first.open(state), first_replies).0;
            run(after, second.open(after), second_replies) == (
                after,
                refused::<T::AccountId, T::Balance>(Error::DuplicateRequest),
            )
        }),
{
    law_request_goes_through(state, first, first_replies);
    law_request_is_recorded(state, first, first_replies);
    let after = run(state, first.open(state), first_replies).0;
    reveal_with_fuel(run, 6);
    assert(second_replies[0] is Ok && second_replies[1] is Ok && second_replies[2] is Ok
        && second_replies[3] is Ok);
}

// ---- responses -------------------------------------------------------------

/// A response that is refused leaves the vault as it was.
pub proof fn law_refused_response_changes_nothing<T: Config>(
    state: State<T>,
    origin: RawOrigin<T::AccountId>,
    request_id: [u8; 32],
    output: Seq<u8>,
    signature: Signature,
)
    ensures
        state.respond_fund(origin, request_id, output, signature).1 is Err ==> state.respond_fund(
            origin,
            request_id,
            output,
            signature,
        ).0 == state,
{
}

/// A response whose refund the runtime cannot pay leaves the vault as it was.
pub proof fn law_failed_refund_changes_nothing<T: Config>(
    state: State<T>,
    origin: RawOrigin<T::AccountId>,
    request_id: [u8; 32],
    output: Seq<u8>,
    signature: Signature,
    error: sp_runtime::DispatchError,
)
    ensures
        state.respond_fund(origin, request_id, output, signature).1 matches Ok(
            Settlement::Refund { refund, .. },
        ) ==> state.respond_fund(origin, request_id, output, signature).0.finish_refund(
            refund,
            Err(error),
        ) == (state, Err::<(), CallError>(CallError::Runtime(error))),
{
    let (after, settlement) = state.respond_fund(origin, request_id, output, signature);
    if let Ok(Settlement::Refund { refund, .. }) = settlement {
        assert(after.finish_refund(refund, Err(error)).0 =~= state);
    }
}

/// Only the signing service settles a request: an accepted response carries a
/// signature that recovers to the address the vault was initialised with.
pub proof fn law_only_the_service_settles<T: Config>(
    state: State<T>,
    origin: RawOrigin<T::AccountId>,
    request_id: [u8; 32],
    output: Seq<u8>,
    signature: Signature,
)
    requires
        state.respond_fund(origin, request_id, output, signature).1 is Ok,
    ensures
        state.config matches Some(mpc) && recovered_key(
            rsv(signature),
            keccak_256_digest(request_id@ + output),
        ) matches Some(key) && address_of(keccak_256_digest(key)) == mpc@,
        signature.recovery_id < 4,
{
}

/// A request is settled once: after an accepted response, no response to the
/// same request is accepted, whoever sends it.
pub proof fn law_request_is_settled_once<T: Config>(
    state: State<T>,
    origin: RawOrigin<T::AccountId>,
    request_id: [u8; 32],
    output: Seq<u8>,
    signature: Signature,
    later_origin: RawOrigin<T::AccountId>,
    later_output: Seq<u8>,
    later_signature: Signature,
)
    requires
        state.respond_fund(origin, request_id, output, signature).1 is Ok,
        signer_of(later_origin) is Ok,
    ensures
        ({
            let (after, settlement) = state.respond_fund(origin, request_id, output, signature);
            let settled = match settlement {
                Ok(Settlement::Refund { refund, .. }) => after.finish_refund(refund, Ok(())).0,
                _ => after,
            };
            settled.respond_fund(later_origin, request_id, later_output, later_signature) == (
                settled,
                Err::<Settlement<T::AccountId, T::Balance>, CallError>(
                    CallError::Vault(Error::NotFound),
                ),
            )
        }),
{
}

/// A request that went through and is answered by the service with a success is
/// over: it is no longer pending, both are reported, and the vault keeps the
/// payment.
pub proof fn law_success_keeps_the_payment<T: Config>(
    state: State<T>,
    call: FundCall<T>,
    replies: Seq<ReplyView>,
    origin: RawOrigin<T::AccountId>,
    signature: Signature,
)
    requires
        run(state, call.open(state), replies).1 == StepView::<
            T::AccountId,
            T::Balance,
        >::Finished(Ok(())),
        signer_of(origin) is Ok,
        state.verdict_on(
            request_id_of(call.requester(), replies[2]->Ok_0),
            seq![1u8],
            signature,
        ) is Ok,
    ensures
        ({
            let request_id = request_id_of(call.requester(), replies[2]->Ok_0);
            let pending = run(state, call.open(state), replies).0;
            pending.respond_fund(origin, request_id, seq![1u8], signature) == (
                state.with_event(call.report(request_id)).with_event(
                    Event::FundSucceeded { request_id },
                ),
                Ok::<Settlement<T::AccountId, T::Balance>, CallError>(Settlement::Kept),
            )
        }),
{
    law_request_goes_through(state, call, replies);
    law_request_is_recorded(state, call, replies);
    let request_id = request_id_of(call.requester(), replies[2]->Ok_0);
    let pending = run(state, call.open(state), replies).0;
    assert(pending.respond_fund(origin, request_id, seq![1u8], signature).0 =~= state.with_event(
        call.report(request_id),
    ).with_event(Event::FundSucceeded { request_id }));
}

/// A request that went through and is answered by the service with a failure is
/// refunded: the vault pays the requester back exactly the payment, and the
/// request is no longer pending. The signing deposit is all that the requester
/// has lost, and all that the vault is left with.
pub proof fn law_failure_returns_the_payment<T: Config>(
    state: State<T>,
    call: FundCall<T>,
    replies: Seq<ReplyView>,
    origin: RawOrigin<T::AccountId>,
    signature: Signature,
    value: spec_fn(T::Balance) -> int,
)
    requires
        run(state, call.open(state), replies).1 == StepView::<
            T::AccountId,
            T::Balance,
        >::Finished(Ok(())),
        call.requester() != state.account(),
        signer_of(origin) is Ok,
        state.verdict_on(
            request_id_of(call.requester(), replies[2]->Ok_0),
            seq![0u8],
            signature,
        ) is Ok,
    ensures
        ({
            let request_id = request_id_of(call.requester(), replies[2]->Ok_0);
            let pending = run(state, call.open(state), replies).0;
            let actions = performed(state, call.open(state), replies);
            let transfer = Transfer {
                from: state.account(),
                to: call.requester(),
                amount: call.pay_amount,
                existence: ExistenceRequirement::AllowDeath,
            };
            let refund = Refund { request_id, pending: call.record() };
            let (refunding, settlement) = pending.respond_fund(
                origin,
                request_id,
                seq![0u8],
                signature,
            );
            &&& settlement == Ok::<Settlement<T::AccountId, T::Balance>, CallError>(
                Settlement::Refund { refund, transfer },
            )
            &&& refunding.finish_refund(refund, Ok(())) == (
                state.with_event(call.report(request_id)).with_event(
                    Event::FundFailed { request_id, refunded: call.pay_amount },
                ),
                Ok::<(), CallError>(()),
            )
            &&& net(actions.push(ActionView::Transfer(transfer)), call.requester(), value) ==
                -value(call.signature_deposit)
            &&& net(actions.push(ActionView::Transfer(transfer)), state.account(), value) == value(
                call.signature_deposit,
            )
        }),
{
    law_request_goes_through(state, call, replies);
    law_request_is_recorded(state, call, replies);
    law_requester_pays_the_vault(state, call, replies, call.requester(), value);
    law_requester_pays_the_vault(state, call, replies, state.account(), value);
    let request_id = request_id_of(call.requester(), replies[2]->Ok_0);
    let pending = run(state, call.open(state), replies).0;
    let actions = performed(state, call.open(state), replies);
    let refund = Refund { request_id, pending: call.record() };
    let transfer = Transfer {
        from: state.account(),
        to: call.requester(),
        amount: call.pay_amount,
        existence: ExistenceRequirement::AllowDeath,
    };
    let refunding = pending.respond_fund(origin, request_id, seq![0u8], signature).0;
    assert(refunding.finish_refund(refund, Ok(())).0 =~= state.with_event(
        call.report(request_id),
    ).with_event(Event::FundFailed { request_id, refunded: call.pay_amount }));
    assert(actions.push(ActionView::Transfer(transfer)).drop_last() =~= actions);
}

// ---- every call ------------------------------------------------------------

/// The signing service's address is set once: when it is set, it can neither be
/// set again nor does any other call change it.
pub proof fn law_address_is_set_once<T: Config>(
    state: State<T>,
    origin: RawOrigin<T::AccountId>,
    mpc: [u8; 20],
    request: FundRequest<T::AccountId, T::Balance>,
    reply: ReplyView,
    request_id: [u8; 32],
    output: Seq<u8>,
    signature: Signature,
    refund: Refund<T::AccountId, T::Balance>,
    paid: Result<(), sp_runtime::DispatchError>,
)
    ensures
        state.config is Some ==> state.initialize(origin, mpc).0 == state,
        state.config is Some && signer_of(origin) is Ok ==> state.initialize(origin, mpc).1 ==
            Err::<(), CallError>(CallError::Vault(Error::AlreadyInitialized)),
        state.resume_fund(request, reply).0.config == state.config,
        state.respond_fund(origin, request_id, output, signature).0.config == state.config,
        state.finish_refund(refund, paid).0.config == state.config,
{
}

/// Whether `after` is the same vault as `before`, later: with the same account
/// and limits, and with all that was reported before.
pub open spec fn follows<T: Config>(before: State<T>, after: State<T>) -> bool {
    &&& after.pallet_id == before.pallet_id
    &&& after.limits == before.limits
    &&& before.events.is_prefix_of(after.events)
}

/// No call changes the vault's account or takes a report back.
pub proof fn law_reports_are_final<T: Config>(
    state: State<T>,
    origin: RawOrigin<T::AccountId>,
    mpc: [u8; 20],
    request: FundRequest<T::AccountId, T::Balance>,
    reply: ReplyView,
    request_id: [u8; 32],
    output: Seq<u8>,
    signature: Signature,
    refund: Refund<T::AccountId, T::Balance>,
    paid: Result<(), sp_runtime::DispatchError>,
)
    ensures
        follows(state, state.initialize(origin, mpc).0),
        follows(state, state.resume_fund(request, reply).0),
        follows(state, state.respond_fund(origin, request_id, output, signature).0),
        follows(state, state.finish_refund(refund, paid).0),
{
}

/// A pending request stays as it is until it is responded to itself, or its own
/// hand-over to the signing service fails: no call on another request touches it,
/// and none overwrites it.
pub proof fn law_other_requests_are_untouched<T: Config>(
    state: State<T>,
    origin: RawOrigin<T::AccountId>,
    mpc: [u8; 20],
    request: FundRequest<T::AccountId, T::Balance>,
    reply: ReplyView,
    request_id: [u8; 32],
    output: Seq<u8>,
    signature: Signature,
    refund: Refund<T::AccountId, T::Balance>,
    paid: Result<(), sp_runtime::DispatchError>,
    other: [u8; 32],
)
    requires
        request.stage != (Stage::Signing { request_id: other }),
        request_id != other,
        refund.request_id != other,
        state.pending.dom().contains(other),
    ensures
        same_entry(state, state.initialize(origin, mpc).0, other),
        same_entry(state, state.resume_fund(request, reply).0, other),
        same_entry(state, state.respond_fund(origin, request_id, output, signature).0, other),
        same_entry(state, state.finish_refund(refund, paid).0, other),
{
}

/// Whether a request is pending in `after` as it is in `before`.
pub open spec fn same_entry<T: Config>(
    before: State<T>,
    after: State<T>,
    request_id: [u8; 32],
) -> bool {
    after.pending.dom().contains(request_id) && after.pending[request_id]
        == before.pending[request_id]
}

/// How a pending request was reported.
pub open spec fn report_of<T: Config>(
    request_id: [u8; 32],
    data: PendingData<T::AccountId, T::Balance>,
) -> Event<T> {
    Event::FundRequested {
        request_id,
        requester: data.requester,
        to: data.to,
        amount_wei: data.amount_wei,
        pay_amount: data.pay_amount,
    }
}

/// Whether every pending request was reported, just as it is kept.
pub open spec fn accounted<T: Config>(state: State<T>) -> bool {
    forall|request_id: [u8; 32]| #[trigger]
        state.pending.dom().contains(request_id) ==> state.events.contains(
            report_of(request_id, state.pending[request_id]),
        )
}

/// Reports that were made stay made.
proof fn lemma_still_accounted<T: Config>(before: State<T>, after: State<T>)
    requires
        accounted(before),
        before.events.is_prefix_of(after.events),
        forall|request_id: [u8; 32]| #[trigger]
            after.pending.dom().contains(request_id) ==> (before.pending.dom().contains(request_id)
                && before.pending[request_id] == after.pending[request_id])
                || after.events.contains(report_of(request_id, after.pending[request_id])),
    ensures
        accounted(after),
{
    assert forall|request_id: [u8; 32]| #[trigger]
        after.pending.dom().contains(request_id) implies after.events.contains(
        report_of(request_id, after.pending[request_id]),
    ) by {
        let report = report_of::<T>(request_id, after.pending[request_id]);
        if !after.events.contains(report) {
            assert(before.events.contains(report));
            let i = choose|i: int| 0 <= i < before.events.len() && before.events[i] == report;
            assert(after.events[i] == report);
        }
    }
}

/// Every pending request was reported, just as it is kept: it is so of a new
/// vault, and every call that has come to its end keeps it so.
pub proof fn law_pending_requests_were_reported<T: Config>(
    state: State<T>,
    origin: RawOrigin<T::AccountId>,
    mpc: [u8; 20],
    call: FundCall<T>,
    replies: Seq<ReplyView>,
    request_id: [u8; 32],
    output: Seq<u8>,
    signature: Signature,
    paid: Result<(), sp_runtime::DispatchError>,
)
    requires
        accounted(state),
    ensures
        accounted(state.initialize(origin, mpc).0),
        run(state, call.open(state), replies).1 is Finished ==> accounted(
            run(state, call.open(state), replies).0,
        ),
        ({
            let (after, settlement) = state.respond_fund(origin, request_id, output, signature);
            match settlement {
                Ok(Settlement::Refund { refund, .. }) => accounted(
                    after.finish_refund(refund, paid).0,
                ),
                _ => accounted(after),
            }
        }),
{
    lemma_still_accounted(state, state.initialize(origin, mpc).0);
    match run(state, call.open(state), replies).1 {
        StepView::Finished(Ok(unit)) => {
            assert(unit == ());
            law_request_is_recorded(state, call, replies);
            let id = request_id_of(call.requester(), replies[2]->Ok_0);
            let end = run(state, call.open(state), replies).0;
            assert(end.events.last() == report_of::<T>(id, call.record()));
            lemma_still_accounted(state, end);
        },
        StepView::Finished(Err(_)) => {
            law_failed_request_changes_nothing(state, call, replies);
        },
        _ => {},
    }
    let (after, settlement) = state.respond_fund(origin, request_id, output, signature);
    match settlement {
        Ok(Settlement::Refund { refund, .. }) => {
            lemma_still_accounted(state, after.finish_refund(refund, paid).0);
        },
        _ => {
            lemma_still_accounted(state, after);
        },
    }
}

/// A vault starts out with nothing pending, so with everything reported.
pub proof fn law_new_vault_is_accounted<T: Config>(state: State<T>)
    requires
        state.pending == Map::<[u8; 32], PendingData<T::AccountId, T::Balance>>::empty(),
    ensures
        accounted(state),
{
}

/// What a call needs of the vault: its configuration and one pending request.
pub open spec fn excerpt<T: Config>(state: State<T>, request_id: [u8; 32]) -> State<T> {
    State {
        pending: if state.pending.dom().contains(request_id) {
            Map::empty().insert(request_id, state.pending[request_id])
        } else {
            Map::empty()
        },
        events: Seq::empty(),
        ..state
    }
}

/// Whether a call took `whole` to `whole_after` as it took an excerpt of it to
/// `part_after`.
pub open spec fn agree<T: Config>(
    whole: State<T>,
    whole_after: State<T>,
    part_after: State<T>,
    request_id: [u8; 32],
) -> bool {
    &&& whole_after.config == part_after.config
    &&& whole_after.events == whole.events + part_after.events
    &&& whole_after.pending.dom().contains(request_id) == part_after.pending.dom().contains(
        request_id,
    )
    &&& whole_after.pending.dom().contains(request_id) ==> whole_after.pending[request_id]
        == part_after.pending[request_id]
}

/// A call does the same on the excerpt of the vault that concerns its request as
/// on the whole of it.
pub proof fn law_calls_are_local<T: Config>(
    state: State<T>,
    origin: RawOrigin<T::AccountId>,
    mpc: [u8; 20],
    request: FundRequest<T::AccountId, T::Balance>,
    reply: ReplyView,
    output: Seq<u8>,
    signature: Signature,
    pending: PendingData<T::AccountId, T::Balance>,
    paid: Result<(), sp_runtime::DispatchError>,
    request_id: [u8; 32],
)
    requires
        request.stage matches Stage::BuildingFinal { request_id: id } ==> id == request_id,
        request.stage matches Stage::Signing { request_id: id } ==> id == request_id,
    ensures
        ({
            let part = excerpt(state, request_id);
            let refund = Refund { request_id, pending };
            &&& state.initialize(origin, mpc).1 == part.initialize(origin, mpc).1
            &&& agree(
                state,
                state.initialize(origin, mpc).0,
                part.initialize(origin, mpc).0,
                request_id,
            )
            &&& state.resume_fund(request, reply).1 == part.resume_fund(request, reply).1
            &&& agree(
                state,
                state.resume_fund(request, reply).0,
                part.resume_fund(request, reply).0,
                request_id,
            )
            &&& state.respond_fund(origin, request_id, output, signature).1 == part.respond_fund(
                origin,
                request_id,
                output,
                signature,
            ).1
            &&& agree(
                state,
                state.respond_fund(origin, request_id, output, signature).0,
                part.respond_fund(origin, request_id, output, signature).0,
                request_id,
            )
            &&& state.finish_refund(refund, paid).1 == part.finish_refund(refund, paid).1
            &&& agree(
                state,
                state.finish_refund(refund, paid).0,
                part.finish_refund(refund, paid).0,
                request_id,
            )
        }),
{
    let part = excerpt(state, request_id);
    let refund = Refund { request_id, pending };
    let none = Seq::<Event<T>>::empty();
    assert(state.events + none =~= state.events);
    assert forall|event: Event<T>| #[trigger] state.events.push(event) =~= state.events
        + none.push(event) by {}
    assert(agree(
        state,
        state.initialize(origin, mpc).0,
        part.initialize(origin, mpc).0,
        request_id,
    ));
    assert(agree(
        state,
        state.resume_fund(request, reply).0,
        part.resume_fund(request, reply).0,
        request_id,
    ));
    assert(agree(
        state,
        state.respond_fund(origin, request_id, output, signature).0,
        part.respond_fund(origin, request_id, output, signature).0,
        request_id,
    ));
}

// ---- byte formats ----------------------------------------------------------

/// The second coordinate of a signature's point plays no part in its check.
pub proof fn law_signature_check_ignores_y(
    message_hash: Seq<u8>,
    a: Signature,
    b: Signature,
    expected_address: Seq<u8>,
)
    requires
        a.big_r.x == b.big_r.x,
        a.s == b.s,
        a.recovery_id == b.recovery_id,
    ensures
        signature_verdict(message_hash, a, expected_address) == signature_verdict(
            message_hash,
            b,
            expected_address,
        ),
{
}

/// What the service signs says which request and which output it is about.
pub proof fn law_response_is_unambiguous(
    a_id: [u8; 32],
    a_output: Seq<u8>,
    b_id: [u8; 32],
    b_output: Seq<u8>,
)
    requires
        a_id@ + a_output == b_id@ + b_output,
    ensures
        a_id == b_id,
        a_output == b_output,
{
    let (a, b) = (a_id@ + a_output, b_id@ + b_output);
    assert(a.subrange(0, 32) =~= a_id@);
    assert(b.subrange(0, 32) =~= b_id@);
    assert(a.subrange(32, a.len() as int) =~= a_output);
    assert(b.subrange(32, b.len() as int) =~= b_output);
    assert(a_id =~= b_id);
}

/// The call data of `fund` says whom to fund, with how much, and for which
/// request.
pub proof fn law_fund_call_is_unambiguous(
    a_to: [u8; 20],
    a_amount: u128,
    a_id: [u8; 32],
    b_to: [u8; 20],
    b_amount: u128,
    b_id: [u8; 32],
)
    requires
        fund_call_bytes(a_to@, a_amount, a_id@) == fund_call_bytes(b_to@, b_amount, b_id@),
    ensures
        a_to == b_to,
        a_amount == b_amount,
        a_id == b_id,
{
    let a = fund_call_bytes(a_to@, a_amount, a_id@);
    let b = fund_call_bytes(b_to@, b_amount, b_id@);
    lemma_integer_lengths(a_amount as nat, 32);
    lemma_integer_lengths(b_amount as nat, 32);
    assert(a.subrange(16, 36) =~= a_to@);
    assert(b.subrange(16, 36) =~= b_to@);
    assert(a.subrange(36, 68) =~= be_bytes(a_amount as nat, 32));
    assert(b.subrange(36, 68) =~= be_bytes(b_amount as nat, 32));
    assert(a.subrange(68, 100) =~= a_id@);
    assert(b.subrange(68, 100) =~= b_id@);
    assert(a_to =~= b_to);
    assert(a_id =~= b_id);
    lemma_u128_fits(a_amount);
    lemma_u128_fits(b_amount);
    lemma_be_bytes_injective(a_amount as nat, b_amount as nat, 32);
}

} // verus!
