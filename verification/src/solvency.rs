//! What the vault owes its requesters, and that its balance covers it.
use vstd::prelude::*;

use crate::config::Config;
use crate::flow::ActionView;
use crate::flow::ReplyView;
use crate::flow::Settlement;
use crate::flow::StepView;
use crate::laws::effect;
use crate::laws::law_failed_request_changes_nothing;
use crate::laws::law_request_goes_through;
use crate::laws::law_request_is_recorded;
use crate::laws::law_requester_pays_the_vault;
use crate::laws::net;
use crate::laws::performed;
use crate::laws::run;
use crate::laws::FundCall;
use crate::rules::request_id_of;
use crate::rules::State;
use crate::types::PendingData;
use crate::types::RawOrigin;
use crate::types::Signature;

verus! {

// ---- what is owed ----------------------------------------------------------

/// The payments of all pending requests together, where `value` says what a
/// balance is worth.
pub open spec fn owed<A, B>(
    pending: Map<[u8; 32], PendingData<A, B>>,
    value: spec_fn(B) -> int,
) -> int
    decreases pending.dom().len(),
{
    if pending.dom().finite() && pending.dom().len() > 0 {
        let request_id = pending.dom().choose();
        value(pending[request_id].pay_amount) + owed(pending.remove(request_id), value)
    } else {
        0
    }
}

/// Whether no balance is worth less than nothing.
pub open spec fn no_debts<B>(value: spec_fn(B) -> int) -> bool {
    forall|balance: B| #[trigger] value(balance) >= 0
}

/// Every pending request counts with its payment.
pub proof fn lemma_owed_counts_each<A, B>(
    pending: Map<[u8; 32], PendingData<A, B>>,
    value: spec_fn(B) -> int,
    request_id: [u8; 32],
)
    requires
        pending.dom().finite(),
        pending.dom().contains(request_id),
    ensures
        owed(pending, value) == value(pending[request_id].pay_amount) + owed(
            pending.remove(request_id),
            value,
        ),
    decreases pending.dom().len(),
{
    let first = pending.dom().choose();
    if first != request_id {
        lemma_owed_counts_each(pending.remove(first), value, request_id);
        lemma_owed_counts_each(pending.remove(request_id), value, first);
        assert(pending.remove(first).remove(request_id) =~= pending.remove(request_id).remove(
            first,
        ));
    }
}

/// The vault never owes less than nothing.
pub proof fn lemma_owed_is_no_debt<A, B>(
    pending: Map<[u8; 32], PendingData<A, B>>,
    value: spec_fn(B) -> int,
)
    requires
        no_debts(value),
    ensures
        owed(pending, value) >= 0,
    decreases pending.dom().len(),
{
    if pending.dom().finite() && pending.dom().len() > 0 {
        lemma_owed_is_no_debt(pending.remove(pending.dom().choose()), value);
    }
}

// ---- calls and what they leave ---------------------------------------------

/// A call to the vault, with what the runtime replies meanwhile.
pub enum Call<T: Config> {
    Initialize { origin: RawOrigin<T::AccountId>, mpc: [u8; 20] },
    RequestFund { call: FundCall<T>, replies: Seq<ReplyView> },
    RespondFund {
        origin: RawOrigin<T::AccountId>,
        request_id: [u8; 32],
        output: Seq<u8>,
        signature: Signature,
        paid: Result<(), sp_runtime::DispatchError>,
    },
}

impl<T: Config> Call<T> {
    /// The vault after the call.
    pub open spec fn apply(self, state: State<T>) -> State<T> {
        match self {
            Call::Initialize { origin, mpc } => state.initialize(origin, mpc).0,
            Call::RequestFund { call, replies } => run(state, call.open(state), replies).0,
            Call::RespondFund { origin, request_id, output, signature, paid } => {
                let (after, settlement) = state.respond_fund(
                    origin,
                    request_id,
                    output,
                    signature,
                );
                match settlement {
                    Ok(Settlement::Refund { refund, .. }) => after.finish_refund(refund, paid).0,
                    _ => after,
                }
            },
        }
    }

    /// What the call changes in the balance of the vault's account. An accepted
    /// request brings what its transfers move, and costs the deposit that the
    /// signing service takes. A refund costs what its transfer moves. The chain
    /// undoes the transfers of a call that fails.
    pub open spec fn balance_change(
        self,
        state: State<T>,
        value: spec_fn(T::Balance) -> int,
    ) -> int {
        match self {
            Call::Initialize { .. } => 0,
            Call::RequestFund { call, replies } => if run(state, call.open(state), replies).1
                == StepView::<T::AccountId, T::Balance>::Finished(Ok(())) {
                net(performed(state, call.open(state), replies), state.account(), value) - value(
                    call.signature_deposit,
                )
            } else {
                0
            },
            Call::RespondFund { origin, request_id, output, signature, paid } => match (
                state.respond_fund(origin, request_id, output, signature).1,
                paid,
            ) {
                (Ok(Settlement::Refund { transfer, .. }), Ok(_)) => effect(
                    ActionView::Transfer(transfer),
                    state.account(),
                    value,
                ),
                _ => 0,
            },
        }
    }

    /// Whether the call has come to its end, and is no accepted request of the
    /// vault's own account: what that pays, it pays to itself.
    pub open spec fn counts(self, state: State<T>) -> bool {
        match self {
            Call::RequestFund { call, replies } => match run(
                state,
                call.open(state),
                replies,
            ).1 {
                StepView::Finished(Ok(_)) => call.requester() != state.account(),
                StepView::Finished(Err(_)) => true,
                StepView::Perform { .. } => false,
            },
            _ => true,
        }
    }
}

/// The vault after `history`.
pub open spec fn reached<T: Config>(start: State<T>, history: Seq<Call<T>>) -> State<T>
    decreases history.len(),
{
    if history.len() == 0 {
        start
    } else {
        history.last().apply(reached(start, history.drop_last()))
    }
}

/// What `history` changes in the balance of the vault's account.
pub open spec fn gained<T: Config>(
    start: State<T>,
    history: Seq<Call<T>>,
    value: spec_fn(T::Balance) -> int,
) -> int
    decreases history.len(),
{
    if history.len() == 0 {
        0
    } else {
        gained(start, history.drop_last(), value) + history.last().balance_change(
            reached(start, history.drop_last()),
            value,
        )
    }
}

/// Whether every call of `history` counts where it is made.
pub open spec fn all_count<T: Config>(start: State<T>, history: Seq<Call<T>>) -> bool
    decreases history.len(),
{
    history.len() > 0 ==> all_count(start, history.drop_last()) && history.last().counts(
        reached(start, history.drop_last()),
    )
}

// ---- laws ------------------------------------------------------------------

/// No call leaves the vault owing more without the means for it: its balance
/// grows by at least what it owes more, and shrinks by at most what it owes less.
pub proof fn law_call_keeps_the_vault_covered<T: Config>(
    state: State<T>,
    call: Call<T>,
    value: spec_fn(T::Balance) -> int,
)
    requires
        state.pending.dom().finite(),
        call.counts(state),
        no_debts(value),
    ensures
        call.apply(state).pending.dom().finite(),
        call.apply(state).account() == state.account(),
        owed(call.apply(state).pending, value) - owed(state.pending, value)
            <= call.balance_change(state, value),
{
    match call {
        Call::Initialize { .. } => {},
        Call::RequestFund { call, replies } => {
            match run(state, call.open(state), replies).1 {
                StepView::Finished(Ok(unit)) => {
                    assert(unit == ());
                    law_request_goes_through(state, call, replies);
                    law_request_is_recorded(state, call, replies);
                    law_requester_pays_the_vault(state, call, replies, state.account(), value);
                    let request_id = request_id_of(call.requester(), replies[2]->Ok_0);
                    let after = run(state, call.open(state), replies).0;
                    lemma_owed_counts_each(after.pending, value, request_id);
                    assert(after.pending.remove(request_id) =~= state.pending);
                },
                _ => {
                    law_failed_request_changes_nothing(state, call, replies);
                },
            }
        },
        Call::RespondFund { origin, request_id, output, signature, paid } => {
            let (after, settlement) = state.respond_fund(origin, request_id, output, signature);
            if settlement is Ok {
                lemma_owed_counts_each(state.pending, value, request_id);
                if let Ok(Settlement::Refund { refund, .. }) = settlement {
                    if paid is Err {
                        assert(after.finish_refund(refund, paid).0.pending =~= state.pending);
                    }
                }
            }
        },
    }
}

/// The vault is solvent: after any calls to a vault that had nothing pending, the
/// balance of its account covers the payments of all pending requests. `credited`
/// is what the account had before and was sent by others since. Nobody takes from
/// it but the vault and the signing service, which takes its deposits; nor does
/// the chain collect small balances. Left out are requests that the vault's own
/// account makes.
pub proof fn law_vault_covers_its_pending_requests<T: Config>(
    start: State<T>,
    history: Seq<Call<T>>,
    credited: int,
    value: spec_fn(T::Balance) -> int,
)
    requires
        start.pending == Map::<[u8; 32], PendingData<T::AccountId, T::Balance>>::empty(),
        all_count(start, history),
        credited >= 0,
        no_debts(value),
    ensures
        reached(start, history).pending.dom().finite(),
        reached(start, history).account() == start.account(),
        owed(reached(start, history).pending, value) <= credited + gained(start, history, value),
    decreases history.len(),
{
    if history.len() > 0 {
        let before = history.drop_last();
        law_vault_covers_its_pending_requests(start, before, credited, value);
        law_call_keeps_the_vault_covered(reached(start, before), history.last(), value);
    }
}

/// No refund fails for want of funds: what an accepted response has the vault pay
/// back, its account holds.
pub proof fn law_refund_is_covered<T: Config>(
    start: State<T>,
    history: Seq<Call<T>>,
    credited: int,
    value: spec_fn(T::Balance) -> int,
    origin: RawOrigin<T::AccountId>,
    request_id: [u8; 32],
    output: Seq<u8>,
    signature: Signature,
)
    requires
        start.pending == Map::<[u8; 32], PendingData<T::AccountId, T::Balance>>::empty(),
        all_count(start, history),
        credited >= 0,
        no_debts(value),
    ensures
        reached(start, history).respond_fund(origin, request_id, output, signature).1 matches Ok(
            Settlement::Refund { transfer, .. },
        ) ==> transfer.from == start.account() && value(transfer.amount) <= credited + gained(
            start,
            history,
            value,
        ),
{
    let state = reached(start, history);
    law_vault_covers_its_pending_requests(start, history, credited, value);
    if state.respond_fund(origin, request_id, output, signature).1 is Ok {
        lemma_owed_counts_each(state.pending, value, request_id);
        lemma_owed_is_no_debt(state.pending.remove(request_id), value);
    }
}

} // verus!
