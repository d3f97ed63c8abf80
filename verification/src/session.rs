//! Runs of the engine over whole sequences of inputs, and what holds of
//! every run.

use vstd::prelude::*;

use crate::feed::{AccountInfoView, AccountNoticeView, NoticeView};
use crate::state::{
    after_notice, after_request, initial_state, transaction_updates, updates_of, well_formed,
    RequestView, SyncerView,
};
use crate::types::{Slot, UpdateView};

verus! {

/// One input of the engine: a request, a notice of the feed, or a feed error.
pub enum Input {
    Request(RequestView),
    Notice(NoticeView),
    FeedError,
}

/// The state after one input, as the engine's handlers establish it. A
/// feed error changes nothing.
pub open spec fn step(state: SyncerView, input: Input) -> SyncerView {
    match input {
        Input::Request(request) => after_request(state, request),
        Input::Notice(notice) => after_notice(state, notice),
        Input::FeedError => state,
    }
}

/// The state after a sequence of inputs, handled in order.
pub open spec fn run(state: SyncerView, inputs: Seq<Input>) -> SyncerView
    decreases inputs.len(),
{
    if inputs.len() == 0 {
        state
    } else {
        step(run(state, inputs.drop_last()), inputs.last())
    }
}

/// What the last request about `record` asked for: `Some(true)` for a
/// subscription, `Some(false)` for an unsubscription, `None` where no input
/// is a request about `record`.
pub open spec fn last_request(inputs: Seq<Input>, record: Seq<u8>) -> Option<bool>
    decreases inputs.len(),
{
    if inputs.len() == 0 {
        None
    } else if inputs.last() == Input::Request(RequestView::Subscribe(record)) {
        Some(true)
    } else if inputs.last() == Input::Request(RequestView::Unsubscribe(record)) {
        Some(false)
    } else {
        last_request(inputs.drop_last(), record)
    }
}

/// The slot of the last slot notice among the inputs, if there is one.
pub open spec fn last_slot(inputs: Seq<Input>) -> Option<Slot>
    decreases inputs.len(),
{
    if inputs.len() == 0 {
        None
    } else {
        match inputs.last() {
            Input::Notice(NoticeView::Slot(slot)) => Some(slot),
            _ => last_slot(inputs.drop_last()),
        }
    }
}

/// The requests among the inputs, in order.
pub open spec fn requests_of(inputs: Seq<Input>) -> Seq<Input> {
    inputs.filter(|input: Input| input is Request)
}

/// Every update that a whole session offers to the update queue: those of
/// the run from the initial state, then the final `SyncTerminated`.
pub open spec fn session_updates(inputs: Seq<Input>) -> Seq<UpdateView> {
    run(initial_state(), inputs).offered.push(UpdateView::SyncTerminated)
}

/// Subscribing twice is the same as subscribing once.
pub proof fn lemma_subscribe_is_idempotent(state: SyncerView, record: Seq<u8>)
    ensures
        after_request(
            after_request(state, RequestView::Subscribe(record)),
            RequestView::Subscribe(record),
        ) == after_request(state, RequestView::Subscribe(record)),
{
    assert(state.subscriptions.insert(record).insert(record) =~= state.subscriptions.insert(
        record,
    ));
}

/// Subscribing a record that is subscribed changes nothing.
pub proof fn lemma_subscribe_member_changes_nothing(state: SyncerView, record: Seq<u8>)
    requires
        state.subscriptions.contains(record),
    ensures
        after_request(state, RequestView::Subscribe(record)) == state,
{
    assert(state.subscriptions.insert(record) =~= state.subscriptions);
}

/// Unsubscribing a record that is not subscribed changes nothing.
pub proof fn lemma_unsubscribe_absent_changes_nothing(state: SyncerView, record: Seq<u8>)
    requires
        !state.subscriptions.contains(record),
    ensures
        after_request(state, RequestView::Unsubscribe(record)) == state,
{
    assert(state.subscriptions.remove(record) =~= state.subscriptions);
}

/// After any sequence of requests, notices and feed errors, a record is
/// subscribed exactly if the last request about it was a subscription, or,
/// where no request was about it, if it was subscribed at the start.
pub proof fn lemma_subscriptions_follow_requests(
    state: SyncerView,
    inputs: Seq<Input>,
    record: Seq<u8>,
)
    ensures
        run(state, inputs).subscriptions.contains(record) == (match last_request(inputs, record) {
            Some(subscribed) => subscribed,
            None => state.subscriptions.contains(record),
        }),
    decreases inputs.len(),
{
    if inputs.len() > 0 {
        lemma_subscriptions_follow_requests(state, inputs.drop_last(), record);
    }
}

/// Notices and feed errors never change the subscriptions: the set after a
/// run is the set after the run's requests alone.
pub proof fn lemma_subscriptions_ignore_the_feed(state: SyncerView, inputs: Seq<Input>)
    ensures
        run(state, inputs).subscriptions == run(state, requests_of(inputs)).subscriptions,
    decreases inputs.len(),
{
    reveal(Seq::filter);
    if inputs.len() > 0 {
        lemma_subscriptions_ignore_the_feed(state, inputs.drop_last());
        if inputs.last() is Request {
            assert(requests_of(inputs).drop_last() =~= requests_of(inputs.drop_last()));
            assert(requests_of(inputs).last() == inputs.last());
        }
    }
}

/// After any sequence of inputs the slot is the one of the last slot
/// notice, or, where there was none, the slot at the start: only slot
/// notices move it.
pub proof fn lemma_slot_follows_slot_notices(state: SyncerView, inputs: Seq<Input>)
    ensures
        run(state, inputs).slot == (match last_slot(inputs) {
            Some(slot) => slot,
            None => state.slot,
        }),
    decreases inputs.len(),
{
    if inputs.len() > 0 {
        lemma_slot_follows_slot_notices(state, inputs.drop_last());
    }
}

/// Whether the slot notices among the inputs never go back: each announces
/// a slot that is at least `floor` and at least every slot announced before.
pub open spec fn slots_never_go_back(floor: Slot, inputs: Seq<Input>) -> bool
    decreases inputs.len(),
{
    if inputs.len() == 0 {
        true
    } else {
        let earlier = inputs.drop_last();
        slots_never_go_back(floor, earlier) && (match inputs.last() {
            Input::Notice(NoticeView::Slot(slot)) => slot >= (match last_slot(earlier) {
                Some(before) => before,
                None => floor,
            }),
            _ => true,
        })
    }
}

/// On a feed whose slots never go back, the engine's slot never decreases:
/// after any run it is at least what it was after any shorter run.
pub proof fn lemma_slot_never_decreases(state: SyncerView, inputs: Seq<Input>, shorter: int)
    requires
        slots_never_go_back(state.slot, inputs),
        0 <= shorter <= inputs.len(),
    ensures
        run(state, inputs.take(shorter)).slot <= run(state, inputs).slot,
    decreases inputs.len(),
{
    if shorter == inputs.len() {
        assert(inputs.take(shorter) =~= inputs);
    } else {
        let earlier = inputs.drop_last();
        assert(inputs.take(shorter) =~= earlier.take(shorter));
        lemma_slot_never_decreases(state, earlier, shorter);
        lemma_slot_follows_slot_notices(state, earlier);
    }
}

/// An account notice for a record that is not subscribed offers nothing.
pub proof fn lemma_unsubscribed_account_is_dropped(
    state: SyncerView,
    notice: AccountNoticeView,
)
    requires
        notice.account matches Some(account) ==> !state.subscriptions.contains(account.pubkey),
    ensures
        updates_of(state, NoticeView::Account(notice)) == Seq::<UpdateView>::empty(),
{
}

/// An account notice for a subscribed record offers exactly one `Delegated`
/// update, with the record, the data and the slot of the notice.
pub proof fn lemma_subscribed_account_is_published(
    state: SyncerView,
    notice: AccountNoticeView,
    account: AccountInfoView,
)
    requires
        well_formed(state),
        notice.account == Some(account),
        state.subscriptions.contains(account.pubkey),
    ensures
        updates_of(state, NoticeView::Account(notice)) == seq![
            UpdateView::Delegated {
                record: account.pubkey,
                data: account.data,
                slot: notice.slot,
            },
        ],
{
}

/// Whether some input is a subscription of `record`.
pub open spec fn ever_subscribed(inputs: Seq<Input>, record: Seq<u8>) -> bool {
    exists|i: int|
        0 <= i < inputs.len() && #[trigger] inputs[i] == Input::Request(
            RequestView::Subscribe(record),
        )
}

/// A run only extends what was offered before it.
pub proof fn lemma_run_extends_offered(state: SyncerView, inputs: Seq<Input>)
    ensures
        state.offered.is_prefix_of(run(state, inputs).offered),
    decreases inputs.len(),
{
    if inputs.len() > 0 {
        lemma_run_extends_offered(state, inputs.drop_last());
    }
}

/// Throughout a run, a `Delegated` update is offered only for a record that
/// was subscribed at the start or by a request of the run: a record that
/// was never subscribed never gets one.
pub proof fn lemma_delegated_only_if_subscribed(state: SyncerView, inputs: Seq<Input>, k: int)
    requires
        state.offered.len() <= k < run(state, inputs).offered.len(),
        run(state, inputs).offered[k] is Delegated,
    ensures
        state.subscriptions.contains(run(state, inputs).offered[k]->Delegated_record)
            || ever_subscribed(inputs, run(state, inputs).offered[k]->Delegated_record),
    decreases inputs.len(),
{
    if inputs.len() > 0 {
        let earlier = inputs.drop_last();
        let before = run(state, earlier);
        let record = run(state, inputs).offered[k]->Delegated_record;
        lemma_run_extends_offered(state, earlier);
        if k < before.offered.len() {
            assert(run(state, inputs).offered[k] == before.offered[k]) by {
                match inputs.last() {
                    Input::Notice(notice) => {},
                    _ => {},
                }
            }
            lemma_delegated_only_if_subscribed(state, earlier, k);
            if ever_subscribed(earlier, record) {
                let i = choose|i: int|
                    0 <= i < earlier.len() && #[trigger] earlier[i] == Input::Request(
                        RequestView::Subscribe(record),
                    );
                assert(inputs[i] == earlier[i]);
            }
        } else {
            match inputs.last() {
                Input::Notice(NoticeView::Account(account)) => {
                    assert(before.subscriptions.contains(record));
                    lemma_subscriptions_follow_requests(state, earlier, record);
                    if last_request(earlier, record) == Some(true) {
                        lemma_last_request_is_in_inputs(earlier, record);
                    }
                    if ever_subscribed(earlier, record) {
                        let i = choose|i: int|
                            0 <= i < earlier.len() && #[trigger] earlier[i] == Input::Request(
                                RequestView::Subscribe(record),
                            );
                        assert(inputs[i] == earlier[i]);
                    }
                },
                Input::Notice(NoticeView::Transaction(transaction)) => {
                    assert(transaction_updates(transaction)[k - before.offered.len()]
                        is Undelegated);
                },
                _ => {},
            }
        }
    }
}

/// Where the last request about a record is a subscription, some input
/// subscribes it.
proof fn lemma_last_request_is_in_inputs(inputs: Seq<Input>, record: Seq<u8>)
    requires
        last_request(inputs, record) == Some(true),
    ensures
        ever_subscribed(inputs, record),
    decreases inputs.len(),
{
    if inputs.last() == Input::Request(RequestView::Subscribe(record)) {
        assert(inputs[inputs.len() - 1] == Input::Request(RequestView::Subscribe(record)));
    } else {
        lemma_last_request_is_in_inputs(inputs.drop_last(), record);
        let i = choose|i: int|
            0 <= i < inputs.drop_last().len() && #[trigger] inputs.drop_last()[i]
                == Input::Request(RequestView::Subscribe(record));
        assert(inputs[i] == inputs.drop_last()[i]);
    }
}

/// No notice makes the engine offer `SyncTerminated`.
pub proof fn lemma_notices_never_terminate(state: SyncerView, notice: NoticeView, i: int)
    requires
        0 <= i < updates_of(state, notice).len(),
    ensures
        updates_of(state, notice)[i] != UpdateView::SyncTerminated,
{
}

/// A run from a state that has not offered `SyncTerminated` does not offer it.
pub proof fn lemma_run_never_terminates(state: SyncerView, inputs: Seq<Input>)
    requires
        forall|i: int|
            0 <= i < state.offered.len() ==> state.offered[i] != UpdateView::SyncTerminated,
    ensures
        forall|i: int|
            0 <= i < run(state, inputs).offered.len() ==> run(state, inputs).offered[i]
                != UpdateView::SyncTerminated,
    decreases inputs.len(),
{
    if inputs.len() > 0 {
        lemma_run_never_terminates(state, inputs.drop_last());
        let before = run(state, inputs.drop_last());
        match inputs.last() {
            Input::Notice(notice) => {
                assert forall|i: int| 0 <= i < run(state, inputs).offered.len() implies run(
                    state,
                    inputs,
                ).offered[i] != UpdateView::SyncTerminated by {
                    if i >= before.offered.len() {
                        lemma_notices_never_terminate(before, notice, i - before.offered.len());
                    }
                }
            },
            _ => {},
        }
    }
}

/// In every session, `SyncTerminated` is offered exactly once, as the last
/// update.
pub proof fn lemma_terminated_once_and_last(inputs: Seq<Input>)
    ensures
        session_updates(inputs).last() == UpdateView::SyncTerminated,
        forall|i: int|
            0 <= i < session_updates(inputs).len() - 1 ==> session_updates(inputs)[i]
                != UpdateView::SyncTerminated,
{
    lemma_run_never_terminates(initial_state(), inputs);
}

} // verus!
