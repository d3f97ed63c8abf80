//! The engine as a state machine over mathematical values: its state and
//! what a request or a notice of the feed does to it.

use vstd::prelude::*;

use crate::consts::PUBKEY_LEN;
use crate::feed::{AccountNoticeView, NoticeView, TransactionNoticeView};
use crate::transaction_syncer::undelegated_records;
use crate::types::{Slot, UpdateView};

verus! {

/// Mathematical state of the engine.
pub struct SyncerView {
    /// The records currently subscribed.
    pub subscriptions: Set<Seq<u8>>,
    /// The latest slot announced by the feed.
    pub slot: Slot,
    /// Every update offered to the update queue so far, oldest first.
    pub offered: Seq<UpdateView>,
}

/// What a request asks for.
pub enum RequestView {
    Subscribe(Seq<u8>),
    Unsubscribe(Seq<u8>),
}

/// Every subscribed record has the width of a pubkey. This holds of every
/// state that an engine can be in.
pub open spec fn well_formed(state: SyncerView) -> bool {
    forall|record: Seq<u8>| #[trigger]
        state.subscriptions.contains(record) ==> record.len() == PUBKEY_LEN
}

/// The state of a freshly started engine: no subscription, slot 0, nothing
/// offered.
pub open spec fn initial_state() -> SyncerView {
    SyncerView { subscriptions: Set::empty(), slot: 0, offered: Seq::empty() }
}

/// The state after a request: a subscription adds the record, an
/// unsubscription removes it, and nothing else changes.
pub open spec fn after_request(state: SyncerView, request: RequestView) -> SyncerView {
    match request {
        RequestView::Subscribe(record) => SyncerView {
            subscriptions: state.subscriptions.insert(record),
            ..state
        },
        RequestView::Unsubscribe(record) => SyncerView {
            subscriptions: state.subscriptions.remove(record),
            ..state
        },
    }
}

/// The update that an account notice gives rise to: one for an account of
/// pubkey width that is subscribed, with the data and the slot of the
/// notice; none otherwise.
pub open spec fn account_update(
    subscriptions: Set<Seq<u8>>,
    notice: AccountNoticeView,
) -> Option<UpdateView> {
    match notice.account {
        Some(account) => {
            if account.pubkey.len() == PUBKEY_LEN && subscriptions.contains(account.pubkey) {
                Some(
                    UpdateView::Delegated {
                        record: account.pubkey,
                        data: account.data,
                        slot: notice.slot,
                    },
                )
            } else {
                None
            }
        },
        None => None,
    }
}

/// The undelegation of a record at a fixed slot, as a function of the record.
pub open spec fn undelegated_at(slot: Slot) -> spec_fn(Seq<u8>) -> UpdateView {
    |record: Seq<u8>| UpdateView::Undelegated { record, slot }
}

/// The updates that a transaction notice gives rise to: one undelegation
/// for each decoded record, in decoding order and at the slot of the
/// notice, whether the record is subscribed or not.
pub open spec fn transaction_updates(notice: TransactionNoticeView) -> Seq<UpdateView> {
    undelegated_records(notice).map_values(undelegated_at(notice.slot))
}

/// The updates that the engine offers to the queue for a notice.
pub open spec fn updates_of(state: SyncerView, notice: NoticeView) -> Seq<UpdateView> {
    match notice {
        NoticeView::Account(account) => match account_update(state.subscriptions, account) {
            Some(update) => seq![update],
            None => Seq::empty(),
        },
        NoticeView::Transaction(transaction) => transaction_updates(transaction),
        NoticeView::Slot(_) => Seq::empty(),
        NoticeView::Other => Seq::empty(),
    }
}

/// The state after a notice: a slot notice sets the slot, every notice adds
/// its updates to those offered, and the subscriptions stay.
pub open spec fn after_notice(state: SyncerView, notice: NoticeView) -> SyncerView {
    SyncerView {
        subscriptions: state.subscriptions,
        slot: match notice {
            NoticeView::Slot(slot) => slot,
            _ => state.slot,
        },
        offered: state.offered + updates_of(state, notice),
    }
}

} // verus!
