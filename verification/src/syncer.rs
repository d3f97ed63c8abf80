//! The synchronization engine: the subscription registry, the current slot
//! and the dispatch of feed notices to the update queue.

use vstd::prelude::*;

use helius_laserstream::LaserstreamError;
use tokio::sync::mpsc::Sender;

use crate::feed::{AccountNotice, FeedUpdate, Notice, NoticeView, TransactionNotice};
use crate::queue::Delivery;
use crate::state::{
    account_update, after_notice, after_request, initial_state, transaction_updates, updates_of,
    well_formed, RequestView, SyncerView,
};
use crate::subscriptions::SubscriptionSet;
use crate::transaction_syncer::{process_update, undelegated_records};
use crate::types::{pubkey_from_bytes, pubkeys_view, AccountUpdate, Pubkey, Slot, UpdateView};

verus! {

/// A request to the engine.
pub enum SyncRequest {
    /// Subscribe to updates for a delegation record.
    Subscribe {
        /// The delegation record pubkey.
        record: Pubkey,
        /// Channel to send the current slot back to the requester.
        slot_tx: tokio::sync::oneshot::Sender<Slot>,
    },
    /// Unsubscribe from a delegation record.
    Unsubscribe(Pubkey),
}

impl View for SyncRequest {
    type V = RequestView;

    open spec fn view(&self) -> RequestView {
        match *self {
            SyncRequest::Subscribe { record, slot_tx } => RequestView::Subscribe(record@),
            SyncRequest::Unsubscribe(record) => RequestView::Unsubscribe(record@),
        }
    }
}

/// What the engine did with a request.
#[derive(Debug, Clone, Copy, PartialEq, Eq)]
pub enum RequestOutcome {
    /// The record is subscribed and `slot` was handed to the reply channel.
    Subscribed {
        /// The engine's slot when the subscription was recorded.
        slot: Slot,
        /// Whether the requester was still there to take the reply.
        answered: bool,
    },
    /// The record is not subscribed any more.
    Unsubscribed,
}

impl RequestOutcome {
    /// The outcome of a subscription recorded at `slot`, given what the
    /// reply channel returned: the reply was taken unless the slot came back.
    pub fn subscribed(slot: Slot, sent: Result<(), Slot>) -> (outcome: RequestOutcome)
        ensures
            outcome == (RequestOutcome::Subscribed { slot, answered: sent is Ok }),
    {
        RequestOutcome::Subscribed { slot, answered: sent.is_ok() }
    }
}

/// What the engine did with an item of the feed.
#[derive(Debug)]
pub enum UpdateOutcome {
    /// The item was a feed error. The engine changed nothing and goes on;
    /// the error is handed back for diagnostics.
    Failed(LaserstreamError),
    /// The item was handled. There is one entry for each update offered to
    /// the queue, in the order of the offers.
    Handled(Vec<Delivery>),
}

/// Builds the update for an account notice, if the account is subscribed.
pub fn delegated_update(
    subscriptions: &SubscriptionSet,
    notice: AccountNotice,
) -> (update: Option<AccountUpdate>)
    ensures
        match update {
            Some(update) => account_update(subscriptions@, notice@) == Some(update@),
            None => account_update(subscriptions@, notice@) is None,
        },
{
    let slot = notice.slot;
    let account = match notice.account {
        Some(account) => account,
        None => {
            return None;
        },
    };
    if !subscriptions.contains(account.pubkey.as_slice()) {
        return None;
    }
    match pubkey_from_bytes(account.pubkey.as_slice()) {
        Some(record) => Some(AccountUpdate::Delegated { record, data: account.data, slot }),
        None => None,
    }
}

/// The synchronization engine.
///
/// It owns the subscription set and the current slot, and is the only
/// writer of both. Updates leave through the sending half of the update
/// queue; the engine never waits for the queue.
pub struct DlpSyncer {
    /// Set of currently subscribed delegation records.
    subscriptions: SubscriptionSet,
    /// Sender for broadcasting updates to subscribers.
    updates: Sender<AccountUpdate>,
    /// Current slot number.
    slot: Slot,
    /// Every update handed to `updates` so far.
    offered: Ghost<Seq<UpdateView>>,
}

impl View for DlpSyncer {
    type V = SyncerView;

    closed spec fn view(&self) -> SyncerView {
        SyncerView {
            subscriptions: self.subscriptions@,
            slot: self.slot,
            offered: self.offered@,
        }
    }
}

impl DlpSyncer {
    /// The sending half of the update queue that the engine holds.
    pub closed spec fn sender(&self) -> Sender<AccountUpdate> {
        self.updates
    }

    /// The engine's state is well formed.
    pub proof fn lemma_state_is_well_formed(&self)
        ensures
            well_formed(self@),
    {
        self.subscriptions.lemma_members_have_pubkey_width();
    }

    /// An engine with no subscription, at slot 0, that has offered nothing
    /// to `updates` yet.
    pub fn new(updates: Sender<AccountUpdate>) -> (syncer: Self)
        ensures
            syncer@ == initial_state(),
            syncer.sender() == updates,
    {
        DlpSyncer {
            subscriptions: SubscriptionSet::new(),
            updates,
            slot: 0,
            offered: Ghost(Seq::empty()),
        }
    }

    /// The latest slot announced by the feed; 0 before the first.
    pub fn slot(&self) -> (slot: Slot)
        ensures
            slot == self@.slot,
    {
        self.slot
    }

    /// Whether `record` is currently subscribed.
    pub fn is_subscribed(&self, record: &Pubkey) -> (subscribed: bool)
        ensures
            subscribed == self@.subscriptions.contains(record@),
    {
        self.subscriptions.contains(record.as_slice())
    }

    /// The number of records currently subscribed.
    pub fn subscription_count(&self) -> (count: usize)
        ensures
            count == self@.subscriptions.len(),
    {
        self.subscriptions.len()
    }

    /// Hands `update` to the update queue without waiting.
    fn offer(&mut self, update: AccountUpdate) -> (delivery: Delivery)
        ensures
            final(self)@ == (SyncerView {
                offered: old(self)@.offered.push(update@),
                ..old(self)@
            }),

            final(self).sender() == old(self).sender(),
    {
        self.offered = Ghost(self.offered@.push(update@));
        Delivery::from_try_send(self.updates.try_send(update))
    }

    /// Handles a subscription or unsubscription request.
    ///
    /// A subscription adds the record and hands the current slot to the
    /// request's reply channel; an unsubscription removes the record.
    /// Subscribing a member and unsubscribing a non-member change nothing.
    pub fn handle_request(&mut self, request: SyncRequest) -> (outcome: RequestOutcome)
        ensures
            final(self)@ == after_request(old(self)@, request@),
            final(self).sender() == old(self).sender(),
            match request@ {
                RequestView::Subscribe(_) => {
                    &&& outcome matches RequestOutcome::Subscribed { slot, .. }
                    &&& slot == old(self)@.slot
                },
                RequestView::Unsubscribe(_) => outcome == RequestOutcome::Unsubscribed,
            },
    {
        match request {
            SyncRequest::Subscribe { record, slot_tx } => {
                self.subscriptions.insert(record);
                let slot = self.slot;
                RequestOutcome::subscribed(slot, slot_tx.send(slot))
            },
            SyncRequest::Unsubscribe(record) => {
                self.subscriptions.remove(&record);
                RequestOutcome::Unsubscribed
            },
        }
    }

    /// Handles an account notice: offers a `Delegated` update where the
    /// account is subscribed, and drops the notice otherwise.
    pub fn handle_account_update(&mut self, notice: AccountNotice) -> (delivery: Option<Delivery>)
        ensures
            final(self)@ == after_notice(old(self)@, NoticeView::Account(notice@)),
            final(self).sender() == old(self).sender(),
            delivery is Some <==> account_update(old(self)@.subscriptions, notice@) is Some,
    {
        match delegated_update(&self.subscriptions, notice) {
            Some(update) => {
                let delivery = self.offer(update);
                assert(self@.offered =~= old(self)@.offered + seq![update@]);
                Some(delivery)
            },
            None => {
                assert(self@.offered =~= old(self)@.offered + Seq::<UpdateView>::empty());
                None
            },
        }
    }

    /// Handles a transaction notice: offers an `Undelegated` update for
    /// every record that the transaction undelegates, in instruction order.
    pub fn handle_transaction_update(
        &mut self,
        notice: TransactionNotice,
    ) -> (deliveries: Vec<Delivery>)
        ensures
            final(self)@ == after_notice(old(self)@, NoticeView::Transaction(notice@)),
            final(self).sender() == old(self).sender(),
            deliveries@.len() == transaction_updates(notice@).len(),
    {
        let slot = notice.slot;
        let records = process_update(&notice);
        let ghost updates = transaction_updates(notice@);
        let mut deliveries: Vec<Delivery> = Vec::new();
        let mut i: usize = 0;
        assert(self@.offered =~= old(self)@.offered + updates.take(0));
        while i < records.len()
            invariant
                0 <= i <= records.len(),
                slot == notice.slot,
                pubkeys_view(records@) == undelegated_records(notice@),
                updates == transaction_updates(notice@),
                deliveries@.len() == i,
                self@.subscriptions == old(self)@.subscriptions,
                self@.slot == old(self)@.slot,
                self@.offered == old(self)@.offered + updates.take(i as int),
                self.sender() == old(self).sender(),
            decreases records.len() - i,
        {
            let ghost before = self@.offered;
            let update = AccountUpdate::Undelegated { record: records[i], slot };
            proof {
                assert(pubkeys_view(records@)[i as int] == records@[i as int]@);
                assert(updates[i as int] == update@);
                assert(updates.take(i + 1) =~= updates.take(i as int).push(update@));
            }
            let delivery = self.offer(update);
            assert(self@.offered =~= old(self)@.offered + updates.take(i + 1));
            deliveries.push(delivery);
            i += 1;
        }
        assert(updates.take(i as int) =~= updates);
        deliveries
    }

    /// Handles one item of the feed.
    ///
    /// A feed error changes nothing and does not stop the engine. A slot
    /// notice sets the current slot; an account or transaction notice is
    /// dispatched; any other payload, or none, is ignored.
    pub fn handle_update(
        &mut self,
        result: Result<FeedUpdate, LaserstreamError>,
    ) -> (outcome: UpdateOutcome)
        ensures
            final(self).sender() == old(self).sender(),
            match result {
                Ok(update) => {
                    &&& final(self)@ == after_notice(old(self)@, update@)
                    &&& outcome matches UpdateOutcome::Handled(deliveries)
                    &&& deliveries@.len() == updates_of(old(self)@, update@).len()
                },
                Err(error) => {
                    &&& final(self)@ == old(self)@
                    &&& outcome == UpdateOutcome::Failed(error)
                },
            },
    {
        let update = match result {
            Ok(update) => update,
            Err(error) => {
                return UpdateOutcome::Failed(error);
            },
        };
        let mut deliveries: Vec<Delivery> = Vec::new();
        match update.notice {
            Some(Notice::Account(account)) => {
                match self.handle_account_update(account) {
                    Some(delivery) => {
                        deliveries.push(delivery);
                    },
                    None => {},
                }
            },
            Some(Notice::Slot(slot)) => {
                self.slot = slot.slot;
                assert(self@.offered =~= old(self)@.offered + Seq::<UpdateView>::empty());
            },
            Some(Notice::Transaction(transaction)) => {
                deliveries = self.handle_transaction_update(transaction);
            },
            Some(Notice::Other) => {
                assert(self@.offered =~= old(self)@.offered + Seq::<UpdateView>::empty());
            },
            None => {
                assert(self@.offered =~= old(self)@.offered + Seq::<UpdateView>::empty());
            },
        }
        UpdateOutcome::Handled(deliveries)
    }

    /// Stops the engine. Gives back the sending half of the update queue
    /// together with the final update, which the caller sends as the last
    /// one before dropping the sender.
    pub fn shutdown(self) -> (last: (Sender<AccountUpdate>, AccountUpdate))
        ensures
            last.0 == self.sender(),
            last.1@ == UpdateView::SyncTerminated,
    {
        (self.updates, AccountUpdate::SyncTerminated)
    }
}

} // verus!
