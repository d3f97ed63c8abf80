//! Establishing the feed: the subscription request that the service sends
//! and the health check on the first update.

use vstd::prelude::*;

use helius_laserstream::LaserstreamError;

use crate::consts::{DELEGATION_PROGRAM, DELEGATION_RECORD_SIZE, MAX_RECONNECT_ATTEMPTS};
use crate::transaction_syncer::create_filter;
use crate::types::DlpSyncError;

verus! {

/// How the feed client is to connect.
#[derive(Debug, Clone, PartialEq, Eq)]
pub struct FeedConfig {
    /// API key for authentication.
    pub api_key: String,
    /// The feed's gRPC endpoint URL.
    pub endpoint: String,
    /// How often the client may reconnect before it gives up.
    pub max_reconnect_attempts: Option<u32>,
    /// Whether the client replays missed slots after a reconnect.
    pub replay: bool,
}

/// The configuration of the service for an endpoint and a key: a bounded
/// number of reconnection attempts, with replay.
pub fn feed_config(endpoint: String, key: String) -> (config: FeedConfig)
    ensures
        config == (FeedConfig {
            api_key: key,
            endpoint,
            max_reconnect_attempts: Some(MAX_RECONNECT_ATTEMPTS),
            replay: true,
        }),
{
    FeedConfig {
        api_key: key,
        endpoint,
        max_reconnect_attempts: Some(MAX_RECONNECT_ATTEMPTS),
        replay: true,
    }
}

/// A named filter on account updates: accounts owned by one of `owner`
/// whose data has one of the sizes in `datasize`.
#[derive(Debug, Clone, PartialEq, Eq)]
pub struct AccountsFilter {
    /// Name under which the filter is registered.
    pub name: String,
    /// Owning programs, base58 encoded.
    pub owner: Vec<String>,
    /// Required account data sizes in bytes.
    pub datasize: Vec<u64>,
}

/// A named filter on transactions: those that mention one of `account_include`.
#[derive(Debug, Clone, PartialEq, Eq)]
pub struct TransactionsFilter {
    /// Name under which the filter is registered.
    pub name: String,
    /// Accounts of interest, base58 encoded.
    pub account_include: Vec<String>,
}

/// A named filter on slot updates that lets every slot through.
#[derive(Debug, Clone, PartialEq, Eq)]
pub struct SlotsFilter {
    /// Name under which the filter is registered.
    pub name: String,
}

/// The subscription request sent when the feed is opened.
#[derive(Debug, Clone, PartialEq, Eq)]
pub struct SubscribeRequest {
    /// Filters on account updates.
    pub accounts: Vec<AccountsFilter>,
    /// Filters on slot updates.
    pub slots: Vec<SlotsFilter>,
    /// Filters on transactions.
    pub transactions: Vec<TransactionsFilter>,
}

/// The character sequences of a list of strings.
pub open spec fn strings_view(strings: Seq<String>) -> Seq<Seq<char>> {
    strings.map_values(|string: String| string@)
}

/// Mathematical value of an [`AccountsFilter`].
pub struct AccountsFilterView {
    pub name: Seq<char>,
    pub owner: Seq<Seq<char>>,
    pub datasize: Seq<u64>,
}

/// Mathematical value of a [`TransactionsFilter`].
pub struct TransactionsFilterView {
    pub name: Seq<char>,
    pub account_include: Seq<Seq<char>>,
}

/// Mathematical value of a [`SubscribeRequest`]; a slots filter is its name.
pub struct SubscribeRequestView {
    pub accounts: Seq<AccountsFilterView>,
    pub slots: Seq<Seq<char>>,
    pub transactions: Seq<TransactionsFilterView>,
}

impl View for AccountsFilter {
    type V = AccountsFilterView;

    open spec fn view(&self) -> AccountsFilterView {
        AccountsFilterView {
            name: self.name@,
            owner: strings_view(self.owner@),
            datasize: self.datasize@,
        }
    }
}

impl View for TransactionsFilter {
    type V = TransactionsFilterView;

    open spec fn view(&self) -> TransactionsFilterView {
        TransactionsFilterView {
            name: self.name@,
            account_include: strings_view(self.account_include@),
        }
    }
}

impl View for SlotsFilter {
    type V = Seq<char>;

    open spec fn view(&self) -> Seq<char> {
        self.name@
    }
}

/// The values of a list of transaction filters.
pub open spec fn transactions_filters_view(
    filters: Seq<TransactionsFilter>,
) -> Seq<TransactionsFilterView> {
    filters.map_values(|filter: TransactionsFilter| filter@)
}

impl View for SubscribeRequest {
    type V = SubscribeRequestView;

    open spec fn view(&self) -> SubscribeRequestView {
        SubscribeRequestView {
            accounts: self.accounts@.map_values(|filter: AccountsFilter| filter@),
            slots: self.slots@.map_values(|filter: SlotsFilter| filter@),
            transactions: transactions_filters_view(self.transactions@),
        }
    }
}

/// The filter on delegation records: accounts owned by the delegation
/// program whose data has the size of a delegation record.
pub open spec fn delegations_filter() -> AccountsFilterView {
    AccountsFilterView {
        name: "delegations"@,
        owner: seq![DELEGATION_PROGRAM@],
        datasize: seq![DELEGATION_RECORD_SIZE],
    }
}

/// The filter on undelegations: transactions that mention the delegation
/// program.
pub open spec fn undelegations_filter() -> TransactionsFilterView {
    TransactionsFilterView { name: "undelegations"@, account_include: seq![DELEGATION_PROGRAM@] }
}

/// The request of the service: delegation record accounts, transactions of
/// the delegation program, and all slots.
pub open spec fn service_request() -> SubscribeRequestView {
    SubscribeRequestView {
        accounts: seq![delegations_filter()],
        slots: seq!["slots"@],
        transactions: seq![undelegations_filter()],
    }
}

/// Builds the subscription request of the service.
pub fn subscribe_request() -> (request: SubscribeRequest)
    ensures
        request@ == service_request(),
{
    let account_filter = AccountsFilter {
        name: "delegations".to_owned(),
        owner: vec![DELEGATION_PROGRAM.to_owned()],
        datasize: vec![DELEGATION_RECORD_SIZE],
    };
    let slot_filter = SlotsFilter { name: "slots".to_owned() };
    let request = SubscribeRequest {
        accounts: vec![account_filter],
        slots: vec![slot_filter],
        transactions: create_filter(),
    };
    proof {
        assert(account_filter@.owner =~= seq![DELEGATION_PROGRAM@]);
        assert(account_filter@.datasize =~= seq![DELEGATION_RECORD_SIZE]);
        assert(request@.accounts =~= seq![delegations_filter()]);
        assert(request@.slots =~= seq!["slots"@]);
        assert(request@.transactions =~= seq![undelegations_filter()]);
    }
    request
}

/// Judges what came of waiting for the first update of a freshly opened
/// feed. `first` is `Err` where the wait timed out, `Ok(None)` where the
/// feed closed, and otherwise the first item of the feed. Any update counts
/// as a sign of life.
pub fn health_check<T, E>(first: Result<Option<Result<T, LaserstreamError>>, E>) -> (checked:
    Result<(), DlpSyncError>)
    ensures
        match first {
            Err(_) => checked == Err::<(), DlpSyncError>(
                DlpSyncError::Connection("health check timed out"),
            ),
            Ok(None) => checked == Err::<(), DlpSyncError>(
                DlpSyncError::Connection("stream closed before first update"),
            ),
            Ok(Some(Err(error))) => checked == Err::<(), DlpSyncError>(
                DlpSyncError::LaserStream(error),
            ),
            Ok(Some(Ok(_))) => checked is Ok,
        },
{
    match first {
        Err(_) => Err(DlpSyncError::Connection("health check timed out")),
        Ok(None) => Err(DlpSyncError::Connection("stream closed before first update")),
        Ok(Some(Err(error))) => Err(DlpSyncError::LaserStream(error)),
        Ok(Some(Ok(_))) => Ok(()),
    }
}

} // verus!
