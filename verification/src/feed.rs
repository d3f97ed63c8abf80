//! Plain-data model of the frames that the feed delivers.
//!
//! Each type holds exactly the fields that the synchronization logic reads,
//! with the same optional layers as the wire messages, and has a view into
//! sequences for use in specifications.

use vstd::prelude::*;

use crate::types::Slot;

verus! {

/// One instruction of a transaction: indices into the transaction's account
/// list and opaque instruction data.
#[derive(Debug, Clone, PartialEq, Eq)]
pub struct CompiledInstruction {
    /// Index of the program account in the transaction's account list.
    pub program_id_index: u32,
    /// Indices of the accounts passed to the program.
    pub accounts: Vec<u8>,
    /// Opaque instruction data.
    pub data: Vec<u8>,
}

/// Mathematical value of a [`CompiledInstruction`].
pub struct CompiledInstructionView {
    pub program_id_index: u32,
    pub accounts: Seq<u8>,
    pub data: Seq<u8>,
}

impl View for CompiledInstruction {
    type V = CompiledInstructionView;

    open spec fn view(&self) -> CompiledInstructionView {
        CompiledInstructionView {
            program_id_index: self.program_id_index,
            accounts: self.accounts@,
            data: self.data@,
        }
    }
}

/// The message of a transaction: its account list and its instructions.
#[derive(Debug, Clone, PartialEq, Eq)]
pub struct Message {
    /// Account keys referenced by the instructions, as raw bytes.
    pub account_keys: Vec<Vec<u8>>,
    /// Instructions in execution order.
    pub instructions: Vec<CompiledInstruction>,
}

/// Mathematical value of a [`Message`].
pub struct MessageView {
    pub account_keys: Seq<Seq<u8>>,
    pub instructions: Seq<CompiledInstructionView>,
}

/// The account list as a sequence of byte sequences.
pub open spec fn account_keys_view(keys: Seq<Vec<u8>>) -> Seq<Seq<u8>> {
    keys.map_values(|key: Vec<u8>| key@)
}

/// The instruction list as a sequence of instruction values.
pub open spec fn instructions_view(instructions: Seq<CompiledInstruction>) -> Seq<
    CompiledInstructionView,
> {
    instructions.map_values(|ix: CompiledInstruction| ix@)
}

impl View for Message {
    type V = MessageView;

    open spec fn view(&self) -> MessageView {
        MessageView {
            account_keys: account_keys_view(self.account_keys@),
            instructions: instructions_view(self.instructions@),
        }
    }
}

/// A transaction as carried by a transaction notice.
#[derive(Debug, Clone, PartialEq, Eq)]
pub struct Transaction {
    /// The transaction message, if the feed sent one.
    pub message: Option<Message>,
}

/// Execution status of a transaction.
#[derive(Debug, Clone, PartialEq, Eq)]
pub struct TransactionStatusMeta {
    /// The encoded execution error; `None` for a successful transaction.
    pub err: Option<Vec<u8>>,
}

/// Transaction and status as carried by a transaction notice.
#[derive(Debug, Clone, PartialEq, Eq)]
pub struct TransactionInfo {
    /// The transaction, if the feed sent one.
    pub transaction: Option<Transaction>,
    /// The execution status, if the feed sent one.
    pub meta: Option<TransactionStatusMeta>,
}

/// A transaction notice of the feed.
#[derive(Debug, Clone, PartialEq, Eq)]
pub struct TransactionNotice {
    /// Slot in which the transaction was processed.
    pub slot: Slot,
    /// The transaction with its status, if the feed sent one.
    pub transaction: Option<TransactionInfo>,
}

/// Mathematical value of a [`TransactionNotice`]: its slot and the message
/// that is open to inspection.
pub struct TransactionNoticeView {
    pub slot: Slot,
    /// The message of a transaction that is present, has a status and
    /// executed without error; `None` in every other case.
    pub message: Option<MessageView>,
}

impl TransactionNotice {
    /// The message that may be inspected: every optional layer is present
    /// and the status carries no execution error.
    pub open spec fn inspectable_message(&self) -> Option<Message> {
        match self.transaction {
            Some(info) => match (info.transaction, info.meta) {
                (Some(transaction), Some(meta)) => if meta.err is None {
                    transaction.message
                } else {
                    None
                },
                _ => None,
            },
            None => None,
        }
    }
}

impl View for TransactionNotice {
    type V = TransactionNoticeView;

    open spec fn view(&self) -> TransactionNoticeView {
        TransactionNoticeView {
            slot: self.slot,
            message: match self.inspectable_message() {
                Some(message) => Some(message@),
                None => None,
            },
        }
    }
}

/// Account state as carried by an account notice.
#[derive(Debug, Clone, PartialEq, Eq)]
pub struct AccountInfo {
    /// Address of the account, as raw bytes.
    pub pubkey: Vec<u8>,
    /// Account data.
    pub data: Vec<u8>,
}

/// An account-state notice of the feed.
#[derive(Debug, Clone, PartialEq, Eq)]
pub struct AccountNotice {
    /// Slot in which the account changed.
    pub slot: Slot,
    /// The account, if the feed sent one.
    pub account: Option<AccountInfo>,
}

/// Mathematical value of an [`AccountInfo`].
pub struct AccountInfoView {
    pub pubkey: Seq<u8>,
    pub data: Seq<u8>,
}

/// Mathematical value of an [`AccountNotice`].
pub struct AccountNoticeView {
    pub slot: Slot,
    pub account: Option<AccountInfoView>,
}

impl View for AccountInfo {
    type V = AccountInfoView;

    open spec fn view(&self) -> AccountInfoView {
        AccountInfoView { pubkey: self.pubkey@, data: self.data@ }
    }
}

impl View for AccountNotice {
    type V = AccountNoticeView;

    open spec fn view(&self) -> AccountNoticeView {
        AccountNoticeView {
            slot: self.slot,
            account: match self.account {
                Some(account) => Some(account@),
                None => None,
            },
        }
    }
}

/// A slot-advance notice of the feed.
#[derive(Debug, Clone, Copy, PartialEq, Eq)]
pub struct SlotNotice {
    /// The slot that the ledger reached.
    pub slot: Slot,
}

/// The payload of a feed update.
#[derive(Debug, Clone, PartialEq, Eq)]
pub enum Notice {
    /// An account changed.
    Account(AccountNotice),
    /// The ledger advanced to a slot.
    Slot(SlotNotice),
    /// A transaction was processed.
    Transaction(TransactionNotice),
    /// Any other payload; the service ignores it.
    Other,
}

/// Mathematical value of a [`Notice`].
pub enum NoticeView {
    Account(AccountNoticeView),
    Slot(Slot),
    Transaction(TransactionNoticeView),
    Other,
}

impl View for Notice {
    type V = NoticeView;

    open spec fn view(&self) -> NoticeView {
        match *self {
            Notice::Account(account) => NoticeView::Account(account@),
            Notice::Slot(slot) => NoticeView::Slot(slot.slot),
            Notice::Transaction(transaction) => NoticeView::Transaction(transaction@),
            Notice::Other => NoticeView::Other,
        }
    }
}

/// One update of the feed; the payload may be absent.
#[derive(Debug, Clone, PartialEq, Eq)]
pub struct FeedUpdate {
    /// The payload, if the feed sent one.
    pub notice: Option<Notice>,
}

impl View for FeedUpdate {
    type V = NoticeView;

    /// An update without payload counts as a payload that is ignored.
    open spec fn view(&self) -> NoticeView {
        match self.notice {
            Some(notice) => notice@,
            None => NoticeView::Other,
        }
    }
}

} // verus!
