//! Stateless decoding of undelegation transactions.

use vstd::prelude::*;

use crate::consts::{
    DELEGATION_PROGRAM, DELEGATION_PROGRAM_PUBKEY, DELEGATION_RECORD_ACCOUNT_INDEX,
    DISCRIMINATOR_LEN, PUBKEY_LEN, UNDELEGATE_DISCRIMINATOR,
};
use crate::connect::{transactions_filters_view, undelegations_filter, TransactionsFilter};
use crate::feed::{
    account_keys_view, CompiledInstruction, CompiledInstructionView, Message, TransactionNotice,
    TransactionNoticeView,
};
use crate::types::{pubkey_equals, pubkey_from_bytes, pubkeys_view, Pubkey};

verus! {

/// The delegation program's address as a byte sequence.
pub open spec fn delegation_program_key() -> Seq<u8> {
    DELEGATION_PROGRAM_PUBKEY@
}

/// The instruction is addressed to the delegation program: its program index
/// resolves, in the account list, to exactly the program's address.
pub open spec fn targets_delegation_program(
    accounts: Seq<Seq<u8>>,
    ix: CompiledInstructionView,
) -> bool {
    &&& (ix.program_id_index as int) < accounts.len()
    &&& accounts[ix.program_id_index as int] == delegation_program_key()
}

/// The instruction data holds a whole discriminator whose first byte is the
/// undelegate tag.
pub open spec fn has_undelegate_tag(ix: CompiledInstructionView) -> bool {
    &&& ix.data.len() >= DISCRIMINATOR_LEN
    &&& ix.data[0] == UNDELEGATE_DISCRIMINATOR
}

/// The instruction names a delegation record: the fixed position of its
/// account list holds an index that resolves to a key of pubkey width.
pub open spec fn names_record(accounts: Seq<Seq<u8>>, ix: CompiledInstructionView) -> bool {
    &&& ix.accounts.len() > DELEGATION_RECORD_ACCOUNT_INDEX
    &&& (ix.accounts[DELEGATION_RECORD_ACCOUNT_INDEX as int] as int) < accounts.len()
    &&& record_key(accounts, ix).len() == PUBKEY_LEN
}

/// The instruction is a well-formed undelegation against the delegation program.
pub open spec fn is_undelegation(accounts: Seq<Seq<u8>>, ix: CompiledInstructionView) -> bool {
    &&& targets_delegation_program(accounts, ix)
    &&& has_undelegate_tag(ix)
    &&& names_record(accounts, ix)
}

/// The key found through the record position of the instruction's account list.
pub open spec fn record_key(accounts: Seq<Seq<u8>>, ix: CompiledInstructionView) -> Seq<u8> {
    accounts[ix.accounts[DELEGATION_RECORD_ACCOUNT_INDEX as int] as int]
}

/// The record that one instruction undelegates, if it is an undelegation.
pub open spec fn undelegated_record(
    accounts: Seq<Seq<u8>>,
    ix: CompiledInstructionView,
) -> Option<Seq<u8>> {
    if is_undelegation(accounts, ix) {
        Some(record_key(accounts, ix))
    } else {
        None
    }
}

/// [`undelegated_record`] against a fixed account list, as a function of the
/// instruction.
pub open spec fn record_decoder(
    accounts: Seq<Seq<u8>>,
) -> spec_fn(CompiledInstructionView) -> Option<Seq<u8>> {
    |ix: CompiledInstructionView| undelegated_record(accounts, ix)
}

/// The records undelegated by a list of instructions, in instruction order.
pub open spec fn undelegations(
    accounts: Seq<Seq<u8>>,
    instructions: Seq<CompiledInstructionView>,
) -> Seq<Seq<u8>> {
    instructions.filter_map(record_decoder(accounts))
}

/// The records undelegated by a transaction notice: those of its message
/// where the message is open to inspection, none otherwise.
pub open spec fn undelegated_records(txn: TransactionNoticeView) -> Seq<Seq<u8>> {
    match txn.message {
        Some(message) => undelegations(message.account_keys, message.instructions),
        None => Seq::empty(),
    }
}

/// Creates the subscription filter for undelegation transactions: one
/// filter, named `undelegations`, on transactions that mention the
/// delegation program.
pub fn create_filter() -> (transactions: Vec<TransactionsFilter>)
    ensures
        transactions_filters_view(transactions@) == seq![undelegations_filter()],
{
    let tx_filter = TransactionsFilter {
        name: "undelegations".to_owned(),
        account_include: vec![DELEGATION_PROGRAM.to_owned()],
    };
    let transactions = vec![tx_filter];
    proof {
        assert(tx_filter@.account_include =~= seq![DELEGATION_PROGRAM@]);
        assert(transactions_filters_view(transactions@) =~= seq![undelegations_filter()]);
    }
    transactions
}

/// Whether `key` is the delegation program's address.
pub fn is_delegation_program(key: &[u8]) -> (matches: bool)
    ensures
        matches == (key@ == delegation_program_key()),
{
    pubkey_equals(&DELEGATION_PROGRAM_PUBKEY, key)
}

/// Decodes one instruction against the transaction's account list.
pub fn decode_instruction(
    accounts: &Vec<Vec<u8>>,
    ix: &CompiledInstruction,
) -> (record: Option<Pubkey>)
    ensures
        match record {
            Some(record) => undelegated_record(account_keys_view(accounts@), ix@) == Some(record@),
            None => undelegated_record(account_keys_view(accounts@), ix@) is None,
        },
{
    let program_index: usize = ix.program_id_index as usize;
    if program_index >= accounts.len() {
        return None;
    }
    if !is_delegation_program(accounts[program_index].as_slice()) {
        return None;
    }
    if ix.data.len() < DISCRIMINATOR_LEN || ix.data[0] != UNDELEGATE_DISCRIMINATOR {
        return None;
    }
    if ix.accounts.len() <= DELEGATION_RECORD_ACCOUNT_INDEX {
        return None;
    }
    let record_index: usize = ix.accounts[DELEGATION_RECORD_ACCOUNT_INDEX] as usize;
    if record_index >= accounts.len() {
        return None;
    }
    pubkey_from_bytes(accounts[record_index].as_slice())
}

/// Decodes the instructions of a message, in order.
pub fn decode_message(message: &Message) -> (records: Vec<Pubkey>)
    ensures
        pubkeys_view(records@) == undelegations(message@.account_keys, message@.instructions),
{
    let ghost accounts = message@.account_keys;
    let ghost instructions = message@.instructions;
    let mut records: Vec<Pubkey> = Vec::new();
    let mut i: usize = 0;
    assert(pubkeys_view(records@) =~= undelegations(accounts, instructions.take(0)));
    while i < message.instructions.len()
        invariant
            0 <= i <= message.instructions.len(),
            accounts == message@.account_keys,
            instructions == message@.instructions,
            instructions.len() == message.instructions.len(),
            pubkeys_view(records@) == undelegations(accounts, instructions.take(i as int)),
        decreases message.instructions.len() - i,
    {
        let ghost before = records@;
        let decoded = decode_instruction(&message.account_keys, &message.instructions[i]);
        proof {
            instructions.lemma_filter_map_take_succ(record_decoder(accounts), i as int);
        }
        match decoded {
            Some(record) => {
                records.push(record);
                assert(pubkeys_view(records@) =~= pubkeys_view(before) + seq![record@]);
            },
            None => {},
        }
        i += 1;
    }
    assert(instructions.take(i as int) =~= instructions);
    records
}

/// Processes a transaction notice and extracts the undelegated records.
///
/// A notice without transaction, status or message, or whose transaction
/// failed, yields nothing. Otherwise every instruction that is a well-formed
/// undelegation against the delegation program yields its record, in
/// instruction order.
pub fn process_update(txn: &TransactionNotice) -> (records: Vec<Pubkey>)
    ensures
        pubkeys_view(records@) == undelegated_records(txn@),
{
    let message = match &txn.transaction {
        Some(info) => match (&info.transaction, &info.meta) {
            (Some(transaction), Some(meta)) => if meta.err.is_none() {
                transaction.message.as_ref()
            } else {
                None
            },
            _ => None,
        },
        None => None,
    };
    match message {
        Some(message) => decode_message(message),
        None => {
            let records: Vec<Pubkey> = Vec::new();
            assert(pubkeys_view(records@) =~= Seq::<Seq<u8>>::empty());
            records
        },
    }
}

/// Decoding is a function of the notice's value alone: two notices with the
/// same value decode to the same records, whatever the two calls returned.
pub proof fn lemma_decoding_is_deterministic(
    first: TransactionNotice,
    second: TransactionNotice,
    first_records: Seq<Pubkey>,
    second_records: Seq<Pubkey>,
)
    requires
        first@ == second@,
        pubkeys_view(first_records) == undelegated_records(first@),
        pubkeys_view(second_records) == undelegated_records(second@),
    ensures
        first_records == second_records,
{
    assert(first_records.len() == pubkeys_view(first_records).len());
    assert(second_records.len() == pubkeys_view(second_records).len());
    assert forall|i: int| 0 <= i < first_records.len() implies first_records[i]
        == second_records[i] by {
        assert(pubkeys_view(first_records)[i] == first_records[i]@);
        assert(pubkeys_view(second_records)[i] == second_records[i]@);
        assert(first_records[i] =~= second_records[i]);
    }
    assert(first_records =~= second_records);
}

/// A transaction that carries an execution error yields no records.
pub proof fn lemma_failed_transaction_yields_nothing(txn: TransactionNotice)
    requires
        txn.transaction matches Some(info) && info.meta matches Some(meta) && meta.err is Some,
    ensures
        undelegated_records(txn@) == Seq::<Seq<u8>>::empty(),
{
}

/// Decoding keeps instruction order: the records of two instruction lists
/// put one after the other are the records of the first followed by the
/// records of the second.
pub proof fn lemma_undelegations_concat(
    accounts: Seq<Seq<u8>>,
    first: Seq<CompiledInstructionView>,
    second: Seq<CompiledInstructionView>,
)
    ensures
        undelegations(accounts, first + second) == undelegations(accounts, first) + undelegations(
            accounts,
            second,
        ),
    decreases second.len(),
{
    if second.len() == 0 {
        assert(first + second =~= first);
        assert(undelegations(accounts, first) + undelegations(accounts, second) =~= undelegations(
            accounts,
            first,
        ));
    } else {
        lemma_undelegations_concat(accounts, first, second.drop_last());
        assert((first + second).drop_last() =~= first + second.drop_last());
        assert((first + second).last() == second.last());
        match undelegated_record(accounts, second.last()) {
            Some(record) => {
                assert(undelegations(accounts, first + second) =~= (undelegations(accounts, first)
                    + undelegations(accounts, second.drop_last())) + seq![record]);
            },
            None => {},
        }
    }
}

/// An instruction that is no well-formed undelegation contributes nothing,
/// whatever else the transaction holds: the records are those of the
/// instruction list without it.
pub proof fn lemma_rejected_instruction_contributes_nothing(
    accounts: Seq<Seq<u8>>,
    instructions: Seq<CompiledInstructionView>,
    i: int,
)
    requires
        0 <= i < instructions.len(),
        !is_undelegation(accounts, instructions[i]),
    ensures
        undelegations(accounts, instructions) == undelegations(accounts, instructions.remove(i)),
{
    let head = instructions.take(i);
    let tail = instructions.skip(i + 1);
    let one = seq![instructions[i]];
    assert(instructions =~= (head + one) + tail);
    assert(instructions.remove(i) =~= head + tail);
    lemma_undelegations_concat(accounts, head + one, tail);
    lemma_undelegations_concat(accounts, head, one);
    lemma_undelegations_concat(accounts, head, tail);
    assert(undelegations(accounts, one) =~= Seq::<Seq<u8>>::empty()) by {
        assert(one.drop_last() =~= Seq::<CompiledInstructionView>::empty());
        assert(one.last() == instructions[i]);
        reveal_with_fuel(Seq::filter_map, 2);
    }
    assert(undelegations(accounts, head) + Seq::<Seq<u8>>::empty() =~= undelegations(
        accounts,
        head,
    ));
}

/// Whether the instruction is a well-formed undelegation against a fixed
/// account list, as a function of the instruction.
pub open spec fn undelegation_filter(
    accounts: Seq<Seq<u8>>,
) -> spec_fn(CompiledInstructionView) -> bool {
    |ix: CompiledInstructionView| is_undelegation(accounts, ix)
}

/// [`record_key`] against a fixed account list, as a function of the
/// instruction.
pub open spec fn record_key_of(
    accounts: Seq<Seq<u8>>,
) -> spec_fn(CompiledInstructionView) -> Seq<u8> {
    |ix: CompiledInstructionView| record_key(accounts, ix)
}

/// The records are those of the well-formed undelegations against the
/// delegation program, one for each, in instruction order: a transaction
/// with `n` of them yields exactly `n` records.
pub proof fn lemma_one_record_for_each_undelegation(
    accounts: Seq<Seq<u8>>,
    instructions: Seq<CompiledInstructionView>,
)
    ensures
        undelegations(accounts, instructions) == instructions.filter(
            undelegation_filter(accounts),
        ).map_values(record_key_of(accounts)),
    decreases instructions.len(),
{
    reveal(Seq::filter);
    let kept = instructions.filter(undelegation_filter(accounts));
    if instructions.len() == 0 {
        assert(undelegations(accounts, instructions) =~= kept.map_values(record_key_of(accounts)));
    } else {
        let rest = instructions.drop_last();
        let last = instructions.last();
        lemma_one_record_for_each_undelegation(accounts, rest);
        let kept_rest = rest.filter(undelegation_filter(accounts));
        if is_undelegation(accounts, last) {
            assert(kept == kept_rest.push(last));
            assert(kept.map_values(record_key_of(accounts)) =~= kept_rest.map_values(
                record_key_of(accounts),
            ) + seq![record_key(accounts, last)]);
        } else {
            assert(kept == kept_rest);
        }
    }
}

/// An instruction addressed to another program yields no record.
pub proof fn lemma_other_program_is_rejected(accounts: Seq<Seq<u8>>, ix: CompiledInstructionView)
    requires
        !targets_delegation_program(accounts, ix),
    ensures
        undelegated_record(accounts, ix) is None,
{
}

/// Changing only the first byte of the instruction data to a value other
/// than the undelegate tag yields no record.
pub proof fn lemma_other_tag_is_rejected(
    accounts: Seq<Seq<u8>>,
    ix: CompiledInstructionView,
    tag: u8,
)
    requires
        ix.data.len() > 0,
        tag != UNDELEGATE_DISCRIMINATOR,
    ensures
        undelegated_record(
            accounts,
            CompiledInstructionView { data: ix.data.update(0, tag), ..ix },
        ) is None,
{
}

/// Truncating the instruction data below the discriminator width yields no
/// record.
pub proof fn lemma_truncated_data_is_rejected(
    accounts: Seq<Seq<u8>>,
    ix: CompiledInstructionView,
    len: int,
)
    requires
        0 <= len <= ix.data.len(),
        len < DISCRIMINATOR_LEN,
    ensures
        undelegated_record(
            accounts,
            CompiledInstructionView { data: ix.data.take(len), ..ix },
        ) is None,
{
}

/// A transaction none of whose instructions is a well-formed undelegation
/// against the delegation program (each is addressed to another program,
/// carries another tag or too little data, or names no record) yields no
/// records.
pub proof fn lemma_no_undelegation_yields_nothing(txn: TransactionNoticeView)
    requires
        txn.message matches Some(message) ==> forall|i: int|
            0 <= i < message.instructions.len() ==> !is_undelegation(
                message.account_keys,
                #[trigger] message.instructions[i],
            ),
    ensures
        undelegated_records(txn) == Seq::<Seq<u8>>::empty(),
{
    match txn.message {
        Some(message) => {
            lemma_rejected_instructions(message.account_keys, message.instructions);
        },
        None => {},
    }
}

proof fn lemma_rejected_instructions(
    accounts: Seq<Seq<u8>>,
    instructions: Seq<CompiledInstructionView>,
)
    requires
        forall|i: int|
            0 <= i < instructions.len() ==> !is_undelegation(accounts, #[trigger] instructions[i]),
    ensures
        undelegations(accounts, instructions) == Seq::<Seq<u8>>::empty(),
    decreases instructions.len(),
{
    if instructions.len() > 0 {
        lemma_rejected_instructions(accounts, instructions.drop_last());
        assert(!is_undelegation(accounts, instructions[instructions.len() - 1]));
    }
}

/// A transaction all of whose `n` instructions are well-formed undelegations
/// against the delegation program yields exactly `n` records: the record of
/// each instruction, in instruction order.
pub proof fn lemma_every_undelegation_yields_its_record(
    accounts: Seq<Seq<u8>>,
    instructions: Seq<CompiledInstructionView>,
)
    requires
        forall|i: int|
            0 <= i < instructions.len() ==> is_undelegation(accounts, #[trigger] instructions[i]),
    ensures
        undelegations(accounts, instructions).len() == instructions.len(),
        forall|i: int|
            0 <= i < instructions.len() ==> #[trigger] undelegations(accounts, instructions)[i]
                == record_key(accounts, instructions[i]),
    decreases instructions.len(),
{
    if instructions.len() > 0 {
        let rest = instructions.drop_last();
        lemma_every_undelegation_yields_its_record(accounts, rest);
        assert(is_undelegation(accounts, instructions[instructions.len() - 1]));
        assert(undelegations(accounts, instructions) =~= undelegations(accounts, rest)
            + seq![record_key(accounts, instructions.last())]);
        assert forall|i: int| 0 <= i < instructions.len() implies #[trigger] undelegations(
            accounts,
            instructions,
        )[i] == record_key(accounts, instructions[i]) by {
            if i < rest.len() {
                assert(undelegations(accounts, rest)[i] == record_key(accounts, rest[i]));
            }
        }
    }
}

} // verus!
