use dlp_sync::consts::{
    DELEGATION_PROGRAM_PUBKEY, DELEGATION_RECORD_ACCOUNT_INDEX, DISCRIMINATOR_LEN,
    UNDELEGATE_DISCRIMINATOR,
};
use dlp_sync::feed::{
    CompiledInstruction, Message, Transaction, TransactionInfo, TransactionNotice,
    TransactionStatusMeta,
};
use dlp_sync::transaction_syncer::{decode_instruction, is_delegation_program};
use dlp_sync::types::{pubkey_equals, pubkey_from_bytes};
use dlp_sync::{process_update, Pubkey};

fn create_undelegate_instruction(
    program_id_index: u32,
    record_account_index: u8,
) -> CompiledInstruction {
    let mut data = vec![0u8; DISCRIMINATOR_LEN];
    data[0] = UNDELEGATE_DISCRIMINATOR;
    let mut accounts = vec![0u8; DELEGATION_RECORD_ACCOUNT_INDEX + 1];
    accounts[DELEGATION_RECORD_ACCOUNT_INDEX] = record_account_index;
    CompiledInstruction {
        program_id_index,
        accounts,
        data,
    }
}

fn create_other_instruction(program_id_index: u32) -> CompiledInstruction {
    CompiledInstruction {
        program_id_index,
        accounts: vec![0, 1, 2],
        data: vec![0u8; DISCRIMINATOR_LEN],
    }
}

fn create_txn_update(
    slot: u64,
    account_keys: Vec<Vec<u8>>,
    instructions: Vec<CompiledInstruction>,
    err: Option<Vec<u8>>,
) -> TransactionNotice {
    TransactionNotice {
        slot,
        transaction: Some(TransactionInfo {
            transaction: Some(Transaction {
                message: Some(Message {
                    account_keys,
                    instructions,
                }),
            }),
            meta: Some(TransactionStatusMeta { err }),
        }),
    }
}

fn random_pubkey() -> Vec<u8> {
    (0..32).map(|i| i as u8).collect()
}

fn record_pubkey(seed: u8) -> Vec<u8> {
    vec![seed; 32]
}

#[test]
fn test_process_update_with_undelegation_instruction() {
    let delegation_program = DELEGATION_PROGRAM_PUBKEY.to_vec();
    let record = record_pubkey(42);
    let account_keys = vec![random_pubkey(), delegation_program, record.clone()];
    let instructions = vec![create_undelegate_instruction(1, 2)];
    let txn = create_txn_update(100, account_keys, instructions, None);

    let result = process_update(&txn).into_iter().collect::<Vec<Pubkey>>();

    assert_eq!(result.len(), 1);
    let expected_record: Pubkey = record.as_slice().try_into().unwrap();
    assert_eq!(result[0], expected_record);
}

#[test]
fn test_process_update_without_undelegation_instruction() {
    let other_program = random_pubkey();
    let account_keys = vec![random_pubkey(), other_program];
    let instructions = vec![create_other_instruction(1)];
    let txn = create_txn_update(100, account_keys, instructions, None);

    let result = process_update(&txn).into_iter().collect::<Vec<Pubkey>>();

    assert!(result.is_empty());
}

#[test]
fn test_process_update_with_malformed_data() {
    let delegation_program = DELEGATION_PROGRAM_PUBKEY.to_vec();
    let account_keys = vec![random_pubkey(), delegation_program];
    let malformed_ix = CompiledInstruction {
        program_id_index: 1,
        accounts: vec![],
        data: vec![],
    };
    let txn = create_txn_update(100, account_keys, vec![malformed_ix], None);

    let result = process_update(&txn).into_iter().collect::<Vec<Pubkey>>();

    assert!(result.is_empty());
}

#[test]
fn test_process_update_with_multiple_undelegation_instructions() {
    let delegation_program = DELEGATION_PROGRAM_PUBKEY.to_vec();
    let record1 = record_pubkey(1);
    let record2 = record_pubkey(2);
    let record3 = record_pubkey(3);
    let account_keys = vec![
        random_pubkey(),
        delegation_program,
        record1.clone(),
        record2.clone(),
        record3.clone(),
    ];
    let instructions = vec![
        create_undelegate_instruction(1, 2),
        create_undelegate_instruction(1, 3),
        create_undelegate_instruction(1, 4),
    ];
    let txn = create_txn_update(200, account_keys, instructions, None);

    let result = process_update(&txn).into_iter().collect::<Vec<Pubkey>>();

    assert_eq!(result.len(), 3);
    let expected1: Pubkey = record1.as_slice().try_into().unwrap();
    let expected2: Pubkey = record2.as_slice().try_into().unwrap();
    let expected3: Pubkey = record3.as_slice().try_into().unwrap();
    assert_eq!(result[0], expected1);
    assert_eq!(result[1], expected2);
    assert_eq!(result[2], expected3);
}

#[test]
fn test_process_update_with_mixed_instructions() {
    let delegation_program = DELEGATION_PROGRAM_PUBKEY.to_vec();
    let other_program = random_pubkey();
    let record = record_pubkey(99);
    let account_keys = vec![
        random_pubkey(),
        delegation_program,
        other_program,
        record.clone(),
    ];
    let instructions = vec![
        create_other_instruction(2),
        create_undelegate_instruction(1, 3),
        create_other_instruction(2),
    ];
    let txn = create_txn_update(300, account_keys, instructions, None);

    let result = process_update(&txn).into_iter().collect::<Vec<Pubkey>>();

    assert_eq!(result.len(), 1);
    let expected_record: Pubkey = record.as_slice().try_into().unwrap();
    assert_eq!(result[0], expected_record);
}

#[test]
fn test_process_update_real_undelegate_transaction() {
    let account_keys: Vec<Vec<u8>> = vec![
        vec![
            5, 62, 162, 42, 88, 56, 179, 161, 33, 20, 15, 2, 170, 67, 59, 11, 147, 146, 74,
            122, 186, 28, 135, 70, 6, 17, 193, 187, 246, 101, 67, 254,
        ],
        vec![
            2, 72, 123, 149, 154, 28, 42, 5, 203, 133, 136, 151, 147, 6, 51, 17, 210, 14, 230,
            70, 5, 92, 116, 249, 173, 225, 5, 243, 123, 218, 107, 121,
        ],
        vec![
            2, 156, 240, 31, 8, 227, 71, 24, 38, 134, 176, 55, 100, 79, 131, 141, 136, 167,
            250, 23, 143, 90, 223, 105, 3, 218, 146, 242, 186, 116, 159, 245,
        ],
        vec![
            16, 244, 61, 162, 137, 30, 7, 140, 196, 156, 106, 131, 37, 154, 52, 54, 38, 7, 200,
            134, 91, 126, 171, 131, 76, 71, 53, 113, 224, 191, 220, 131,
        ],
        vec![
            93, 185, 64, 160, 51, 203, 91, 169, 63, 16, 190, 250, 6, 127, 50, 34, 83, 69, 202,
            36, 207, 2, 26, 127, 73, 14, 64, 42, 168, 112, 243, 247,
        ],
        vec![
            95, 232, 166, 5, 73, 185, 224, 5, 43, 125, 32, 58, 120, 165, 19, 29, 204, 186, 36,
            171, 140, 16, 143, 110, 129, 187, 102, 247, 116, 214, 217, 104,
        ],
        vec![
            191, 216, 249, 0, 219, 24, 217, 241, 219, 105, 68, 147, 70, 243, 61, 204, 216, 198,
            228, 218, 222, 249, 42, 129, 249, 80, 136, 232, 65, 137, 1, 40,
        ],
        vec![
            206, 188, 216, 84, 252, 33, 46, 58, 47, 194, 4, 232, 107, 53, 162, 90, 194, 1, 254,
            180, 229, 235, 81, 166, 83, 235, 160, 220, 42, 36, 142, 24,
        ],
        vec![
            235, 210, 196, 10, 117, 2, 125, 28, 175, 161, 36, 233, 191, 80, 162, 45, 13, 87,
            204, 254, 249, 45, 4, 175, 236, 3, 249, 6, 117, 220, 24, 8,
        ],
        vec![
            244, 48, 161, 207, 180, 238, 8, 71, 42, 115, 120, 201, 130, 115, 52, 119, 188, 114,
            14, 25, 63, 36, 97, 28, 199, 173, 180, 46, 190, 13, 27, 108,
        ],
        vec![
            0, 0, 0, 0, 0, 0, 0, 0, 0, 0, 0, 0, 0, 0, 0, 0, 0, 0, 0, 0, 0, 0, 0, 0, 0, 0, 0, 0,
            0, 0, 0, 0,
        ],
        vec![
            3, 6, 70, 111, 229, 33, 23, 50, 255, 236, 173, 186, 114, 195, 155, 231, 188, 140,
            229, 187, 197, 247, 18, 107, 44, 67, 155, 58, 64, 0, 0, 0,
        ],
        vec![
            162, 211, 1, 190, 154, 210, 30, 64, 120, 186, 237, 91, 247, 216, 155, 174, 121,
            251, 243, 100, 155, 28, 35, 33, 25, 86, 113, 10, 107, 4, 182, 135,
        ],
        vec![
            181, 183, 0, 225, 242, 87, 58, 192, 204, 6, 34, 1, 52, 74, 207, 151, 184, 53, 6,
            235, 140, 229, 25, 152, 204, 98, 126, 24, 147, 128, 167, 62,
        ],
        vec![
            185, 255, 31, 113, 29, 105, 39, 129, 63, 161, 34, 161, 231, 204, 45, 54, 62, 248,
            189, 69, 172, 212, 222, 101, 51, 136, 202, 69, 225, 212, 233, 238,
        ],
    ];

    let instructions = vec![
        CompiledInstruction {
            program_id_index: 11,
            accounts: vec![],
            data: vec![2, 80, 52, 3, 0],
        },
        CompiledInstruction {
            program_id_index: 11,
            accounts: vec![],
            data: vec![3, 128, 56, 1, 0, 0, 0, 0, 0],
        },
        CompiledInstruction {
            program_id_index: 11,
            accounts: vec![],
            data: vec![4, 32, 142, 85, 0],
        },
        CompiledInstruction {
            program_id_index: 13,
            accounts: vec![0, 5, 2, 7, 8, 6, 1, 14, 10],
            data: vec![
                1, 0, 0, 0, 0, 0, 0, 0, 1, 0, 0, 0, 0, 0, 0, 0, 0, 75, 15, 0, 0, 0, 0, 0, 1,
                16, 0, 0, 0, 255, 176, 4, 245, 188, 253, 124, 25, 208, 12, 0, 0, 0, 0, 0, 0,
            ],
        },
        CompiledInstruction {
            program_id_index: 13,
            accounts: vec![0, 5, 2, 7, 8, 6, 1, 10],
            data: vec![2, 0, 0, 0, 0, 0, 0, 0],
        },
        CompiledInstruction {
            program_id_index: 13,
            accounts: vec![0, 5, 12, 9, 2, 7, 8, 6, 3, 4, 1, 10],
            data: vec![3, 0, 0, 0, 0, 0, 0, 0],
        },
    ];

    let txn = TransactionNotice {
        slot: 436772071,
        transaction: Some(TransactionInfo {
            transaction: Some(Transaction {
                message: Some(Message {
                    account_keys,
                    instructions,
                }),
            }),
            meta: Some(TransactionStatusMeta { err: None }),
        }),
    };

    let result = process_update(&txn).into_iter().collect::<Vec<Pubkey>>();

    assert_eq!(result.len(), 1, "Should detect exactly one undelegation");
    let expected_record: Pubkey = [
        191, 216, 249, 0, 219, 24, 217, 241, 219, 105, 68, 147, 70, 243, 61, 204, 216, 198,
        228, 218, 222, 249, 42, 129, 249, 80, 136, 232, 65, 137, 1, 40,
    ];
    assert_eq!(
        result[0], expected_record,
        "Record pubkey should match account at index 6"
    );
}

fn sample_accounts() -> Vec<Vec<u8>> {
    vec![
        random_pubkey(),
        DELEGATION_PROGRAM_PUBKEY.to_vec(),
        record_pubkey(7),
        record_pubkey(8),
    ]
}

fn key(seed: u8) -> Pubkey {
    [seed; 32]
}

#[test]
fn failed_transaction_yields_nothing() {
    let instructions = vec![create_undelegate_instruction(1, 2)];
    let txn = create_txn_update(5, sample_accounts(), instructions, Some(vec![1, 2, 3]));
    assert!(process_update(&txn).is_empty());
}

#[test]
fn failed_transaction_with_empty_error_bytes_yields_nothing() {
    let instructions = vec![create_undelegate_instruction(1, 2)];
    let txn = create_txn_update(5, sample_accounts(), instructions, Some(vec![]));
    assert!(process_update(&txn).is_empty());
}

#[test]
fn notice_without_transaction_yields_nothing() {
    let txn = TransactionNotice {
        slot: 9,
        transaction: None,
    };
    assert!(process_update(&txn).is_empty());
}

#[test]
fn notice_without_status_yields_nothing() {
    let txn = TransactionNotice {
        slot: 9,
        transaction: Some(TransactionInfo {
            transaction: Some(Transaction {
                message: Some(Message {
                    account_keys: sample_accounts(),
                    instructions: vec![create_undelegate_instruction(1, 2)],
                }),
            }),
            meta: None,
        }),
    };
    assert!(process_update(&txn).is_empty());
}

#[test]
fn notice_without_inner_transaction_yields_nothing() {
    let txn = TransactionNotice {
        slot: 9,
        transaction: Some(TransactionInfo {
            transaction: None,
            meta: Some(TransactionStatusMeta { err: None }),
        }),
    };
    assert!(process_update(&txn).is_empty());
}

#[test]
fn notice_without_message_yields_nothing() {
    let txn = TransactionNotice {
        slot: 9,
        transaction: Some(TransactionInfo {
            transaction: Some(Transaction { message: None }),
            meta: Some(TransactionStatusMeta { err: None }),
        }),
    };
    assert!(process_update(&txn).is_empty());
}

#[test]
fn message_without_instructions_yields_nothing() {
    let txn = create_txn_update(1, sample_accounts(), vec![], None);
    assert!(process_update(&txn).is_empty());
}

#[test]
fn other_program_is_rejected() {
    let accounts = sample_accounts();
    let ix = create_undelegate_instruction(0, 2);
    assert_eq!(decode_instruction(&accounts, &ix), None);
    let ix = create_undelegate_instruction(1, 2);
    assert_eq!(decode_instruction(&accounts, &ix), Some(key(7)));
}

#[test]
fn program_index_out_of_range_is_rejected() {
    let accounts = sample_accounts();
    let ix = create_undelegate_instruction(4, 2);
    assert_eq!(decode_instruction(&accounts, &ix), None);
    let ix = create_undelegate_instruction(u32::MAX, 2);
    assert_eq!(decode_instruction(&accounts, &ix), None);
}

#[test]
fn other_discriminator_is_rejected() {
    let accounts = sample_accounts();
    for tag in 0..=255u8 {
        let mut ix = create_undelegate_instruction(1, 3);
        ix.data[0] = tag;
        let expected = if tag == 3 { Some(key(8)) } else { None };
        assert_eq!(decode_instruction(&accounts, &ix), expected);
    }
}

#[test]
fn only_first_discriminator_byte_counts() {
    let accounts = sample_accounts();
    let mut ix = create_undelegate_instruction(1, 3);
    ix.data = vec![3, 9, 9, 9, 9, 9, 9, 9, 1, 2, 3];
    assert_eq!(decode_instruction(&accounts, &ix), Some(key(8)));
}

#[test]
fn truncated_data_is_rejected() {
    let accounts = sample_accounts();
    for len in 0..=8usize {
        let mut ix = create_undelegate_instruction(1, 2);
        ix.data.truncate(len);
        let expected = if len == 8 { Some(key(7)) } else { None };
        assert_eq!(decode_instruction(&accounts, &ix), expected);
    }
}

#[test]
fn short_account_list_is_rejected() {
    let accounts = sample_accounts();
    let mut ix = create_undelegate_instruction(1, 2);
    ix.accounts.truncate(DELEGATION_RECORD_ACCOUNT_INDEX);
    assert_eq!(decode_instruction(&accounts, &ix), None);
}

#[test]
fn record_is_read_at_the_fixed_position() {
    let accounts = sample_accounts();
    let ix = CompiledInstruction {
        program_id_index: 1,
        accounts: vec![0, 0, 0, 0, 0, 0, 2, 3, 2],
        data: vec![3, 0, 0, 0, 0, 0, 0, 0],
    };
    assert_eq!(decode_instruction(&accounts, &ix), Some(key(8)));
}

#[test]
fn record_index_out_of_range_is_rejected() {
    let accounts = sample_accounts();
    let ix = create_undelegate_instruction(1, 4);
    assert_eq!(decode_instruction(&accounts, &ix), None);
    let ix = create_undelegate_instruction(1, 255);
    assert_eq!(decode_instruction(&accounts, &ix), None);
}

#[test]
fn record_of_wrong_width_is_rejected() {
    let mut accounts = sample_accounts();
    accounts.push(vec![5; 31]);
    accounts.push(vec![5; 33]);
    accounts.push(vec![]);
    for index in 4..=6u8 {
        let ix = create_undelegate_instruction(1, index);
        assert_eq!(decode_instruction(&accounts, &ix), None);
    }
}

#[test]
fn program_key_of_wrong_width_is_rejected() {
    let mut short = DELEGATION_PROGRAM_PUBKEY.to_vec();
    short.pop();
    let mut long = DELEGATION_PROGRAM_PUBKEY.to_vec();
    long.push(0);
    assert!(!is_delegation_program(&short));
    assert!(!is_delegation_program(&long));
    assert!(!is_delegation_program(&vec![]));
    assert!(is_delegation_program(&DELEGATION_PROGRAM_PUBKEY.to_vec()));
}

#[test]
fn program_key_differing_in_one_byte_is_rejected() {
    for position in 0..32usize {
        let mut other = DELEGATION_PROGRAM_PUBKEY.to_vec();
        other[position] ^= 1;
        assert!(!is_delegation_program(&other));
    }
}

#[test]
fn pubkey_from_bytes_copies_exactly_32_bytes() {
    let bytes = random_pubkey();
    let expected: Pubkey = bytes.as_slice().try_into().unwrap();
    assert_eq!(pubkey_from_bytes(&bytes), Some(expected));
    assert_eq!(pubkey_from_bytes(&vec![1; 31]), None);
    assert_eq!(pubkey_from_bytes(&vec![1; 33]), None);
    assert_eq!(pubkey_from_bytes(&vec![]), None);
}

#[test]
fn records_come_in_instruction_order_and_may_repeat() {
    let instructions = vec![
        create_undelegate_instruction(1, 3),
        create_other_instruction(0),
        create_undelegate_instruction(1, 2),
        create_undelegate_instruction(1, 3),
    ];
    let txn = create_txn_update(11, sample_accounts(), instructions, None);
    assert_eq!(process_update(&txn), vec![key(8), key(7), key(8)]);
}

#[test]
fn decoding_twice_gives_the_same_records() {
    let instructions = vec![
        create_undelegate_instruction(1, 2),
        create_undelegate_instruction(1, 3),
    ];
    let txn = create_txn_update(11, sample_accounts(), instructions, None);
    let first = process_update(&txn);
    let second = process_update(&txn.clone());
    assert_eq!(first, second);
    assert_eq!(first, vec![key(7), key(8)]);
}

#[test]
fn decoding_a_concatenation_concatenates_the_records() {
    let head = vec![
        create_undelegate_instruction(1, 2),
        create_other_instruction(1),
    ];
    let tail = vec![
        create_undelegate_instruction(0, 2),
        create_undelegate_instruction(1, 3),
    ];
    let mut all = head.clone();
    all.extend(tail.clone());
    let mut expected = process_update(&create_txn_update(1, sample_accounts(), head, None));
    expected.extend(process_update(&create_txn_update(1, sample_accounts(), tail, None)));
    let whole = process_update(&create_txn_update(1, sample_accounts(), all, None));
    assert_eq!(whole, expected);
    assert_eq!(whole, vec![key(7), key(8)]);
}

#[test]
fn the_program_account_itself_can_be_the_record() {
    let ix = create_undelegate_instruction(1, 1);
    assert_eq!(
        decode_instruction(&sample_accounts(), &ix),
        Some(DELEGATION_PROGRAM_PUBKEY)
    );
}

#[test]
fn pubkey_equals_compares_every_byte() {
    let record = key(9);
    assert!(pubkey_equals(&record, &[9u8; 32]));
    assert!(!pubkey_equals(&record, &[9u8; 31]));
    assert!(!pubkey_equals(&record, &[9u8; 33]));
    assert!(!pubkey_equals(&record, &[]));
    for position in 0..32usize {
        let mut other = [9u8; 32];
        other[position] = 8;
        assert!(!pubkey_equals(&record, &other));
    }
}
