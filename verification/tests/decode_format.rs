use evm_disasm::decode::decode;
use evm_disasm::disassemble;
use evm_disasm::format::{dec_string, format_listing};
use evm_disasm::opcodes::{opcode_name, push_operand_len};

#[test]
fn decode_simple_push_add() {
    let (instrs, consumed) = decode("6001600201");
    assert_eq!(instrs.len(), 3);
    assert_eq!(instrs[0].offset, 0);
    assert_eq!(instrs[0].mnemonic, "PUSH1");
    assert_eq!(instrs[0].immediate, "01");
    assert_eq!(instrs[1].offset, 2);
    assert_eq!(instrs[1].mnemonic, "PUSH1");
    assert_eq!(instrs[1].immediate, "02");
    assert_eq!(instrs[2].offset, 4);
    assert_eq!(instrs[2].mnemonic, "ADD");
    assert_eq!(instrs[2].immediate, "");
    assert_eq!(consumed, 5);
}

#[test]
fn listing_of_simple_push_add() {
    let listing = disassemble("6001600201");
    assert_eq!(listing, "0 PUSH1 01\n2 PUSH1 02\n4 ADD \n");
    assert_eq!(listing.lines().count(), 3);
}

#[test]
fn truncated_push_alone_emits_nothing() {
    let (instrs, consumed) = decode("60");
    assert_eq!(instrs.len(), 0);
    assert_eq!(consumed, 0);
}

#[test]
fn truncated_push_after_instructions() {
    let (instrs, consumed) = decode("61000160");
    assert_eq!(instrs.len(), 1);
    assert_eq!(instrs[0].offset, 0);
    assert_eq!(instrs[0].mnemonic, "PUSH2");
    assert_eq!(instrs[0].immediate, "0001");
    assert_eq!(consumed, 3);
}

#[test]
fn non_push_advances_by_one() {
    let (instrs, consumed) = decode("010203");
    assert_eq!(instrs.len(), 3);
    for (k, ins) in instrs.iter().enumerate() {
        assert_eq!(ins.offset, k);
        assert_eq!(ins.immediate, "");
    }
    assert_eq!(consumed, 3);
}

#[test]
fn empty_bytecode_decodes_to_nothing() {
    let (instrs, consumed) = decode("");
    assert_eq!(instrs.len(), 0);
    assert_eq!(consumed, 0);
}

#[test]
fn unassigned_byte_gets_placeholder() {
    let (instrs, consumed) = decode("0c");
    assert_eq!(instrs.len(), 1);
    assert_eq!(instrs[0].mnemonic, "unknown");
    assert_eq!(instrs[0].immediate, "");
    assert_eq!(consumed, 1);
}

#[test]
fn push32_consumes_thirty_two_pairs() {
    let code = format!("7f{}", "ab".repeat(32));
    let (instrs, consumed) = decode(&code);
    assert_eq!(instrs.len(), 1);
    assert_eq!(instrs[0].mnemonic, "PUSH32");
    assert_eq!(instrs[0].immediate, "ab".repeat(32));
    assert_eq!(consumed, 33);
}

#[test]
fn immediate_digits_keep_their_case() {
    let (instrs, _) = decode("60AB");
    assert_eq!(instrs[0].immediate, "AB");
}

#[test]
fn consumed_equals_sum_of_advances() {
    let (instrs, consumed) = decode("6001600201600a00");
    let total: usize = instrs.iter().map(|i| 1 + i.immediate.len() / 2).sum();
    assert_eq!(consumed, total);
    assert!(consumed <= "6001600201600a00".len() / 2);
}

#[test]
fn offsets_strictly_increase() {
    let (instrs, _) = decode("6001600201600a005b");
    for w in instrs.windows(2) {
        assert!(w[0].offset < w[1].offset);
    }
}

#[test]
fn reparsed_offsets_match_decoder() {
    let (instrs, _) = decode("6001600201600a005b7f");
    let listing = format_listing(&instrs);
    let reparsed: Vec<usize> = listing
        .lines()
        .map(|l| l.split(' ').next().unwrap().parse().unwrap())
        .collect();
    let offsets: Vec<usize> = instrs.iter().map(|i| i.offset).collect();
    assert_eq!(reparsed, offsets);
}

#[test]
fn decimal_rendering() {
    assert_eq!(dec_string(0), "0");
    assert_eq!(dec_string(7), "7");
    assert_eq!(dec_string(10), "10");
    assert_eq!(dec_string(12345), "12345");
}

#[test]
fn opcode_table_spot_checks() {
    assert_eq!(opcode_name(0x00), "STOP");
    assert_eq!(opcode_name(0x01), "ADD");
    assert_eq!(opcode_name(0x56), "JUMP");
    assert_eq!(opcode_name(0x5b), "JUMPDEST");
    assert_eq!(opcode_name(0x60), "PUSH1");
    assert_eq!(opcode_name(0x7f), "PUSH32");
    assert_eq!(opcode_name(0x80), "DUP1");
    assert_eq!(opcode_name(0x9f), "SWAP16");
    assert_eq!(opcode_name(0xa4), "LOG4");
    assert_eq!(opcode_name(0xfe), "INVALID");
    assert_eq!(opcode_name(0xff), "SELFDESTRUCT");
    assert_eq!(opcode_name(0x0c), "unknown");
}

#[test]
fn push_operand_lengths() {
    assert_eq!(push_operand_len(0x5f), 0);
    assert_eq!(push_operand_len(0x60), 1);
    assert_eq!(push_operand_len(0x61), 2);
    assert_eq!(push_operand_len(0x7f), 32);
    assert_eq!(push_operand_len(0x80), 0);
    assert_eq!(push_operand_len(0x00), 0);
}
