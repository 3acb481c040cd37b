//! The linear instruction decoder: a single forward pass over the normalized
//! byte sequence that classifies each byte against the opcode table and
//! consumes the variable-length immediate operands of push-class opcodes.

use crate::hex::{all_hex, hex_digit_val, hex_val, valid_bytecode_str};
use crate::opcodes::{is_push, opcode_name, push_operand_len, spec_opcode_name, spec_push_len};
use vstd::prelude::*;
use vstd::string::StrSliceExecFns;
use vstd::string::StringExecFns;

verus! {

/// One decoded instruction: the byte offset of its opcode within the raw
/// bytecode, its mnemonic, and the hex digits of its immediate operand
/// (empty outside the push class).
#[derive(Debug)]
pub struct Instruction {
    pub offset: usize,
    pub mnemonic: String,
    pub immediate: String,
}

/// The mathematical image of an [`Instruction`].
pub ghost struct SpecInstr {
    pub offset: nat,
    pub mnemonic: Seq<char>,
    pub immediate: Seq<char>,
}

impl View for Instruction {
    type V = SpecInstr;

    open spec fn view(&self) -> SpecInstr {
        SpecInstr {
            offset: self.offset as nat,
            mnemonic: self.mnemonic@,
            immediate: self.immediate@,
        }
    }
}

/// The views of a vector of decoded instructions.
pub open spec fn instrs_view(v: Seq<Instruction>) -> Seq<SpecInstr> {
    v.map_values(|i: Instruction| i@)
}

/// The number of byte pairs in a normalized hex string.
pub open spec fn n_pairs(s: Seq<char>) -> nat {
    s.len() / 2
}

/// The value of the byte pair at position `pc`.
pub open spec fn byte_at(s: Seq<char>, pc: int) -> u8 {
    (16 * hex_val(s[2 * pc]) + hex_val(s[2 * pc + 1])) as u8
}

/// The decode relation, from position `pc`: the instructions emitted and the
/// final program counter. Decoding stops at the end of the sequence, or as
/// soon as a push-class opcode declares more operand pairs than remain; the
/// truncated opcode emits no instruction.
pub open spec fn spec_decode(s: Seq<char>, pc: nat) -> (Seq<SpecInstr>, nat)
    decreases n_pairs(s) - pc,
{
    if pc >= n_pairs(s) {
        (Seq::<SpecInstr>::empty(), pc)
    } else {
        let b = byte_at(s, pc as int);
        let n = spec_push_len(b);
        if pc + 1 + n > n_pairs(s) {
            (Seq::<SpecInstr>::empty(), pc)
        } else {
            let ins = SpecInstr {
                offset: pc,
                mnemonic: spec_opcode_name(b),
                immediate: s.subrange(2 * (pc + 1) as int, 2 * (pc + 1 + n) as int),
            };
            let rest = spec_decode(s, (pc + 1 + n) as nat);
            (seq![ins] + rest.0, rest.1)
        }
    }
}

/// Reads the byte pair at position `pc` of the normalized string `s`.
pub fn read_byte(s: &str, pc: usize) -> (b: u8)
    requires
        all_hex(s@),
        s@.len() <= usize::MAX,
        2 * pc + 1 < s@.len(),
    ensures
        b == byte_at(s@, pc as int),
{
    let hi = hex_digit_val(s.get_char(2 * pc));
    let lo = hex_digit_val(s.get_char(2 * pc + 1));
    16 * hi + lo
}

/// Decodes a normalized byte sequence into its ordered instruction sequence
/// and the final program counter: the count of byte pairs consumed.
pub fn decode(bytecode: &str) -> (r: (Vec<Instruction>, usize))
    requires
        valid_bytecode_str(bytecode@),
    ensures
        instrs_view(r.0@) == spec_decode(bytecode@, 0).0,
        r.1 as nat == spec_decode(bytecode@, 0).1,
{
    let n = bytecode.unicode_len();
    let n_pr = n / 2;
    proof {
        assert(2 * n_pairs(bytecode@) == bytecode@.len());
    }
    let mut pc: usize = 0;
    let mut out: Vec<Instruction> = Vec::new();
    let mut done = false;
    while !done && pc < n_pr
        invariant
            valid_bytecode_str(bytecode@),
            n == bytecode@.len(),
            n_pr == n_pairs(bytecode@),
            2 * n_pr == n,
            pc <= n_pr,
            done ==> spec_decode(bytecode@, pc as nat) == (Seq::<SpecInstr>::empty(), pc as nat),
            spec_decode(bytecode@, 0).0 == instrs_view(out@) + spec_decode(bytecode@, pc as nat).0,
            spec_decode(bytecode@, 0).1 == spec_decode(bytecode@, pc as nat).1,
        decreases n_pr - pc, (if done { 0int } else { 1int }),
    {
        let b = read_byte(bytecode, pc);
        let len_imm = push_operand_len(b) as usize;
        if pc + 1 + len_imm > n_pr {
            proof {
                assert(spec_decode(bytecode@, pc as nat) == (Seq::<SpecInstr>::empty(),
                pc as nat));
            }
            done = true;
        } else {
            let imm = bytecode.substring_char(2 * (pc + 1), 2 * (pc + 1 + len_imm));
            let ins = Instruction {
                offset: pc,
                mnemonic: String::from_str(opcode_name(b)),
                immediate: imm.to_owned(),
            };
            proof {
                let s = bytecode@;
                let p = pc as nat;
                let stepped = (p + 1 + spec_push_len(b)) as nat;
                assert(spec_decode(s, p).0 == seq![ins@] + spec_decode(s, stepped).0);
                assert(spec_decode(s, p).1 == spec_decode(s, stepped).1);
                assert(instrs_view(out@.push(ins)) =~= instrs_view(out@).push(ins@));
                assert(instrs_view(out@) + (seq![ins@] + spec_decode(s, stepped).0)
                    =~= instrs_view(out@).push(ins@) + spec_decode(s, stepped).0);
            }
            out.push(ins);
            pc = pc + 1 + len_imm;
        }
    }
    proof {
        assert(spec_decode(bytecode@, pc as nat).0 == Seq::<SpecInstr>::empty());
        assert(instrs_view(out@) + Seq::<SpecInstr>::empty() =~= instrs_view(out@));
        assert(spec_decode(bytecode@, pc as nat).1 == pc as nat);
    }
    (out, pc)
}

/// The sum of the program-counter advances of a decoded sequence: one pair
/// for each opcode byte plus the pairs of its immediate operand.
pub open spec fn sum_advances(l: Seq<SpecInstr>) -> nat
    decreases l.len(),
{
    if l.len() == 0 {
        0
    } else {
        1 + l[0].immediate.len() / 2 + sum_advances(l.skip(1))
    }
}

/// Decoding never consumes more byte pairs than the sequence holds, and the
/// final program counter equals the starting position plus the sum of the
/// per-instruction advances.
pub proof fn lemma_decode_consumption(s: Seq<char>, pc: nat)
    requires
        pc <= n_pairs(s),
    ensures
        pc <= spec_decode(s, pc).1 <= n_pairs(s),
        spec_decode(s, pc).1 == pc + sum_advances(spec_decode(s, pc).0),
    decreases n_pairs(s) - pc,
{
    if pc < n_pairs(s) {
        let b = byte_at(s, pc as int);
        let n = spec_push_len(b);
        if pc + 1 + n <= n_pairs(s) {
            let stepped = (pc + 1 + n) as nat;
            lemma_decode_consumption(s, stepped);
            let ins = spec_decode(s, pc).0[0];
            let rest = spec_decode(s, stepped).0;
            assert(ins.immediate.len() == 2 * n);
            assert((seq![ins] + rest).skip(1) =~= rest);
            assert(sum_advances(spec_decode(s, pc).0) == 1 + n + sum_advances(rest));
        }
    }
}

/// The shape of a decoded sequence: every instruction sits inside the byte
/// sequence, carries the table's mnemonic for its opcode byte together with
/// the operand digits that follow it, and each successor's offset advances by
/// exactly one plus the operand length.
pub proof fn lemma_decode_structure(s: Seq<char>, pc: nat)
    requires
        pc <= n_pairs(s),
    ensures
        forall|j: int|
            0 <= j < spec_decode(s, pc).0.len() ==> {
                let ins = #[trigger] spec_decode(s, pc).0[j];
                &&& pc <= ins.offset < n_pairs(s)
                &&& ins.mnemonic == spec_opcode_name(byte_at(s, ins.offset as int))
                &&& ins.immediate == s.subrange(
                    2 * (ins.offset + 1) as int,
                    2 * (ins.offset + 1 + spec_push_len(byte_at(s, ins.offset as int))) as int,
                )
                &&& ins.immediate.len() == 2 * spec_push_len(byte_at(s, ins.offset as int))
                &&& ins.offset + 1 + spec_push_len(byte_at(s, ins.offset as int)) <= n_pairs(s)
            },
        forall|j: int|
            0 <= j && j + 1 < spec_decode(s, pc).0.len() ==> spec_decode(s, pc).0[j + 1].offset
                == (#[trigger] spec_decode(s, pc).0[j]).offset + 1 + spec_push_len(
                byte_at(s, spec_decode(s, pc).0[j].offset as int),
            ),
        spec_decode(s, pc).0.len() > 0 ==> spec_decode(s, pc).0[0].offset == pc,
    decreases n_pairs(s) - pc,
{
    if pc < n_pairs(s) {
        let b = byte_at(s, pc as int);
        let n = spec_push_len(b);
        if pc + 1 + n <= n_pairs(s) {
            let stepped = (pc + 1 + n) as nat;
            lemma_decode_structure(s, stepped);
            let full = spec_decode(s, pc).0;
            let head = full[0];
            let rest = spec_decode(s, stepped).0;
            assert(head.immediate.len() == 2 * n);
            assert forall|j: int| 1 <= j < full.len() implies #[trigger] full[j] == rest[j
                - 1] by {
                assert((seq![head] + rest)[j] == rest[j - 1]);
            }
            if rest.len() > 0 {
                assert(full[1] == rest[0]);
                assert(rest[0].offset == stepped);
            }
            assert forall|j: int| 0 <= j && j + 1 < full.len() implies full[j + 1].offset == (
            #[trigger] full[j]).offset + 1 + spec_push_len(
                byte_at(s, full[j].offset as int),
            ) by {
                if j == 0 {
                    assert(full[0] == head);
                    assert(full[1] == rest[0]);
                } else {
                    assert(full[j] == rest[j - 1]);
                    assert(full[j + 1] == rest[j]);
                    assert(rest[j].offset == rest[j - 1].offset + 1 + spec_push_len(
                        byte_at(s, rest[j - 1].offset as int),
                    ));
                }
            }
        }
    }
}

/// Offsets are strictly increasing along the decoded sequence.
#[verifier::rlimit(100)]
pub proof fn lemma_offsets_strictly_increasing(s: Seq<char>, pc: nat, j: int, k: int)
    requires
        pc <= n_pairs(s),
        0 <= j < k < spec_decode(s, pc).0.len(),
    ensures
        spec_decode(s, pc).0[j].offset < spec_decode(s, pc).0[k].offset,
    decreases k - j,
{
    lemma_decode_structure(s, pc);
    if j + 1 < k {
        lemma_offsets_strictly_increasing(s, pc, j, k - 1);
        assert(spec_decode(s, pc).0[k - 1].offset < spec_decode(s, pc).0[k].offset);
    } else {
        assert(spec_decode(s, pc).0[j].offset < spec_decode(s, pc).0[j + 1].offset);
    }
}

/// A non-push opcode consumes exactly its own byte: its instruction carries
/// no immediate operand and the program counter advances by exactly one.
pub proof fn lemma_non_push_advance(s: Seq<char>, pc: nat, j: int)
    requires
        pc <= n_pairs(s),
        0 <= j < spec_decode(s, pc).0.len(),
        !is_push(byte_at(s, spec_decode(s, pc).0[j].offset as int)),
    ensures
        spec_decode(s, pc).0[j].immediate.len() == 0,
        j + 1 < spec_decode(s, pc).0.len() ==> spec_decode(s, pc).0[j + 1].offset == spec_decode(
            s,
            pc,
        ).0[j].offset + 1,
{
    lemma_decode_structure(s, pc);
}

/// A push-class opcode whose declared operand length exceeds the remaining
/// pairs emits no instruction: decoding from its position stops there, and
/// the position itself is reported as the bytes consumed.
pub proof fn lemma_truncation_emits_nothing(s: Seq<char>, pc: nat)
    requires
        pc < n_pairs(s),
        pc + 1 + spec_push_len(byte_at(s, pc as int)) > n_pairs(s),
    ensures
        spec_decode(s, pc) == (Seq::<SpecInstr>::empty(), pc),
{
}

} // verus!
