//! Rendering decoded instructions as a textual listing, one instruction per
//! line, and the offset-parsing model behind the round-trip law.

use crate::decode::{
    byte_at, instrs_view, lemma_decode_structure, n_pairs, spec_decode, Instruction, SpecInstr,
};
use crate::hex::{is_hex_digit, newline_free, valid_bytecode_str};
use crate::opcodes::{lemma_opcode_name_newline_free, spec_push_len};
use vstd::arithmetic::div_mod::lemma_fundamental_div_mod;
use vstd::prelude::*;
use vstd::string::StringExecFns;

verus! {

/// `c` is an ASCII decimal digit.
pub open spec fn is_dec_digit(c: char) -> bool {
    '0' as u32 <= c as u32 && c as u32 <= '9' as u32
}

/// The digit character for `d` (`9` for anything above nine).
pub open spec fn digit_char(d: nat) -> char {
    if d == 0 {
        '0'
    } else if d == 1 {
        '1'
    } else if d == 2 {
        '2'
    } else if d == 3 {
        '3'
    } else if d == 4 {
        '4'
    } else if d == 5 {
        '5'
    } else if d == 6 {
        '6'
    } else if d == 7 {
        '7'
    } else if d == 8 {
        '8'
    } else {
        '9'
    }
}

/// The decimal rendering of `n`, most significant digit first.
pub open spec fn dec_digits(n: nat) -> Seq<char>
    decreases n,
{
    if n < 10 {
        seq![digit_char(n)]
    } else {
        dec_digits(n / 10).push(digit_char(n % 10))
    }
}

/// The single-character string for digit `d`.
fn digit_str(d: usize) -> (r: &'static str)
    requires
        d < 10,
    ensures
        r@ == seq![digit_char(d as nat)],
{
    proof {
        reveal_strlit("0");
        reveal_strlit("1");
        reveal_strlit("2");
        reveal_strlit("3");
        reveal_strlit("4");
        reveal_strlit("5");
        reveal_strlit("6");
        reveal_strlit("7");
        reveal_strlit("8");
        reveal_strlit("9");
    }
    let r = if d == 0 {
        "0"
    } else if d == 1 {
        "1"
    } else if d == 2 {
        "2"
    } else if d == 3 {
        "3"
    } else if d == 4 {
        "4"
    } else if d == 5 {
        "5"
    } else if d == 6 {
        "6"
    } else if d == 7 {
        "7"
    } else if d == 8 {
        "8"
    } else {
        "9"
    };
    proof {
        assert(r@ =~= seq![digit_char(d as nat)]);
    }
    r
}

/// Renders `n` in decimal.
pub fn dec_string(n: usize) -> (r: String)
    ensures
        r@ == dec_digits(n as nat),
    decreases n,
{
    if n < 10 {
        String::from_str(digit_str(n))
    } else {
        let mut r = dec_string(n / 10);
        r.append(digit_str(n % 10));
        proof {
            assert(dec_digits((n as nat) / 10).push(digit_char((n as nat) % 10)) =~= dec_digits(
                (n as nat) / 10,
            ) + seq![digit_char((n as nat) % 10)]);
        }
        r
    }
}

/// One rendered line: offset, mnemonic and immediate separated by single
/// spaces, closed by a newline. The immediate column is empty for an
/// instruction without an operand.
pub open spec fn spec_line(i: SpecInstr) -> Seq<char> {
    dec_digits(i.offset) + " "@ + i.mnemonic + " "@ + i.immediate + "\n"@
}

/// The rendered listing: the lines of the instructions, in order.
pub open spec fn spec_listing(l: Seq<SpecInstr>) -> Seq<char>
    decreases l.len(),
{
    if l.len() == 0 {
        Seq::<char>::empty()
    } else {
        spec_line(l[0]) + spec_listing(l.skip(1))
    }
}

/// Appending one instruction appends one line.
pub proof fn lemma_listing_push(l: Seq<SpecInstr>, x: SpecInstr)
    ensures
        spec_listing(l.push(x)) == spec_listing(l) + spec_line(x),
    decreases l.len(),
{
    let lp = l.push(x);
    if l.len() == 0 {
        assert(lp[0] == x);
        assert(lp.skip(1) =~= Seq::<SpecInstr>::empty());
        assert(spec_listing(lp) == spec_line(x) + spec_listing(Seq::<SpecInstr>::empty()));
        assert(spec_line(x) + Seq::<char>::empty() =~= spec_line(x));
        assert(spec_listing(l) + spec_line(x) =~= spec_line(x));
    } else {
        lemma_listing_push(l.skip(1), x);
        assert(lp[0] == l[0]);
        assert(lp.skip(1) =~= l.skip(1).push(x));
        assert(spec_listing(lp) == spec_line(l[0]) + spec_listing(l.skip(1).push(x)));
        assert(spec_line(l[0]) + (spec_listing(l.skip(1)) + spec_line(x)) =~= (spec_line(l[0])
            + spec_listing(l.skip(1))) + spec_line(x));
        assert(spec_listing(l) == spec_line(l[0]) + spec_listing(l.skip(1)));
    }
}

/// Renders the instruction sequence as text, one instruction per line.
pub fn format_listing(instrs: &Vec<Instruction>) -> (r: String)
    ensures
        r@ == spec_listing(instrs_view(instrs@)),
{
    let mut out = String::new();
    let mut i: usize = 0;
    while i < instrs.len()
        invariant
            i <= instrs.len(),
            out@ == spec_listing(instrs_view(instrs@).take(i as int)),
        decreases instrs.len() - i,
    {
        let ins = &instrs[i];
        let off = dec_string(ins.offset);
        out.append(off.as_str());
        out.append(" ");
        out.append(ins.mnemonic.as_str());
        out.append(" ");
        out.append(ins.immediate.as_str());
        out.append("\n");
        proof {
            let iv = instrs_view(instrs@);
            lemma_listing_push(iv.take(i as int), iv[i as int]);
            assert(iv.take(i as int).push(iv[i as int]) =~= iv.take(i as int + 1));
            assert(out@ =~= spec_listing(iv.take(i as int)) + spec_line(iv[i as int]));
        }
        i += 1;
    }
    proof {
        assert(instrs_view(instrs@).take(instrs@.len() as int) =~= instrs_view(instrs@));
    }
    out
}

/// The index of the first newline in `s`, or `s.len()` when there is none.
pub open spec fn find_nl(s: Seq<char>) -> nat
    decreases s.len(),
{
    if s.len() == 0 {
        0
    } else if s[0] == '\n' {
        0
    } else {
        (1 + find_nl(s.skip(1))) as nat
    }
}

/// The run of decimal digits at the front of `s`.
pub open spec fn leading_digits(s: Seq<char>) -> Seq<char>
    decreases s.len(),
{
    if s.len() == 0 || !is_dec_digit(s[0]) {
        Seq::<char>::empty()
    } else {
        seq![s[0]] + leading_digits(s.skip(1))
    }
}

/// The value of a decimal digit string, most significant digit first.
pub open spec fn dec_val(s: Seq<char>) -> nat
    decreases s.len(),
{
    if s.len() == 0 {
        0
    } else {
        dec_val(s.drop_last()) * 10 + (s.last() as u32 - 48) as nat
    }
}

/// The offsets a reader recovers from a rendered listing: for each line, the
/// value of its leading digit run.
pub open spec fn spec_parse_offsets(s: Seq<char>) -> Seq<nat>
    decreases s.len(),
{
    if s.len() == 0 {
        Seq::<nat>::empty()
    } else {
        let k = find_nl(s);
        let line = s.take(k as int);
        let rest = if k < s.len() {
            s.skip(k as int + 1)
        } else {
            Seq::<char>::empty()
        };
        seq![dec_val(leading_digits(line))] + spec_parse_offsets(rest)
    }
}

/// The offsets of a decoded sequence, in order.
pub open spec fn offsets_of(l: Seq<SpecInstr>) -> Seq<nat> {
    l.map_values(|i: SpecInstr| i.offset)
}

/// Decimal renderings are non-empty and consist of digits only.
pub proof fn lemma_dec_digits_are_digits(n: nat)
    ensures
        dec_digits(n).len() >= 1,
        forall|i: int| 0 <= i < dec_digits(n).len() ==> is_dec_digit(#[trigger] dec_digits(n)[i]),
    decreases n,
{
    if n >= 10 {
        lemma_dec_digits_are_digits(n / 10);
        assert forall|i: int| 0 <= i < dec_digits(n).len() implies is_dec_digit(
            #[trigger] dec_digits(n)[i],
        ) by {
            if i < dec_digits(n).len() - 1 {
                assert(dec_digits(n)[i] == dec_digits(n / 10)[i]);
            } else {
                assert(dec_digits(n)[i] == digit_char(n % 10));
            }
        }
    }
}

/// The digit characters carry consecutive character codes.
proof fn lemma_digit_char_val(d: nat)
    requires
        d < 10,
    ensures
        digit_char(d) as u32 == 48 + d,
{
}

/// Parsing a decimal rendering recovers the number.
pub proof fn lemma_dec_val_of_digits(n: nat)
    ensures
        dec_val(dec_digits(n)) == n,
    decreases n,
{
    if n < 10 {
        assert(seq![digit_char(n)].drop_last() =~= Seq::<char>::empty());
        assert(seq![digit_char(n)].last() == digit_char(n));
        lemma_digit_char_val(n);
        assert(dec_digits(n) == seq![digit_char(n)]);
        assert(dec_val(Seq::<char>::empty()) == 0);
        assert(dec_val(dec_digits(n)) == dec_val(dec_digits(n).drop_last()) * 10 + (
        dec_digits(n).last() as u32 - 48) as nat);
    } else {
        lemma_dec_val_of_digits(n / 10);
        assert(dec_digits(n).drop_last() =~= dec_digits(n / 10));
        assert(dec_digits(n).last() == digit_char(n % 10));
        assert(n % 10 < 10) by (nonlinear_arith);
        lemma_digit_char_val(n % 10);
        lemma_fundamental_div_mod(n as int, 10);
    }
}

/// The first newline after a newline-free block stands right after it.
pub proof fn lemma_find_nl_after(a: Seq<char>, b: Seq<char>)
    requires
        newline_free(a),
        b.len() > 0,
        b[0] == '\n',
    ensures
        find_nl(a + b) == a.len(),
    decreases a.len(),
{
    if a.len() == 0 {
        assert(a + b =~= b);
    } else {
        assert forall|i: int| 0 <= i < a.skip(1).len() implies a.skip(1)[i] != '\n' by {
            assert(a.skip(1)[i] == a[i + 1]);
        }
        lemma_find_nl_after(a.skip(1), b);
        assert((a + b)[0] == a[0]);
        assert((a + b).skip(1) =~= a.skip(1) + b);
    }
}

/// The leading digit run of a digit string followed by a non-digit block is
/// the digit string itself.
pub proof fn lemma_leading_digits_of(a: Seq<char>, b: Seq<char>)
    requires
        forall|i: int| 0 <= i < a.len() ==> is_dec_digit(#[trigger] a[i]),
        b.len() > 0,
        !is_dec_digit(b[0]),
    ensures
        leading_digits(a + b) == a,
    decreases a.len(),
{
    if a.len() == 0 {
        assert(a + b =~= b);
        assert(leading_digits(b) =~= a);
    } else {
        assert forall|i: int| 0 <= i < a.skip(1).len() implies is_dec_digit(
            #[trigger] a.skip(1)[i],
        ) by {
            assert(a.skip(1)[i] == a[i + 1]);
        }
        lemma_leading_digits_of(a.skip(1), b);
        assert((a + b)[0] == a[0]);
        assert((a + b).skip(1) =~= a.skip(1) + b);
        assert(seq![a[0]] + a.skip(1) =~= a);
    }
}

/// A line-safe instruction: its mnemonic and its immediate stay on one line.
pub open spec fn line_safe(i: SpecInstr) -> bool {
    newline_free(i.mnemonic) && newline_free(i.immediate)
}

/// Round trip: re-parsing offsets from a rendered listing of line-safe
/// instructions recovers exactly the offsets of those instructions, in the
/// same order.
pub proof fn lemma_format_parse_roundtrip(l: Seq<SpecInstr>)
    requires
        forall|j: int| 0 <= j < l.len() ==> line_safe(#[trigger] l[j]),
    ensures
        spec_parse_offsets(spec_listing(l)) == offsets_of(l),
    decreases l.len(),
{
    reveal_strlit(" ");
    reveal_strlit("\n");
    if l.len() == 0 {
        assert(offsets_of(l) =~= Seq::<nat>::empty());
    } else {
        let x = l[0];
        let line = spec_line(x);
        let rest = spec_listing(l.skip(1));
        let s = line + rest;
        let digits = dec_digits(x.offset);
        let tail = " "@ + x.mnemonic + " "@ + x.immediate;
        let body = digits + tail;
        lemma_dec_digits_are_digits(x.offset);
        assert forall|i: int| 0 <= i < body.len() implies body[i] != '\n' by {
            if i < digits.len() {
                assert(body[i] == digits[i]);
                assert(is_dec_digit(digits[i]));
            } else {
                let t = i - digits.len();
                assert(body[i] == tail[t]);
                if t == 0 {
                    assert(tail[t] == ' ');
                } else if t < 1 + x.mnemonic.len() {
                    assert(tail[t] == x.mnemonic[t - 1]);
                } else if t == 1 + x.mnemonic.len() {
                    assert(tail[t] == ' ');
                } else {
                    assert(tail[t] == x.immediate[t - 2 - x.mnemonic.len()]);
                }
            }
        }
        let nl_rest = "\n"@ + rest;
        assert(nl_rest[0] == '\n');
        assert(line =~= body + "\n"@);
        assert(s =~= body + nl_rest);
        lemma_find_nl_after(body, nl_rest);
        let k = body.len();
        assert(find_nl(s) == k);
        assert(s.len() == k + 1 + rest.len());
        assert(s.take(k as int) =~= body);
        assert(s.skip(k as int + 1) =~= rest);
        assert(!is_dec_digit(' '));
        lemma_leading_digits_of(digits, tail);
        lemma_dec_val_of_digits(x.offset);
        assert forall|j: int| 0 <= j < l.skip(1).len() implies line_safe(
            #[trigger] l.skip(1)[j],
        ) by {
            assert(l.skip(1)[j] == l[j + 1]);
        }
        lemma_format_parse_roundtrip(l.skip(1));
        assert(spec_parse_offsets(s) == seq![x.offset] + offsets_of(l.skip(1)));
        assert(offsets_of(l) =~= seq![x.offset] + offsets_of(l.skip(1)));
    }
}

/// The round trip holds of every decoded sequence: the decoder's mnemonics
/// come from the opcode table and its immediates are hex digits, so its
/// listing is line-safe.
#[verifier::rlimit(100)]
pub proof fn lemma_decoded_listing_roundtrip(s: Seq<char>)
    requires
        valid_bytecode_str(s),
    ensures
        spec_parse_offsets(spec_listing(spec_decode(s, 0).0)) == offsets_of(spec_decode(s, 0).0),
{
    let l = spec_decode(s, 0).0;
    assert forall|j: int| 0 <= j < l.len() implies line_safe(#[trigger] l[j]) by {
        lemma_decode_structure(s, 0);
        let ins = l[j];
        let b = byte_at(s, ins.offset as int);
        lemma_opcode_name_newline_free(b);
        let plen = spec_push_len(b);
        let base = 2 * (ins.offset + 1) as int;
        assert(ins.immediate == s.subrange(base, 2 * (ins.offset + 1 + plen) as int));
        assert(2 * n_pairs(s) <= s.len());
        assert forall|i: int| 0 <= i < ins.immediate.len() implies ins.immediate[i] != '\n' by {
            assert(ins.immediate[i] == s[base + i]);
            assert(is_hex_digit(s[base + i]));
        }
        assert(newline_free(ins.mnemonic));
        assert(newline_free(ins.immediate));
    }
    lemma_format_parse_roundtrip(l);
}

} // verus!
