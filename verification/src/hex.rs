//! Hex-digit predicates and the two target patterns (address-shaped and
//! bytecode-shaped strings), together with prefix handling.

use vstd::prelude::*;
use vstd::string::StrSliceExecFns;
use vstd::string::StringExecFns;

verus! {

/// True when `c` is an ASCII hexadecimal digit.
pub open spec fn is_hex_digit(c: char) -> bool {
    ('0' as u32 <= c as u32 && c as u32 <= '9' as u32)
        || ('a' as u32 <= c as u32 && c as u32 <= 'f' as u32)
        || ('A' as u32 <= c as u32 && c as u32 <= 'F' as u32)
}

/// Every character of `s` is a hex digit.
pub open spec fn all_hex(s: Seq<char>) -> bool {
    forall|i: int| 0 <= i < s.len() ==> is_hex_digit(#[trigger] s[i])
}

/// `s` starts with the two characters `0x`.
pub open spec fn has_hex_prefix(s: Seq<char>) -> bool {
    s.len() >= 2 && s[0] == '0' && s[1] == 'x'
}

/// `s` with a leading `0x` removed, when one is present.
pub open spec fn hex_body(s: Seq<char>) -> Seq<char> {
    if has_hex_prefix(s) {
        s.skip(2)
    } else {
        s
    }
}

/// The address pattern: an optional `0x` prefix followed by exactly 40 hex
/// digits.
pub open spec fn is_address_str(s: Seq<char>) -> bool {
    hex_body(s).len() == 40 && all_hex(hex_body(s))
}

/// The bytecode shape: an optional `0x` prefix followed by hex digits only.
pub open spec fn matches_bytecode_shape(s: Seq<char>) -> bool {
    all_hex(hex_body(s))
}

/// The literal-bytecode pattern: bytecode-shaped, with an even number of hex
/// digits, so that the digits form whole byte pairs.
pub open spec fn is_literal_bytecode(s: Seq<char>) -> bool {
    matches_bytecode_shape(s) && hex_body(s).len() % 2 == 0
}

/// `s` stays on one line: it holds no newline character.
pub open spec fn newline_free(s: Seq<char>) -> bool {
    forall|i: int| 0 <= i < s.len() ==> s[i] != '\n'
}

/// A normalized byte sequence: hex digits only, in whole pairs, no prefix.
pub open spec fn valid_bytecode_str(s: Seq<char>) -> bool {
    all_hex(s) && s.len() % 2 == 0
}

/// `s` with the first occurrence of the two-character marker `0x` removed,
/// wherever it stands; later occurrences are kept. Strings without the marker
/// come back unchanged.
pub open spec fn strip_first_0x(s: Seq<char>) -> Seq<char>
    decreases s.len(),
{
    if s.len() < 2 {
        s
    } else if s[0] == '0' && s[1] == 'x' {
        s.skip(2)
    } else {
        seq![s[0]] + strip_first_0x(s.skip(1))
    }
}

/// A string without the `0x` marker is left unchanged by the strip.
pub proof fn lemma_strip_no_occurrence(s: Seq<char>)
    requires
        forall|k: int| 0 <= k && k + 1 < s.len() ==> !(#[trigger] s[k] == '0' && s[k + 1] == 'x'),
    ensures
        strip_first_0x(s) == s,
    decreases s.len(),
{
    if s.len() >= 2 {
        assert(!(s[0] == '0' && s[1] == 'x'));
        assert forall|k: int| 0 <= k && k + 1 < s.skip(1).len() implies !(#[trigger] s.skip(1)[k] == '0'
            && s.skip(1)[k + 1] == 'x') by {
            assert(s.skip(1)[k] == s[k + 1]);
            assert(s.skip(1)[k + 1] == s[k + 2]);
        }
        lemma_strip_no_occurrence(s.skip(1));
        assert(seq![s[0]] + s.skip(1) =~= s);
    }
}

/// When the first `0x` marker stands at index `i`, the strip removes exactly
/// the two characters at `i` and `i + 1`.
pub proof fn lemma_strip_at(s: Seq<char>, i: int)
    requires
        0 <= i,
        i + 1 < s.len(),
        forall|k: int| 0 <= k < i ==> !(#[trigger] s[k] == '0' && s[k + 1] == 'x'),
        s[i] == '0',
        s[i + 1] == 'x',
    ensures
        strip_first_0x(s) == s.take(i) + s.skip(i + 2),
    decreases i,
{
    if i == 0 {
        assert(s.take(0) + s.skip(2) =~= s.skip(2));
    } else {
        assert(!(s[0] == '0' && s[1] == 'x'));
        assert forall|k: int| 0 <= k < i - 1 implies !(#[trigger] s.skip(1)[k] == '0' && s.skip(1)[k + 1]
            == 'x') by {
            assert(s.skip(1)[k] == s[k + 1]);
            assert(s.skip(1)[k + 1] == s[k + 2]);
        }
        assert(s.skip(1)[i - 1] == s[i]);
        assert(s.skip(1)[i] == s[i + 1]);
        lemma_strip_at(s.skip(1), i - 1);
        assert(seq![s[0]] + (s.skip(1).take(i - 1) + s.skip(1).skip(i + 1)) =~= s.take(i) + s.skip(
            i + 2,
        ));
    }
}

/// On a bytecode-shaped string the general strip agrees with removing the
/// optional leading prefix: hex digits cannot hold a later marker.
pub proof fn lemma_strip_on_shaped(s: Seq<char>)
    requires
        matches_bytecode_shape(s),
    ensures
        strip_first_0x(s) == hex_body(s),
{
    if has_hex_prefix(s) {
    } else {
        assert forall|k: int| 0 <= k && k + 1 < s.len() implies !(#[trigger] s[k] == '0' && s[k + 1]
            == 'x') by {
            if s[k] == '0' && s[k + 1] == 'x' {
                assert(is_hex_digit(s[k + 1]));
                assert('x' as u32 == 120);
            }
        }
        lemma_strip_no_occurrence(s);
    }
}

/// The numeric value of the hex digit `c` (0 for other characters).
pub open spec fn hex_val(c: char) -> nat {
    if '0' as u32 <= c as u32 && c as u32 <= '9' as u32 {
        (c as u32 - 48) as nat
    } else if 'a' as u32 <= c as u32 && c as u32 <= 'f' as u32 {
        (c as u32 - 87) as nat
    } else if 'A' as u32 <= c as u32 && c as u32 <= 'F' as u32 {
        (c as u32 - 55) as nat
    } else {
        0
    }
}

/// Computes the numeric value of the hex digit `c`.
pub fn hex_digit_val(c: char) -> (v: u8)
    requires
        is_hex_digit(c),
    ensures
        v as nat == hex_val(c),
        v <= 15,
{
    let n = c as u32;
    if n <= 57 {
        (n - 48) as u8
    } else if n >= 97 {
        (n - 87) as u8
    } else {
        (n - 55) as u8
    }
}

/// Executable check for a single hex digit.
pub fn hex_digit(c: char) -> (r: bool)
    ensures
        r == is_hex_digit(c),
{
    let n = c as u32;
    (48 <= n && n <= 57) || (97 <= n && n <= 102) || (65 <= n && n <= 70)
}

/// Every character of `s` in the index range `[from, to)` is a hex digit.
pub fn all_hex_range(s: &str, from: usize, to: usize) -> (r: bool)
    requires
        from <= to,
        to <= s@.len(),
    ensures
        r == all_hex(s@.subrange(from as int, to as int)),
{
    let ghost sub = s@.subrange(from as int, to as int);
    let mut i: usize = from;
    while i < to
        invariant
            from <= i <= to,
            to <= s@.len(),
            sub == s@.subrange(from as int, to as int),
            forall|k: int| from <= k < i ==> is_hex_digit(#[trigger] s@[k]),
        decreases to - i,
    {
        if !hex_digit(s.get_char(i)) {
            proof {
                assert(sub[i - from] == s@[i as int]);
            }
            return false;
        }
        i += 1;
    }
    proof {
        assert forall|j: int| 0 <= j < sub.len() implies is_hex_digit(#[trigger] sub[j]) by {
            assert(sub[j] == s@[from + j]);
        }
    }
    true
}

/// Executable check of the normalized-bytecode invariant: hex digits only, in
/// whole pairs.
pub fn is_valid_bytecode(s: &str) -> (r: bool)
    ensures
        r == valid_bytecode_str(s@),
{
    let n = s.unicode_len();
    let hexok = all_hex_range(s, 0, n);
    proof {
        assert(s@.subrange(0, n as int) =~= s@);
    }
    hexok && n % 2 == 0
}

/// The index of the first `0x` marker in `s`, when there is one.
pub fn find_0x(s: &str) -> (r: Option<usize>)
    ensures
        match r {
            Some(i) => i + 1 < s@.len() && s@[i as int] == '0' && s@[i as int + 1] == 'x'
                && forall|k: int| 0 <= k < i ==> !(#[trigger] s@[k] == '0' && s@[k + 1] == 'x'),
            None => forall|k: int|
                0 <= k && k + 1 < s@.len() ==> !(#[trigger] s@[k] == '0' && s@[k + 1] == 'x'),
        },
{
    let n = s.unicode_len();
    let mut i: usize = 0;
    while n >= 1 && i < n - 1
        invariant
            i <= n || n == 0,
            n == s@.len(),
            forall|k: int| 0 <= k < i ==> !(#[trigger] s@[k] == '0' && s@[k + 1] == 'x'),
        decreases n - i,
    {
        if s.get_char(i) == '0' && s.get_char(i + 1) == 'x' {
            return Some(i);
        }
        i += 1;
    }
    None
}

/// Removes the first `0x` marker from `s`, as [`strip_first_0x`] describes.
pub fn strip_first_hex_marker(s: &str) -> (r: String)
    ensures
        r@ == strip_first_0x(s@),
{
    let n = s.unicode_len();
    match find_0x(s) {
        Some(i) => {
            let front = s.substring_char(0, i);
            let back = s.substring_char(i + 2, n);
            proof {
                lemma_strip_at(s@, i as int);
                assert(s@.subrange(0, i as int) =~= s@.take(i as int));
                assert(s@.subrange(i as int + 2, n as int) =~= s@.skip(i as int + 2));
            }
            front.to_owned().concat(back)
        },
        None => {
            proof {
                lemma_strip_no_occurrence(s@);
            }
            s.to_owned()
        },
    }
}

} // verus!
