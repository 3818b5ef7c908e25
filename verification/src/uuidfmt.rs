//! The canonical hyphenated text form of a row key: the store hands the
//! application a 128-bit UUID, the application works with its lower-case
//! hyphenated string.  This module states that form exactly, converts to it
//! through the `uuid` crate, and validates strings that claim to be in it.

use vstd::prelude::*;
use vstd::arithmetic::div_mod::lemma_mod_breakdown;
use vstd::arithmetic::div_mod::lemma_small_mod;
use vstd::string::StrSliceExecFns;

verus! {

/// The lower-case hexadecimal digit character for `d`, for `0 <= d < 16`.
pub open spec fn hex_char(d: int) -> char {
    if d == 0 {
        '0'
    } else if d == 1 {
        '1'
    } else if d == 2 {
        '2'
    } else if d == 3 {
        '3'
    } else if d == 4 {
        '4'
    } else if d == 5 {
        '5'
    } else if d == 6 {
        '6'
    } else if d == 7 {
        '7'
    } else if d == 8 {
        '8'
    } else if d == 9 {
        '9'
    } else if d == 10 {
        'a'
    } else if d == 11 {
        'b'
    } else if d == 12 {
        'c'
    } else if d == 13 {
        'd'
    } else if d == 14 {
        'e'
    } else {
        'f'
    }
}

/// `16^k`.
pub open spec fn pow16(k: nat) -> nat
    decreases k,
{
    if k == 0 {
        1
    } else {
        16 * pow16((k - 1) as nat)
    }
}

/// The `i`-th hexadecimal digit of `n`, counting from the most significant
/// of its 32 nibbles (`0 <= i < 32`).
pub open spec fn uuid_nibble(n: u128, i: int) -> int {
    (((n as nat) / pow16((31 - i) as nat)) % 16) as int
}

/// The positions of the four hyphens in the canonical 36-character form.
pub open spec fn is_dash_pos(i: int) -> bool {
    i == 8 || i == 13 || i == 18 || i == 23
}

/// How many hyphens precede position `i` of the canonical form.
pub open spec fn dashes_before(i: int) -> int {
    if i < 8 {
        0
    } else if i < 13 {
        1
    } else if i < 18 {
        2
    } else if i < 23 {
        3
    } else {
        4
    }
}

/// Character at position `i` of the canonical hyphenated form of `n`.
pub open spec fn uuid_char_at(n: u128, i: int) -> char {
    if is_dash_pos(i) {
        '-'
    } else {
        hex_char(uuid_nibble(n, i - dashes_before(i)))
    }
}

/// The canonical hyphenated text of a 128-bit UUID value: 32 lower-case
/// hexadecimal digits, most significant first, with hyphens after the 8th,
/// 12th, 16th and 20th digits.
pub open spec fn uuid_seq(n: u128) -> Seq<char> {
    Seq::new(36, |i: int| uuid_char_at(n, i))
}

/// A lower-case hexadecimal digit character.
pub open spec fn is_hex_lower(c: char) -> bool {
    (48 <= c as int && c as int <= 57) || (97 <= c as int && c as int <= 102)
}

/// A well-formed row key string: exactly the shape of `uuid_seq` output.
pub open spec fn is_uuid_seq(s: Seq<char>) -> bool {
    &&& s.len() == 36
    &&& forall|i: int| 0 <= i < 36 && is_dash_pos(i) ==> #[trigger] s[i] == '-'
    &&& forall|i: int| 0 <= i < 36 && !is_dash_pos(i) ==> is_hex_lower(#[trigger] s[i])
}

/// Relies on `uuid::Uuid::from_u128` and the `Display` form of
/// `Uuid::hyphenated`: the value's sixteen big-endian bytes rendered as
/// lower-case hexadecimal with hyphens after the 8th, 12th, 16th and 20th
/// digits, which is exactly `uuid_seq(n)`.
#[verifier::external_body]
pub(crate) fn uuid_string(n: u128) -> (r: String)
    ensures
        r@ == uuid_seq(n),
{
    uuid::Uuid::from_u128(n).hyphenated().to_string()
}

/// Every canonical UUID text is a well-formed row key string.
pub proof fn lemma_uuid_seq_wf(n: u128)
    ensures
        is_uuid_seq(uuid_seq(n)),
{
    assert forall|i: int| 0 <= i < 36 && is_dash_pos(i) implies #[trigger] uuid_seq(n)[i]
        == '-' by {}
    assert forall|i: int| 0 <= i < 36 && !is_dash_pos(i) implies is_hex_lower(
        #[trigger] uuid_seq(n)[i],
    ) by {
        let d = uuid_nibble(n, i - dashes_before(i));
        assert(0 <= d < 16);
        assert(is_hex_lower(hex_char(d)));
    }
}

/// `16^k` is positive.
proof fn lemma_pow16_pos(k: nat)
    ensures
        pow16(k) >= 1,
    decreases k,
{
    if k > 0 {
        lemma_pow16_pos((k - 1) as nat);
    }
}

/// `16^32` written out: one more nibble than a 128-bit value can hold.
proof fn lemma_pow16_32()
    ensures
        pow16(32) == 0x100000000000000000000000000000000nat,
{
    reveal_with_fuel(pow16, 33);
}

/// Two values whose low `m` nibbles agree, agree modulo `16^m`.
proof fn lemma_nibbles_mod(a: nat, b: nat, m: nat)
    requires
        forall|k: int|
            0 <= k < m ==> #[trigger] ((a / pow16(k as nat)) % 16) == (b / pow16(k as nat)) % 16,
    ensures
        a % pow16(m) == b % pow16(m),
    decreases m,
{
    if m == 0 {
        assert(pow16(0) == 1);
        assert(a % 1 == 0);
        assert(b % 1 == 0);
    } else {
        let p = pow16((m - 1) as nat);
        lemma_pow16_pos((m - 1) as nat);
        lemma_nibbles_mod(a, b, (m - 1) as nat);
        lemma_mod_breakdown(a as int, p as int, 16);
        lemma_mod_breakdown(b as int, p as int, 16);
        assert(pow16(m) == 16 * p);
        assert((a / p) % 16 == (b / p) % 16);
    }
}

/// Law: the canonical text determines the key.  Distinct 128-bit values
/// have distinct canonical hyphenated texts, so ids never collide unless
/// their keys do.
pub proof fn lemma_uuid_seq_injective(a: u128, b: u128)
    requires
        uuid_seq(a) == uuid_seq(b),
    ensures
        a == b,
{
    assert forall|k: int| 0 <= k < 32 implies #[trigger] (((a as nat) / pow16(k as nat)) % 16) == (
    (b as nat) / pow16(k as nat)) % 16 by {
        let j = 31 - k;
        let p = if j < 8 {
            j
        } else if j < 12 {
            j + 1
        } else if j < 16 {
            j + 2
        } else if j < 20 {
            j + 3
        } else {
            j + 4
        };
        assert(!is_dash_pos(p) && 0 <= p < 36 && p - dashes_before(p) == j);
        assert(uuid_seq(a)[p] == uuid_char_at(a, p));
        assert(uuid_seq(b)[p] == uuid_char_at(b, p));
        assert(uuid_char_at(a, p) == hex_char(uuid_nibble(a, j)));
        assert(uuid_char_at(b, p) == hex_char(uuid_nibble(b, j)));
        assert(uuid_seq(a)[p] == uuid_seq(b)[p]);
        assert(hex_char(uuid_nibble(a, j)) == hex_char(uuid_nibble(b, j)));
        assert(0 <= uuid_nibble(a, j) < 16);
        assert(0 <= uuid_nibble(b, j) < 16);
        assert(uuid_nibble(a, j) == uuid_nibble(b, j));
    }
    lemma_nibbles_mod(a as nat, b as nat, 32);
    lemma_pow16_32();
    lemma_small_mod(a as nat, pow16(32));
    lemma_small_mod(b as nat, pow16(32));
}

/// Whether `s` is a well-formed row key string.  The delete and update
/// handlers interpolate the id into query text unquoted, so they accept
/// only strings of this exact shape.
pub fn is_uuid(s: &str) -> (r: bool)
    ensures
        r == is_uuid_seq(s@),
{
    let len = s.unicode_len();
    if len != 36 {
        return false;
    }
    let mut i: usize = 0;
    while i < 36
        invariant
            0 <= i <= 36,
            s@.len() == 36,
            forall|j: int| 0 <= j < i && is_dash_pos(j) ==> #[trigger] s@[j] == '-',
            forall|j: int| 0 <= j < i && !is_dash_pos(j) ==> is_hex_lower(#[trigger] s@[j]),
        decreases 36 - i,
    {
        let c = s.get_char(i);
        if i == 8 || i == 13 || i == 18 || i == 23 {
            if c != '-' {
                return false;
            }
        } else {
            let v = c as u32;
            let hex = (48 <= v && v <= 57) || (97 <= v && v <= 102);
            if !hex {
                return false;
            }
        }
        i += 1;
    }
    true
}

} // verus!
