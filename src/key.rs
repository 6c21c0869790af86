//! The key scheme: one cache key per (player, UTC date).

use crate::calendar::CivilDate;
use vstd::arithmetic::div_mod::{lemma_basic_div, lemma_div_denominator, lemma_fundamental_div_mod};
use vstd::arithmetic::power2::{lemma2_to64, lemma_pow2_adds, lemma_pow2_pos, pow2};
use vstd::prelude::*;
use vstd::string::StringExecFns;

verus! {

/// A player's identifier: the 128 bits of the UUID that the identity service hands out.
#[derive(Clone, Copy, Debug, PartialEq, Eq, Structural)]
pub struct PlayerId {
    pub id: u128,
}

/// The decimal digit for `n` (0 to 9).
pub open spec fn digit_char(n: int) -> char {
    if n == 0 {
        '0'
    } else if n == 1 {
        '1'
    } else if n == 2 {
        '2'
    } else if n == 3 {
        '3'
    } else if n == 4 {
        '4'
    } else if n == 5 {
        '5'
    } else if n == 6 {
        '6'
    } else if n == 7 {
        '7'
    } else if n == 8 {
        '8'
    } else {
        '9'
    }
}

/// The lowercase hexadecimal digit for `n` (0 to 15).
pub open spec fn hex_char(n: int) -> char {
    if n < 10 {
        digit_char(n)
    } else if n == 10 {
        'a'
    } else if n == 11 {
        'b'
    } else if n == 12 {
        'c'
    } else if n == 13 {
        'd'
    } else if n == 14 {
        'e'
    } else {
        'f'
    }
}

/// `YYYY-MM-DD`, each part zero-padded.
pub open spec fn date_chars(d: CivilDate) -> Seq<char> {
    let y = d.year as int;
    let m = d.month as int;
    let dd = d.day as int;
    seq![
        digit_char(y / 1000),
        digit_char((y / 100) % 10),
        digit_char((y / 10) % 10),
        digit_char(y % 10),
        '-',
        digit_char(m / 10),
        digit_char(m % 10),
        '-',
        digit_char(dd / 10),
        digit_char(dd % 10),
    ]
}

/// The `k`-th hexadecimal digit (0 to 31) of `v`, most significant first.
pub open spec fn nibble(v: u128, k: int) -> int {
    (v as int / pow2((4 * (31 - k)) as nat) as int) % 16
}

/// The hyphenated lowercase form of a UUID, 8-4-4-4-12 hexadecimal digits.
pub open spec fn hyphenated(v: u128) -> Seq<char> {
    Seq::new(
        36,
        |i: int|
            if i == 8 || i == 13 || i == 18 || i == 23 {
                '-'
            } else {
                hex_char(
                    nibble(
                        v,
                        if i < 8 {
                            i
                        } else if i < 13 {
                            i - 1
                        } else if i < 18 {
                            i - 2
                        } else if i < 23 {
                            i - 3
                        } else {
                            i - 4
                        },
                    ),
                )
            },
    )
}

pub open spec fn key_prefix() -> Seq<char> {
    seq!['d', 'a', 'i', 'l', 'y', '_', 'b', 'o', 'n', 'u', 's', '_', 'c', 'l', 'a', 'i', 'm', 'e', 'd', ':']
}

/// `daily_bonus_claimed:<player id>:<YYYY-MM-DD>`.
pub open spec fn key_chars(player: PlayerId, d: CivilDate) -> Seq<char> {
    key_prefix() + hyphenated(player.id) + seq![':'] + date_chars(d)
}

proof fn lemma_digit_char_injective(a: int, b: int)
    requires
        0 <= a < 10,
        0 <= b < 10,
        digit_char(a) == digit_char(b),
    ensures
        a == b,
{
}

/// Two well-formed dates with the same text are the same date.
pub proof fn lemma_date_chars_injective(d: CivilDate, e: CivilDate)
    requires
        d.wf(),
        e.wf(),
        date_chars(d) == date_chars(e),
    ensures
        d == e,
{
    let (dy, ey) = (d.year as int, e.year as int);
    let (dm, em) = (d.month as int, e.month as int);
    let (dd, ed) = (d.day as int, e.day as int);
    assert(date_chars(d)[0] == date_chars(e)[0]);
    assert(date_chars(d)[1] == date_chars(e)[1]);
    assert(date_chars(d)[2] == date_chars(e)[2]);
    assert(date_chars(d)[3] == date_chars(e)[3]);
    assert(date_chars(d)[5] == date_chars(e)[5]);
    assert(date_chars(d)[6] == date_chars(e)[6]);
    assert(date_chars(d)[8] == date_chars(e)[8]);
    assert(date_chars(d)[9] == date_chars(e)[9]);
    lemma_digit_char_injective(dy / 1000, ey / 1000);
    lemma_digit_char_injective((dy / 100) % 10, (ey / 100) % 10);
    lemma_digit_char_injective((dy / 10) % 10, (ey / 10) % 10);
    lemma_digit_char_injective(dy % 10, ey % 10);
    lemma_digit_char_injective(dm / 10, em / 10);
    lemma_digit_char_injective(dm % 10, em % 10);
    lemma_digit_char_injective(dd / 10, ed / 10);
    lemma_digit_char_injective(dd % 10, ed % 10);
    assert(dy == ey) by (nonlinear_arith)
        requires
            0 <= dy <= 9999,
            0 <= ey <= 9999,
            dy / 1000 == ey / 1000,
            (dy / 100) % 10 == (ey / 100) % 10,
            (dy / 10) % 10 == (ey / 10) % 10,
            dy % 10 == ey % 10,
    ;
    assert(dm == em) by (nonlinear_arith)
        requires
            dm / 10 == em / 10,
            dm % 10 == em % 10,
    ;
    assert(dd == ed) by (nonlinear_arith)
        requires
            dd / 10 == ed / 10,
            dd % 10 == ed % 10,
    ;
}

proof fn lemma_hex_char_injective(a: int, b: int)
    requires
        0 <= a < 16,
        0 <= b < 16,
        hex_char(a) == hex_char(b),
    ensures
        a == b,
{
}

/// `v` shifted right by `j` hexadecimal digits.
spec fn shifted(v: u128, j: nat) -> int {
    v as int / pow2(4 * j) as int
}

proof fn lemma_shifted_step(v: u128, j: nat)
    ensures
        shifted(v, j) == 16 * shifted(v, j + 1) + shifted(v, j) % 16,
        shifted(v, j) % 16 == nibble(v, 31 - j) || j > 31,
{
    lemma_pow2_pos(4 * j);
    lemma_pow2_adds(4 * j, 4);
    lemma2_to64();
    assert(4 * (j + 1) == 4 * j + 4);
    lemma_div_denominator(v as int, pow2(4 * j) as int, 16);
    lemma_fundamental_div_mod(shifted(v, j), 16);
    if j <= 31 {
        assert(4 * (31 - (31 - j)) == 4 * j);
    }
}

proof fn lemma_shifted_top(v: u128)
    ensures
        shifted(v, 32) == 0,
{
    lemma2_to64();
    lemma_pow2_adds(64, 64);
    assert(pow2(128) == 0x1_0000_0000_0000_0000_0000_0000_0000_0000);
    lemma_basic_div(v as int, pow2(128) as int);
}

proof fn lemma_equal_digits_equal_shift(a: u128, b: u128, j: nat)
    requires
        j <= 32,
        forall|k: int| 0 <= k < 32 ==> nibble(a, k) == nibble(b, k),
    ensures
        shifted(a, j) == shifted(b, j),
    decreases 32 - j,
{
    if j == 32 {
        lemma_shifted_top(a);
        lemma_shifted_top(b);
    } else {
        lemma_equal_digits_equal_shift(a, b, j + 1);
        lemma_shifted_step(a, j);
        lemma_shifted_step(b, j);
        assert(nibble(a, 31 - j) == nibble(b, 31 - j));
    }
}

/// Two identifiers with the same hyphenated text are the same identifier.
pub proof fn lemma_hyphenated_injective(a: u128, b: u128)
    requires
        hyphenated(a) == hyphenated(b),
    ensures
        a == b,
{
    assert forall|k: int| 0 <= k < 32 implies nibble(a, k) == nibble(b, k) by {
        let i = if k < 8 {
            k
        } else if k < 12 {
            k + 1
        } else if k < 16 {
            k + 2
        } else if k < 20 {
            k + 3
        } else {
            k + 4
        };
        assert(hyphenated(a)[i] == hex_char(nibble(a, k)));
        assert(hyphenated(b)[i] == hex_char(nibble(b, k)));
        lemma_pow2_pos((4 * (31 - k)) as nat);
        lemma_hex_char_injective(nibble(a, k), nibble(b, k));
    };
    lemma_equal_digits_equal_shift(a, b, 0);
    lemma2_to64();
    assert(pow2(4 * 0nat) == 1);
    assert(shifted(a, 0) == a as int);
    assert(shifted(b, 0) == b as int);
}

/// Distinct (player, date) pairs have distinct keys.
pub proof fn lemma_keys_collision_free(p: PlayerId, d: CivilDate, q: PlayerId, e: CivilDate)
    requires
        d.wf(),
        e.wf(),
        key_chars(p, d) == key_chars(q, e),
    ensures
        p == q,
        d == e,
{
    let kd = key_chars(p, d);
    let ke = key_chars(q, e);
    assert(kd.subrange(20, 56) =~= hyphenated(p.id));
    assert(ke.subrange(20, 56) =~= hyphenated(q.id));
    lemma_hyphenated_injective(p.id, q.id);
    assert(kd.subrange(57, 67) =~= date_chars(d));
    assert(ke.subrange(57, 67) =~= date_chars(e));
    lemma_date_chars_injective(d, e);
}

fn digit_str(n: u32) -> (r: &'static str)
    requires
        n < 10,
    ensures
        r@ == seq![digit_char(n as int)],
{
    if n == 0 {
        proof { reveal_strlit("0"); }
        "0"
    } else if n == 1 {
        proof { reveal_strlit("1"); }
        "1"
    } else if n == 2 {
        proof { reveal_strlit("2"); }
        "2"
    } else if n == 3 {
        proof { reveal_strlit("3"); }
        "3"
    } else if n == 4 {
        proof { reveal_strlit("4"); }
        "4"
    } else if n == 5 {
        proof { reveal_strlit("5"); }
        "5"
    } else if n == 6 {
        proof { reveal_strlit("6"); }
        "6"
    } else if n == 7 {
        proof { reveal_strlit("7"); }
        "7"
    } else if n == 8 {
        proof { reveal_strlit("8"); }
        "8"
    } else {
        proof { reveal_strlit("9"); }
        "9"
    }
}

/// The date's text in the key, `YYYY-MM-DD`.
pub fn date_text(d: &CivilDate) -> (r: String)
    requires
        d.wf(),
    ensures
        r@ == date_chars(*d),
{
    let y = d.year as u32;
    let m = d.month;
    let dd = d.day;
    let mut s = String::new();
    s.append(digit_str(y / 1000));
    s.append(digit_str((y / 100) % 10));
    s.append(digit_str((y / 10) % 10));
    s.append(digit_str(y % 10));
    proof { reveal_strlit("-"); }
    s.append("-");
    s.append(digit_str(m / 10));
    s.append(digit_str(m % 10));
    s.append("-");
    s.append(digit_str(dd / 10));
    s.append(digit_str(dd % 10));
    assert(s@ =~= date_chars(*d));
    s
}

/// Relies on uuid's `Uuid::from_u128` (the UUID with these 128 bits, most significant byte
/// first) and `Uuid::hyphenated` with `to_string`: its lowercase 8-4-4-4-12 hexadecimal form.
#[verifier::external_body]
fn uuid_text(id: u128) -> (r: String)
    ensures
        r@ == hyphenated(id),
{
    uuid::Uuid::from_u128(id).hyphenated().to_string()
}

/// The cache key of `player`'s claim record for date `d`.
pub fn derive_key(player: &PlayerId, d: &CivilDate) -> (r: String)
    requires
        d.wf(),
    ensures
        r@ == key_chars(*player, *d),
{
    proof { reveal_strlit("daily_bonus_claimed:"); reveal_strlit(":"); }
    let mut s = String::from_str("daily_bonus_claimed:");
    let id = uuid_text(player.id);
    s.append(id.as_str());
    s.append(":");
    let date = date_text(d);
    s.append(date.as_str());
    assert(s@ =~= key_chars(*player, *d));
    s
}

} // verus!
