//! Locale-independent decimal rendering of unsigned integers.
//!
//! Every numeric option value handed to the engine is rendered through
//! [`dec_u64`], whose output is pinned exactly by the spec function
//! [`dec_str`]: most-significant digit first, no sign, no separators,
//! no leading zeros (except for the value zero itself).

use vstd::prelude::*;

verus! {

/// The decimal digit character for a value below ten.
pub open spec fn dec_digit(n: nat) -> char {
    if n == 0 {
        '0'
    } else if n == 1 {
        '1'
    } else if n == 2 {
        '2'
    } else if n == 3 {
        '3'
    } else if n == 4 {
        '4'
    } else if n == 5 {
        '5'
    } else if n == 6 {
        '6'
    } else if n == 7 {
        '7'
    } else if n == 8 {
        '8'
    } else {
        '9'
    }
}

/// The decimal representation of `n`, most-significant digit first.
pub open spec fn dec_str(n: nat) -> Seq<char>
    decreases n,
{
    if n < 10 {
        seq![dec_digit(n)]
    } else {
        dec_str(n / 10) + seq![dec_digit(n % 10)]
    }
}

/// The rendering is a plain decimal numeral: at least one character, every
/// character a digit, and no leading zero except for the value zero
/// itself — no sign, no separators, no padding.
pub proof fn lemma_dec_str_well_formed(n: nat)
    ensures
        dec_str(n).len() >= 1,
        forall|i: int| 0 <= i < dec_str(n).len() ==> '0' <= #[trigger] dec_str(n)[i] <= '9',
        n > 0 ==> dec_str(n)[0] != '0',
        n == 0 ==> dec_str(n) == seq!['0'],
    decreases n,
{
    if n < 10 {
        assert(dec_str(n) =~= seq![dec_digit(n)]);
    } else {
        lemma_dec_str_well_formed(n / 10);
        assert forall|i: int| 0 <= i < dec_str(n).len() implies '0' <= #[trigger] dec_str(n)[i]
            <= '9' by {
            if i < dec_str(n / 10).len() {
                assert(dec_str(n)[i] == dec_str(n / 10)[i]);
            } else {
                assert(dec_str(n)[i] == dec_digit(n % 10));
            }
        }
        assert(dec_str(n)[0] == dec_str(n / 10)[0]);
    }
}

/// The decimal renderings of the default values used across the
/// operations, written out.
pub proof fn lemma_dec_str_values()
    ensures
        dec_str(0) == seq!['0'],
        dec_str(1) == seq!['1'],
        dec_str(2) == seq!['2'],
        dec_str(4) == seq!['4'],
        dec_str(5) == seq!['5'],
        dec_str(12) == seq!['1', '2'],
        dec_str(20) == seq!['2', '0'],
        dec_str(100) == seq!['1', '0', '0'],
        dec_str(1000) == seq!['1', '0', '0', '0'],
        dec_str(2000) == seq!['2', '0', '0', '0'],
{
    assert(dec_str(0) =~= seq!['0']);
    assert(dec_str(1) =~= seq!['1']);
    assert(dec_str(2) =~= seq!['2']);
    assert(dec_str(4) =~= seq!['4']);
    assert(dec_str(5) =~= seq!['5']);
    assert(dec_str(10) =~= seq!['1', '0']);
    assert(dec_str(12) =~= seq!['1', '2']);
    assert(dec_str(20) =~= seq!['2', '0']);
    assert(dec_str(100) =~= seq!['1', '0', '0']);
    assert(dec_str(200) =~= seq!['2', '0', '0']);
    assert(dec_str(1000) =~= seq!['1', '0', '0', '0']);
    assert(dec_str(2000) =~= seq!['2', '0', '0', '0']);
}

/// A one-character string slice holding the digit for `n`.
fn digit_slice(n: u64) -> (r: &'static str)
    requires
        n < 10,
    ensures
        r@ == seq![dec_digit(n as nat)],
{
    proof {
        reveal_strlit("0");
        reveal_strlit("1");
        reveal_strlit("2");
        reveal_strlit("3");
        reveal_strlit("4");
        reveal_strlit("5");
        reveal_strlit("6");
        reveal_strlit("7");
        reveal_strlit("8");
        reveal_strlit("9");
    }
    let r: &'static str = if n == 0 {
        "0"
    } else if n == 1 {
        "1"
    } else if n == 2 {
        "2"
    } else if n == 3 {
        "3"
    } else if n == 4 {
        "4"
    } else if n == 5 {
        "5"
    } else if n == 6 {
        "6"
    } else if n == 7 {
        "7"
    } else if n == 8 {
        "8"
    } else {
        "9"
    };
    proof {
        assert(r@ =~= seq![dec_digit(n as nat)]);
    }
    r
}

/// Render `n` in decimal.
pub fn dec_u64(n: u64) -> (r: String)
    ensures
        r@ == dec_str(n as nat),
    decreases n,
{
    if n < 10 {
        digit_slice(n).to_owned()
    } else {
        let mut s = dec_u64(n / 10);
        s.append(digit_slice(n % 10));
        s
    }
}

/// Render a `u32` in decimal.
pub fn dec_u32(n: u32) -> (r: String)
    ensures
        r@ == dec_str(n as nat),
{
    dec_u64(n as u64)
}

} // verus!
