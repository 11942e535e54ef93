//! Textual digits of unsigned integers in a given radix.
//!
//! The specification [`radix_digits`] gives, as a sequence of characters,
//! the canonical (no leading zero, lowercase) digit string of a value, and
//! the executable [`push_radix_digits`] appends exactly that string.

use vstd::prelude::*;

verus! {

/// The lowercase character for one digit value below sixteen.
pub open spec fn digit_char(d: nat) -> char
    recommends
        d < 16,
{
    if d == 0 {
        '0'
    } else if d == 1 {
        '1'
    } else if d == 2 {
        '2'
    } else if d == 3 {
        '3'
    } else if d == 4 {
        '4'
    } else if d == 5 {
        '5'
    } else if d == 6 {
        '6'
    } else if d == 7 {
        '7'
    } else if d == 8 {
        '8'
    } else if d == 9 {
        '9'
    } else if d == 10 {
        'a'
    } else if d == 11 {
        'b'
    } else if d == 12 {
        'c'
    } else if d == 13 {
        'd'
    } else if d == 14 {
        'e'
    } else {
        'f'
    }
}

/// The digit string of `v` in base `radix`: most significant digit first,
/// no leading zeroes, and a single `0` for the value zero.
pub open spec fn radix_digits(v: nat, radix: nat) -> Seq<char>
    recommends
        2 <= radix <= 16,
    decreases v,
    via radix_digits_decreases
{
    if radix < 2 {
        Seq::empty()
    } else if v < radix {
        seq![digit_char(v)]
    } else {
        radix_digits(v / radix, radix).push(digit_char(v % radix))
    }
}

#[via_fn]
proof fn radix_digits_decreases(v: nat, radix: nat) {
    if 2 <= radix && v >= radix {
        vstd::arithmetic::div_mod::lemma_div_is_strictly_smaller(v as int, radix as int);
    }
}

/// The one-character string for one digit value below sixteen.
fn digit_str(d: u64) -> (s: &'static str)
    requires
        d < 16,
    ensures
        s@ == seq![digit_char(d as nat)],
{
    let s: &'static str = if d == 0 {
        "0"
    } else if d == 1 {
        "1"
    } else if d == 2 {
        "2"
    } else if d == 3 {
        "3"
    } else if d == 4 {
        "4"
    } else if d == 5 {
        "5"
    } else if d == 6 {
        "6"
    } else if d == 7 {
        "7"
    } else if d == 8 {
        "8"
    } else if d == 9 {
        "9"
    } else if d == 10 {
        "a"
    } else if d == 11 {
        "b"
    } else if d == 12 {
        "c"
    } else if d == 13 {
        "d"
    } else if d == 14 {
        "e"
    } else {
        "f"
    };
    proof {
        reveal_strlit("0");
        reveal_strlit("1");
        reveal_strlit("2");
        reveal_strlit("3");
        reveal_strlit("4");
        reveal_strlit("5");
        reveal_strlit("6");
        reveal_strlit("7");
        reveal_strlit("8");
        reveal_strlit("9");
        reveal_strlit("a");
        reveal_strlit("b");
        reveal_strlit("c");
        reveal_strlit("d");
        reveal_strlit("e");
        reveal_strlit("f");
        assert(s@ =~= seq![digit_char(d as nat)]);
    }
    s
}

/// Appends the digit string of `v` in base `radix` to `out`.
pub fn push_radix_digits(out: &mut String, v: u64, radix: u64)
    requires
        2 <= radix <= 16,
    ensures
        final(out)@ == old(out)@ + radix_digits(v as nat, radix as nat),
    decreases v,
{
    if v >= radix {
        proof {
            vstd::arithmetic::div_mod::lemma_div_is_strictly_smaller(v as int, radix as int);
        }
        push_radix_digits(out, v / radix, radix);
    }
    out.append(digit_str(v % radix));
    proof {
        if v < radix {
            vstd::arithmetic::div_mod::lemma_small_mod(v as nat, radix as nat);
            assert(final(out)@ =~= old(out)@ + radix_digits(v as nat, radix as nat));
        } else {
            assert(v as nat % radix as nat == (v % radix) as nat);
            assert(final(out)@ =~= old(out)@ + radix_digits(v as nat, radix as nat));
        }
    }
}

} // verus!
