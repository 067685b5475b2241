//! Rendering of addresses as pointer-style text.
//!
//! An address prints the way a native pointer does: `0x` followed by the
//! address's hexadecimal digits in lower case, with no leading zeros, so the
//! null address prints as `0x0`. The spec function [`ptr_text`] pins that text
//! down exactly, and [`hex_string`] produces it.

use vstd::prelude::*;

verus! {

/// The hexadecimal digit character, lower case, for a digit value below 16.
pub open spec fn hex_char(d: nat) -> char
    recommends
        d < 16,
{
    if d == 0 {
        '0'
    } else if d == 1 {
        '1'
    } else if d == 2 {
        '2'
    } else if d == 3 {
        '3'
    } else if d == 4 {
        '4'
    } else if d == 5 {
        '5'
    } else if d == 6 {
        '6'
    } else if d == 7 {
        '7'
    } else if d == 8 {
        '8'
    } else if d == 9 {
        '9'
    } else if d == 10 {
        'a'
    } else if d == 11 {
        'b'
    } else if d == 12 {
        'c'
    } else if d == 13 {
        'd'
    } else if d == 14 {
        'e'
    } else {
        'f'
    }
}

/// The hexadecimal digits of `a`, most significant first, with no leading
/// zeros; a single `'0'` for zero.
pub open spec fn hex_digits(a: nat) -> Seq<char>
    decreases a,
{
    if a < 16 {
        seq![hex_char(a)]
    } else {
        hex_digits(a / 16).push(hex_char(a % 16))
    }
}

/// The exact text a pointer-style formatter produces for an address:
/// `0x` followed by the address's hexadecimal digits.
pub open spec fn ptr_text(a: nat) -> Seq<char> {
    seq!['0', 'x'] + hex_digits(a)
}

/// The characters of a digit vector read back to front: the digits are
/// collected least significant first, so reading them in reverse yields the
/// most-significant-first text.
spec fn rev_hex_chars(ds: Seq<usize>) -> Seq<char>
    decreases ds.len(),
{
    if ds.len() == 0 {
        Seq::empty()
    } else {
        seq![hex_char(ds.last() as nat)] + rev_hex_chars(ds.drop_last())
    }
}

/// Prepending a digit to the vector appends its character to the reversed text.
proof fn lemma_rev_hex_chars_cons(d: usize, ds: Seq<usize>)
    ensures
        rev_hex_chars(seq![d] + ds) == rev_hex_chars(ds) + seq![hex_char(d as nat)],
    decreases ds.len(),
{
    let t = seq![d] + ds;
    if ds.len() == 0 {
        assert(t =~= seq![d]);
        assert(t.drop_last() =~= Seq::<usize>::empty());
        assert(rev_hex_chars(ds) + seq![hex_char(d as nat)] =~= seq![hex_char(d as nat)]
            + rev_hex_chars(Seq::<usize>::empty()));
    } else {
        assert(t.last() == ds.last());
        assert(t.drop_last() =~= seq![d] + ds.drop_last());
        lemma_rev_hex_chars_cons(d, ds.drop_last());
        assert((seq![hex_char(ds.last() as nat)] + rev_hex_chars(ds.drop_last())) + seq![
            hex_char(d as nat),
        ] =~= seq![hex_char(ds.last() as nat)] + (rev_hex_chars(ds.drop_last()) + seq![
            hex_char(d as nat),
        ]));
    }
}

/// The one-character string for a digit value below 16.
fn hex_char_str(d: usize) -> (r: &'static str)
    requires
        d < 16,
    ensures
        r@ == seq![hex_char(d as nat)],
{
    proof {
        reveal_strlit("0");
        reveal_strlit("1");
        reveal_strlit("2");
        reveal_strlit("3");
        reveal_strlit("4");
        reveal_strlit("5");
        reveal_strlit("6");
        reveal_strlit("7");
        reveal_strlit("8");
        reveal_strlit("9");
        reveal_strlit("a");
        reveal_strlit("b");
        reveal_strlit("c");
        reveal_strlit("d");
        reveal_strlit("e");
        reveal_strlit("f");
    }
    let r: &'static str = if d == 0 {
        "0"
    } else if d == 1 {
        "1"
    } else if d == 2 {
        "2"
    } else if d == 3 {
        "3"
    } else if d == 4 {
        "4"
    } else if d == 5 {
        "5"
    } else if d == 6 {
        "6"
    } else if d == 7 {
        "7"
    } else if d == 8 {
        "8"
    } else if d == 9 {
        "9"
    } else if d == 10 {
        "a"
    } else if d == 11 {
        "b"
    } else if d == 12 {
        "c"
    } else if d == 13 {
        "d"
    } else if d == 14 {
        "e"
    } else {
        "f"
    };
    proof {
        assert(r@ =~= seq![hex_char(d as nat)]);
    }
    r
}

/// Renders an address as pointer-style text: exactly [`ptr_text`].
pub fn hex_string(a: usize) -> (s: String)
    ensures
        s@ == ptr_text(a as nat),
{
    if a == 0 {
        let s = String::from_str("0x0");
        proof {
            reveal_strlit("0x0");
            assert(s@ =~= ptr_text(0));
        }
        return s;
    }
    let mut digits: Vec<usize> = Vec::new();
    let mut x: usize = a;
    loop
        invariant
            forall|j: int| 0 <= j < digits@.len() ==> digits@[j] < 16,
            x == 0 ==> digits@.len() > 0,
            hex_digits(a as nat) == (if x > 0 {
                hex_digits(x as nat) + rev_hex_chars(digits@)
            } else {
                rev_hex_chars(digits@)
            }),
        ensures
            forall|j: int| 0 <= j < digits@.len() ==> digits@[j] < 16,
            digits@.len() > 0,
            hex_digits(a as nat) == rev_hex_chars(digits@),
        decreases x,
    {
        if x == 0 {
            break ;
        }
        let d: usize = x % 16;
        let ghost ds = digits@;
        digits.push(d);
        proof {
            assert(ds.push(d).drop_last() =~= ds);
            assert(rev_hex_chars(ds.push(d)) == seq![hex_char(d as nat)] + rev_hex_chars(ds));
            if x >= 16 {
                assert(hex_digits(x as nat) == hex_digits((x / 16) as nat).push(
                    hex_char((x % 16) as nat),
                ));
                assert(hex_digits((x / 16) as nat).push(hex_char(d as nat)) =~= hex_digits(
                    (x / 16) as nat,
                ) + seq![hex_char(d as nat)]);
                assert((hex_digits((x / 16) as nat) + seq![hex_char(d as nat)]) + rev_hex_chars(ds)
                    =~= hex_digits((x / 16) as nat) + (seq![hex_char(d as nat)] + rev_hex_chars(
                    ds,
                )));
            } else {
                assert(hex_digits(x as nat) == seq![hex_char(x as nat)]);
            }
        }
        x = x / 16;
    }
    let mut s = String::from_str("0x");
    proof {
        reveal_strlit("0x");
        assert(digits@.skip(digits@.len() as int) =~= Seq::<usize>::empty());
        assert(s@ =~= seq!['0', 'x'] + rev_hex_chars(digits@.skip(digits@.len() as int)));
    }
    let mut i: usize = digits.len();
    while i > 0
        invariant
            i <= digits.len(),
            forall|j: int| 0 <= j < digits@.len() ==> digits@[j] < 16,
            hex_digits(a as nat) == rev_hex_chars(digits@),
            s@ == seq!['0', 'x'] + rev_hex_chars(digits@.skip(i as int)),
        decreases i,
    {
        i = i - 1;
        s.append(hex_char_str(digits[i]));
        proof {
            assert(digits@.skip(i as int) =~= seq![digits@[i as int]] + digits@.skip(i as int + 1));
            lemma_rev_hex_chars_cons(digits@[i as int], digits@.skip(i as int + 1));
            assert((seq!['0', 'x'] + rev_hex_chars(digits@.skip(i as int + 1))) + seq![
                hex_char(digits@[i as int] as nat),
            ] =~= seq!['0', 'x'] + (rev_hex_chars(digits@.skip(i as int + 1)) + seq![
                hex_char(digits@[i as int] as nat),
            ]));
        }
    }
    proof {
        assert(digits@.skip(0) =~= digits@);
    }
    s
}

} // verus!
