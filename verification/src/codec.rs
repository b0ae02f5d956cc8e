//! Canonical hex-string encodings of the block-query wire protocol.
//!
//! Every numeric field is encoded as `0x` followed by minimal lowercase hex
//! digits; fixed-width placeholder fields are `0x` followed by two zero
//! digits per byte of declared width.

use vstd::prelude::*;

verus! {

/// The lowercase hex character for one digit value.
pub open spec fn hex_digit_char(d: nat) -> char {
    if d == 0 {
        '0'
    } else if d == 1 {
        '1'
    } else if d == 2 {
        '2'
    } else if d == 3 {
        '3'
    } else if d == 4 {
        '4'
    } else if d == 5 {
        '5'
    } else if d == 6 {
        '6'
    } else if d == 7 {
        '7'
    } else if d == 8 {
        '8'
    } else if d == 9 {
        '9'
    } else if d == 10 {
        'a'
    } else if d == 11 {
        'b'
    } else if d == 12 {
        'c'
    } else if d == 13 {
        'd'
    } else if d == 14 {
        'e'
    } else {
        'f'
    }
}

/// The minimal lowercase hex digit sequence of `n` (one `'0'` for zero).
pub open spec fn hex_digits(n: nat) -> Seq<char>
    decreases n,
{
    if n < 16 {
        seq![hex_digit_char(n)]
    } else {
        hex_digits(n / 16) + seq![hex_digit_char(n % 16)]
    }
}

/// The full wire encoding of a number: `0x` then its minimal hex digits.
pub open spec fn hex_str(n: nat) -> Seq<char> {
    seq!['0', 'x'] + hex_digits(n)
}

/// The numeric value a lowercase hex digit character denotes.
pub open spec fn hex_digit_val(c: char) -> nat {
    if c == '0' {
        0
    } else if c == '1' {
        1
    } else if c == '2' {
        2
    } else if c == '3' {
        3
    } else if c == '4' {
        4
    } else if c == '5' {
        5
    } else if c == '6' {
        6
    } else if c == '7' {
        7
    } else if c == '8' {
        8
    } else if c == '9' {
        9
    } else if c == 'a' {
        10
    } else if c == 'b' {
        11
    } else if c == 'c' {
        12
    } else if c == 'd' {
        13
    } else if c == 'e' {
        14
    } else {
        15
    }
}

/// The number a hex digit sequence denotes (most significant digit first).
pub open spec fn hex_val(s: Seq<char>) -> nat
    decreases s.len(),
{
    if s.len() == 0 {
        0
    } else {
        16 * hex_val(s.drop_last()) + hex_digit_val(s.last())
    }
}

/// Encoding round-trips: reading the digits of `hex_str(n)` back yields `n`.
pub proof fn lemma_to_hex_round_trip(n: nat)
    ensures
        hex_val(hex_digits(n)) == n,
        hex_val(hex_str(n).skip(2)) == n,
    decreases n,
{
    if n < 16 {
        let s = seq![hex_digit_char(n)];
        assert(s.drop_last() =~= Seq::<char>::empty());
        assert(hex_val(Seq::<char>::empty()) == 0);
        assert(s.last() == hex_digit_char(n));
        assert(hex_val(s) == 16 * hex_val(s.drop_last()) + hex_digit_val(s.last()));
        assert(hex_digit_val(hex_digit_char(n)) == n);
    } else {
        lemma_to_hex_round_trip(n / 16);
        let a = hex_digits(n / 16);
        let c = hex_digit_char(n % 16);
        assert((a + seq![c]).drop_last() =~= a);
        assert((a + seq![c]).last() == c);
        assert(hex_digit_val(c) == n % 16);
        vstd::arithmetic::div_mod::lemma_fundamental_div_mod(n as int, 16);
    }
    assert(hex_str(n).skip(2) =~= hex_digits(n));
}

/// Appends the character of one hex digit.
fn push_hex_digit(s: &mut String, d: u64)
    requires
        d < 16,
    ensures
        final(s)@ == old(s)@ + seq![hex_digit_char(d as nat)],
{
    if d == 0 {
        s.append("0");
        proof {
            reveal_strlit("0");
            assert("0"@ =~= seq![hex_digit_char(d as nat)]);
        }
    } else if d == 1 {
        s.append("1");
        proof {
            reveal_strlit("1");
            assert("1"@ =~= seq![hex_digit_char(d as nat)]);
        }
    } else if d == 2 {
        s.append("2");
        proof {
            reveal_strlit("2");
            assert("2"@ =~= seq![hex_digit_char(d as nat)]);
        }
    } else if d == 3 {
        s.append("3");
        proof {
            reveal_strlit("3");
            assert("3"@ =~= seq![hex_digit_char(d as nat)]);
        }
    } else if d == 4 {
        s.append("4");
        proof {
            reveal_strlit("4");
            assert("4"@ =~= seq![hex_digit_char(d as nat)]);
        }
    } else if d == 5 {
        s.append("5");
        proof {
            reveal_strlit("5");
            assert("5"@ =~= seq![hex_digit_char(d as nat)]);
        }
    } else if d == 6 {
        s.append("6");
        proof {
            reveal_strlit("6");
            assert("6"@ =~= seq![hex_digit_char(d as nat)]);
        }
    } else if d == 7 {
        s.append("7");
        proof {
            reveal_strlit("7");
            assert("7"@ =~= seq![hex_digit_char(d as nat)]);
        }
    } else if d == 8 {
        s.append("8");
        proof {
            reveal_strlit("8");
            assert("8"@ =~= seq![hex_digit_char(d as nat)]);
        }
    } else if d == 9 {
        s.append("9");
        proof {
            reveal_strlit("9");
            assert("9"@ =~= seq![hex_digit_char(d as nat)]);
        }
    } else if d == 10 {
        s.append("a");
        proof {
            reveal_strlit("a");
            assert("a"@ =~= seq![hex_digit_char(d as nat)]);
        }
    } else if d == 11 {
        s.append("b");
        proof {
            reveal_strlit("b");
            assert("b"@ =~= seq![hex_digit_char(d as nat)]);
        }
    } else if d == 12 {
        s.append("c");
        proof {
            reveal_strlit("c");
            assert("c"@ =~= seq![hex_digit_char(d as nat)]);
        }
    } else if d == 13 {
        s.append("d");
        proof {
            reveal_strlit("d");
            assert("d"@ =~= seq![hex_digit_char(d as nat)]);
        }
    } else if d == 14 {
        s.append("e");
        proof {
            reveal_strlit("e");
            assert("e"@ =~= seq![hex_digit_char(d as nat)]);
        }
    } else {
        s.append("f");
        proof {
            reveal_strlit("f");
            assert("f"@ =~= seq![hex_digit_char(d as nat)]);
        }
    }
}

/// Appends the minimal hex digits of `n`.
fn push_hex_digits(s: &mut String, n: u64)
    ensures
        final(s)@ == old(s)@ + hex_digits(n as nat),
    decreases n,
{
    if n >= 16 {
        push_hex_digits(s, n / 16);
    }
    push_hex_digit(s, n % 16);
    proof {
        if n >= 16 {
            assert(old(s)@ + hex_digits((n / 16) as nat) + seq![hex_digit_char((n % 16) as nat)]
                =~= old(s)@ + hex_digits(n as nat));
        } else {
            assert(old(s)@ + hex_digits(n as nat) =~= old(s)@ + seq![hex_digit_char(n as nat)]);
        }
    }
}

/// Encodes a non-negative integer as `0x` followed by its minimal lowercase
/// hex digits; zero encodes as `0x0`.
pub fn num_to_hex(n: u64) -> (r: String)
    ensures
        r@ == hex_str(n as nat),
{
    let mut s = String::from_str("0x");
    proof {
        reveal_strlit("0x");
        assert(s@ =~= seq!['0', 'x']);
    }
    push_hex_digits(&mut s, n);
    s
}

/// The wire encoding of a zero value of `w` bytes: `0x` followed by `2 * w`
/// zero digits for positive `w`, and the bare zero scalar `0x0` for `w == 0`.
pub open spec fn zero_bytes_str(w: nat) -> Seq<char> {
    if w == 0 {
        hex_str(0)
    } else {
        seq!['0', 'x'] + Seq::new(2 * w, |i: int| '0')
    }
}

/// A zero placeholder of `w` bytes is `0x` plus exactly `2 * w` zero digits
/// when `w > 0`, and is the three-character scalar `0x0` when `w == 0`.
pub proof fn lemma_zero_bytes_width(w: nat)
    ensures
        w > 0 ==> zero_bytes_str(w).len() == 2 + 2 * w,
        w > 0 ==> forall|i: int| 2 <= i < zero_bytes_str(w).len() ==> zero_bytes_str(w)[i] == '0',
        w == 0 ==> zero_bytes_str(w) == seq!['0', 'x', '0'],
{
    if w == 0 {
        assert(hex_digits(0) =~= seq!['0']);
        assert(zero_bytes_str(0) =~= seq!['0', 'x', '0']);
    }
}

/// Encodes the all-zero placeholder of the given byte width.
pub fn zerobytes(width: usize) -> (r: String)
    ensures
        r@ == zero_bytes_str(width as nat),
{
    if width == 0 {
        let r = String::from_str("0x0");
        proof {
            reveal_strlit("0x0");
            assert(hex_digits(0) =~= seq!['0']);
            assert(r@ =~= hex_str(0));
        }
        r
    } else {
        let mut s = String::from_str("0x");
        proof {
            reveal_strlit("0x");
            assert(s@ =~= seq!['0', 'x'] + Seq::new(0, |i: int| '0'));
        }
        let mut i: usize = 0;
        while i < width
            invariant
                i <= width,
                s@ == seq!['0', 'x'] + Seq::new(2 * i as nat, |j: int| '0'),
            decreases width - i,
        {
            s.append("00");
            proof {
                reveal_strlit("00");
                assert(s@ =~= seq!['0', 'x'] + Seq::new(2 * (i + 1) as nat, |j: int| '0'));
            }
            i = i + 1;
        }
        s
    }
}

/// Encodes an opaque identifier (already in hex form) by prefixing `0x`,
/// with no padding or truncation.
pub fn hex_prefix(id: &str) -> (r: String)
    ensures
        r@ == seq!['0', 'x'] + id@,
{
    let mut s = String::from_str("0x");
    proof {
        reveal_strlit("0x");
        assert(s@ =~= seq!['0', 'x']);
    }
    s.append(id);
    s
}

} // verus!

