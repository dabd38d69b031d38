//! Verified rendering of small numbers and byte strings as text, and a
//! verified byte-string comparison. These back the human-readable test names
//! and the diagnostic rendering of key-agreement secrets.

use vstd::prelude::*;

verus! {

/// The character for one digit value below sixteen, decimal digits first.
pub open spec fn digit_char(d: nat) -> char {
    if d == 0 {
        '0'
    } else if d == 1 {
        '1'
    } else if d == 2 {
        '2'
    } else if d == 3 {
        '3'
    } else if d == 4 {
        '4'
    } else if d == 5 {
        '5'
    } else if d == 6 {
        '6'
    } else if d == 7 {
        '7'
    } else if d == 8 {
        '8'
    } else if d == 9 {
        '9'
    } else if d == 10 {
        'a'
    } else if d == 11 {
        'b'
    } else if d == 12 {
        'c'
    } else if d == 13 {
        'd'
    } else if d == 14 {
        'e'
    } else {
        'f'
    }
}

/// The decimal rendering of a number, most significant digit first and
/// without leading zeroes (a single zero renders as "0").
pub open spec fn dec_digits(n: nat) -> Seq<char>
    decreases n,
{
    if n < 10 {
        seq![digit_char(n)]
    } else {
        dec_digits(n / 10) + seq![digit_char(n % 10)]
    }
}

/// The two hexadecimal digits of one byte, high nibble first.
pub open spec fn hex_pair(b: u8) -> Seq<char> {
    seq![digit_char(b as nat / 16), digit_char(b as nat % 16)]
}

/// The hexadecimal digits of a byte string, two per byte, in order.
pub open spec fn hex_digits(s: Seq<u8>) -> Seq<char>
    decreases s.len(),
{
    if s.len() == 0 {
        Seq::empty()
    } else {
        hex_digits(s.drop_last()) + hex_pair(s.last())
    }
}

/// The full hexadecimal rendering of a byte string: "0x" then two lowercase
/// digits per byte.
pub open spec fn hex_render(s: Seq<u8>) -> Seq<char> {
    "0x"@ + hex_digits(s)
}

/// One digit value below sixteen as a one-character string.
fn digit_str(d: u8) -> (r: &'static str)
    requires
        d < 16,
    ensures
        r@ =~= seq![digit_char(d as nat)],
{
    proof {
        reveal_strlit("0");
        reveal_strlit("1");
        reveal_strlit("2");
        reveal_strlit("3");
        reveal_strlit("4");
        reveal_strlit("5");
        reveal_strlit("6");
        reveal_strlit("7");
        reveal_strlit("8");
        reveal_strlit("9");
        reveal_strlit("a");
        reveal_strlit("b");
        reveal_strlit("c");
        reveal_strlit("d");
        reveal_strlit("e");
        reveal_strlit("f");
    }
    if d == 0 {
        "0"
    } else if d == 1 {
        "1"
    } else if d == 2 {
        "2"
    } else if d == 3 {
        "3"
    } else if d == 4 {
        "4"
    } else if d == 5 {
        "5"
    } else if d == 6 {
        "6"
    } else if d == 7 {
        "7"
    } else if d == 8 {
        "8"
    } else if d == 9 {
        "9"
    } else if d == 10 {
        "a"
    } else if d == 11 {
        "b"
    } else if d == 12 {
        "c"
    } else if d == 13 {
        "d"
    } else if d == 14 {
        "e"
    } else {
        "f"
    }
}

/// Renders a slot number in decimal.
pub fn u8_decimal(n: u8) -> (s: String)
    ensures
        s@ == dec_digits(n as nat),
{
    if n < 10 {
        String::from_str(digit_str(n))
    } else if n < 100 {
        let q: u8 = n / 10;
        let r: u8 = n % 10;
        proof {
            assert(n as nat / 10 < 10) by (nonlinear_arith)
                requires
                    n < 100,
            ;
        }
        let mut s = String::from_str(digit_str(q));
        s.append(digit_str(r));
        assert(dec_digits(n as nat / 10) =~= seq![digit_char(n as nat / 10)]);
        assert(s@ =~= dec_digits(n as nat));
        s
    } else {
        let q: u8 = n / 10;
        proof {
            assert(10 <= n as nat / 10 < 100) by (nonlinear_arith)
                requires
                    100 <= n < 256,
            ;
            assert(q as nat / 10 < 10) by (nonlinear_arith)
                requires
                    q < 100,
            ;
        }
        let mut s = String::from_str(digit_str(q / 10));
        s.append(digit_str(q % 10));
        s.append(digit_str(n % 10));
        assert(dec_digits(q as nat / 10) =~= seq![digit_char(q as nat / 10)]);
        assert(dec_digits(q as nat) =~= seq![
            digit_char(q as nat / 10),
            digit_char(q as nat % 10),
        ]);
        assert(s@ =~= dec_digits(n as nat));
        s
    }
}

proof fn lemma_hex_digits_step(s: Seq<u8>, i: int)
    requires
        0 <= i < s.len(),
    ensures
        hex_digits(s.take(i + 1)) == hex_digits(s.take(i)) + hex_pair(s[i]),
{
    assert(s.take(i + 1).drop_last() =~= s.take(i));
    assert(s.take(i + 1).last() == s[i]);
}

/// Renders a byte string in hexadecimal, "0x" first.
pub fn bytes_to_hex(bytes: &Vec<u8>) -> (s: String)
    ensures
        s@ == hex_render(bytes@),
{
    let mut s = String::from_str("0x");
    let mut i: usize = 0;
    assert(bytes@.take(0int) =~= Seq::<u8>::empty());
    while i < bytes.len()
        invariant
            i <= bytes.len(),
            s@ == "0x"@ + hex_digits(bytes@.take(i as int)),
        decreases bytes.len() - i,
    {
        let b = bytes[i];
        s.append(digit_str(b / 16));
        s.append(digit_str(b % 16));
        proof {
            lemma_hex_digits_step(bytes@, i as int);
        }
        assert(s@ =~= "0x"@ + hex_digits(bytes@.take(i as int + 1)));
        i = i + 1;
    }
    assert(bytes@.take(bytes@.len() as int) =~= bytes@);
    s
}

/// Compares two byte strings for equality.
pub fn bytes_equal(a: &Vec<u8>, b: &Vec<u8>) -> (r: bool)
    ensures
        r == (a@ == b@),
{
    if a.len() != b.len() {
        assert(a@ != b@) by {
            assert(a@.len() != b@.len());
        }
        return false;
    }
    let mut i: usize = 0;
    while i < a.len()
        invariant
            i <= a.len(),
            a@.len() == b@.len(),
            forall|j: int| 0 <= j < i ==> a@[j] == b@[j],
        decreases a.len() - i,
    {
        if a[i] != b[i] {
            return false;
        }
        i = i + 1;
    }
    assert(a@ =~= b@);
    true
}

} // verus!
