//! Key types and their short, non-sensitive renderings.
//!
//! A key is never rendered in full: diagnostics show the last three bytes in
//! hexadecimal, and an identity additionally gets a one-letter tag.

use vstd::prelude::*;
use vstd::string::StringExecFns;

verus! {

/// A peer's public key; it doubles as the peer's identity.
pub type PublicKey = [u8; 32];

/// The private half of an identity.
pub type PrivateKey = [u8; 32];

/// Key material agreed between two peers.
pub type SharedSecret = [u8; 32];

/// A signature over a broadcast payload.
pub type Signature = [u8; 32];

/// Whether two keys hold the same bytes.
pub fn same_key(a: &[u8; 32], b: &[u8; 32]) -> (same: bool)
    ensures
        same == (*a == *b),
{
    let mut i: usize = 0;
    while i < 32
        invariant
            i <= 32,
            forall|j: int| 0 <= j < i ==> a[j] == b[j],
        decreases 32 - i,
    {
        if a[i] != b[i] {
            return false;
        }
        i += 1;
    }
    assert(*a =~= *b);
    true
}

/// The lower-case hexadecimal digit that stands for `n`, for `n` below sixteen.
pub open spec fn hex_digit(n: u8) -> char {
    if n < 10 {
        (('0' as u8 + n) as u8) as char
    } else {
        (('a' as u8 + (n - 10)) as u8) as char
    }
}

/// The two hexadecimal digits of a byte, high nibble first.
pub open spec fn hex_pair(b: u8) -> Seq<char> {
    seq![hex_digit(b / 16), hex_digit(b % 16)]
}

/// The six characters shown for a key: its bytes 31, 30 and 29, in that
/// order, each as two hexadecimal digits.
pub open spec fn key_fingerprint(data: [u8; 32]) -> Seq<char> {
    hex_pair(data[31]) + hex_pair(data[30]) + hex_pair(data[29])
}

/// The tag letter of an identity: `A` to `P`, chosen by the low nibble of
/// the last byte.
pub open spec fn id_tag(id: PublicKey) -> char {
    (('A' as u8 + id[31] % 16) as u8) as char
}

/// The label shown for an identity: tag letter, `" - "`, fingerprint.
pub open spec fn id_label(id: PublicKey) -> Seq<char> {
    seq![id_tag(id), ' ', '-', ' '] + key_fingerprint(id)
}

fn hex_digit_str(n: u8) -> (s: &'static str)
    requires
        n < 16,
    ensures
        s@ == seq![hex_digit(n)],
{
    proof {
        reveal_strlit("0");
        reveal_strlit("1");
        reveal_strlit("2");
        reveal_strlit("3");
        reveal_strlit("4");
        reveal_strlit("5");
        reveal_strlit("6");
        reveal_strlit("7");
        reveal_strlit("8");
        reveal_strlit("9");
        reveal_strlit("a");
        reveal_strlit("b");
        reveal_strlit("c");
        reveal_strlit("d");
        reveal_strlit("e");
        reveal_strlit("f");
    }
    let s = match n {
        0 => "0",
        1 => "1",
        2 => "2",
        3 => "3",
        4 => "4",
        5 => "5",
        6 => "6",
        7 => "7",
        8 => "8",
        9 => "9",
        10 => "a",
        11 => "b",
        12 => "c",
        13 => "d",
        14 => "e",
        _ => "f",
    };
    assert(s@ =~= seq![hex_digit(n)]);
    s
}

fn push_hex_pair(out: &mut String, b: u8)
    ensures
        final(out)@ == old(out)@ + hex_pair(b),
{
    let high: u8 = b >> 4;
    let low: u8 = b & 0x0f;
    assert(high == b / 16 && low == b % 16) by (bit_vector)
        requires
            high == b >> 4,
            low == b & 0x0f,
    ;
    out.append(hex_digit_str(high));
    out.append(hex_digit_str(low));
    assert(out@ =~= old(out)@ + hex_pair(b));
}

/// Renders a key as the fingerprint of its last three bytes.
pub fn readable_key(data: &[u8; 32]) -> (out: String)
    ensures
        out@ == key_fingerprint(*data),
{
    let mut out = String::new();
    push_hex_pair(&mut out, data[31]);
    push_hex_pair(&mut out, data[30]);
    push_hex_pair(&mut out, data[29]);
    assert(out@ =~= key_fingerprint(*data));
    out
}

/// Renders an identity as its tag letter followed by its fingerprint.
pub fn readable_id(id: &PublicKey) -> (out: String)
    ensures
        out@ == id_label(*id),
{
    let last: u8 = id[31];
    let nibble: u8 = last & 0x0f;
    assert(nibble == last % 16) by (bit_vector)
        requires
            nibble == last & 0x0f,
    ;
    proof {
        reveal_strlit("A");
        reveal_strlit("B");
        reveal_strlit("C");
        reveal_strlit("D");
        reveal_strlit("E");
        reveal_strlit("F");
        reveal_strlit("G");
        reveal_strlit("H");
        reveal_strlit("I");
        reveal_strlit("J");
        reveal_strlit("K");
        reveal_strlit("L");
        reveal_strlit("M");
        reveal_strlit("N");
        reveal_strlit("O");
        reveal_strlit("P");
        reveal_strlit(" - ");
    }
    let id_let = match nibble {
        0 => "A",
        1 => "B",
        2 => "C",
        3 => "D",
        4 => "E",
        5 => "F",
        6 => "G",
        7 => "H",
        8 => "I",
        9 => "J",
        10 => "K",
        11 => "L",
        12 => "M",
        13 => "N",
        14 => "O",
        _ => "P",
    };
    assert(id_let@ =~= seq![id_tag(*id)]);
    let mut out = String::from_str(id_let);
    out.append(" - ");
    let key = readable_key(id);
    out.append(key.as_str());
    assert(out@ =~= id_label(*id));
    out
}

} // verus!
