//! Content addresses: 32-byte BLAKE3 digests.

use vstd::prelude::*;
use vstd::string::*;
use vstd::utf8::*;

verus! {

/// A 32-byte BLAKE3 digest.
#[derive(Clone, Copy, Debug, PartialEq, Eq)]
pub struct ContentHash(pub [u8; 32]);

/// The BLAKE3 digest of `bytes`.
pub uninterp spec fn blake3_digest(bytes: Seq<u8>) -> Seq<u8>;

/// The digest of a text, by its UTF-8 bytes.
pub open spec fn text_digest(t: Seq<char>) -> Seq<u8> {
    blake3_digest(encode_utf8(t))
}

/// The all-zero digest that stands before the first receipt of a chain.
pub open spec fn genesis_bytes() -> Seq<u8> {
    Seq::new(32, |i: int| 0u8)
}

/// The character of one lowercase hexadecimal digit.
pub open spec fn hex_char(d: int) -> char {
    if d < 10 {
        (48 + d) as char
    } else {
        (87 + d) as char
    }
}

/// Two lowercase hexadecimal digits for each byte, the high one first.
pub open spec fn hex_text(bytes: Seq<u8>) -> Seq<char> {
    Seq::new(
        2 * bytes.len(),
        |i: int|
            if i % 2 == 0 {
                hex_char(bytes[i / 2] as int / 16)
            } else {
                hex_char(bytes[i / 2] as int % 16)
            },
    )
}

/// `lava_outcome_chain::ContentHash::of`: the BLAKE3 digest of `bytes`, which
/// is a function of the bytes alone.
#[verifier::external_body]
fn digest_of(bytes: &[u8]) -> (r: [u8; 32])
    ensures
        r@ == blake3_digest(bytes@),
{
    lava_outcome_chain::ContentHash::of(bytes).0
}

impl ContentHash {
    /// The digest of `bytes`.
    pub fn of(bytes: &[u8]) -> (r: ContentHash)
        ensures
            r.0@ == blake3_digest(bytes@),
    {
        ContentHash(digest_of(bytes))
    }

    /// The all-zero sentinel.
    pub fn genesis() -> (r: ContentHash)
        ensures
            r.0@ == genesis_bytes(),
    {
        ContentHash([0u8; 32])
    }

    /// Is this the all-zero sentinel?
    pub fn is_genesis(&self) -> (r: bool)
        ensures
            r == (self.0@ == genesis_bytes()),
    {
        for i in 0..32usize
            invariant
                forall|j: int| 0 <= j < i ==> #[trigger] self.0@[j] == 0,
        {
            if self.0[i] != 0 {
                assert(genesis_bytes()[i as int] == 0);
                return false;
            }
        }
        assert(self.0@ =~= genesis_bytes());
        true
    }

    /// The digest as 64 lowercase hexadecimal digits.
    pub fn hex(&self) -> (r: String)
        ensures
            r@ == hex_text(self.0@),
    {
        let mut out = String::new();
        for i in 0..32usize
            invariant
                out@ == hex_text(self.0@).take(2 * i),
        {
            out.append(hex_digit(self.0[i] / 16));
            out.append(hex_digit(self.0[i] % 16));
            assert(out@ =~= hex_text(self.0@).take(2 * (i + 1)));
        }
        assert(hex_text(self.0@).take(64) =~= hex_text(self.0@));
        out
    }
}

fn hex_digit(d: u8) -> (r: &'static str)
    requires
        d < 16,
    ensures
        r@ == seq![hex_char(d as int)],
{
    proof {
        reveal_strlit("0");
        reveal_strlit("1");
        reveal_strlit("2");
        reveal_strlit("3");
        reveal_strlit("4");
        reveal_strlit("5");
        reveal_strlit("6");
        reveal_strlit("7");
        reveal_strlit("8");
        reveal_strlit("9");
        reveal_strlit("a");
        reveal_strlit("b");
        reveal_strlit("c");
        reveal_strlit("d");
        reveal_strlit("e");
        reveal_strlit("f");
    }
    match d {
        0 => "0",
        1 => "1",
        2 => "2",
        3 => "3",
        4 => "4",
        5 => "5",
        6 => "6",
        7 => "7",
        8 => "8",
        9 => "9",
        10 => "a",
        11 => "b",
        12 => "c",
        13 => "d",
        14 => "e",
        _ => "f",
    }
}

/// The value of a lowercase hexadecimal digit.
pub open spec fn hex_value(c: char) -> int {
    if c <= '9' {
        c as int - '0' as int
    } else {
        c as int - 'a' as int + 10
    }
}

/// Each byte is read back from its two digits, which are lowercase hexadecimal
/// ones.
pub proof fn law_hex_is_read_back(bytes: Seq<u8>, i: int)
    requires
        0 <= i < bytes.len(),
    ensures
        hex_text(bytes).len() == 2 * bytes.len(),
        '0' <= hex_text(bytes)[2 * i] <= '9' || 'a' <= hex_text(bytes)[2 * i] <= 'f',
        '0' <= hex_text(bytes)[2 * i + 1] <= '9' || 'a' <= hex_text(bytes)[2 * i + 1] <= 'f',
        16 * hex_value(hex_text(bytes)[2 * i]) + hex_value(hex_text(bytes)[2 * i + 1]) == bytes[i],
{
    let b = bytes[i] as int;
    assert((2 * i) / 2 == i && (2 * i) % 2 == 0);
    assert((2 * i + 1) / 2 == i && (2 * i + 1) % 2 == 1);
    assert(hex_text(bytes)[2 * i] == hex_char(b / 16));
    assert(hex_text(bytes)[2 * i + 1] == hex_char(b % 16));
}

/// Two digests with the same text are the same.
pub proof fn law_hex_texts_are_distinct(a: Seq<u8>, b: Seq<u8>)
    ensures
        hex_text(a) == hex_text(b) ==> a == b,
{
    if hex_text(a) == hex_text(b) {
        assert(hex_text(a).len() == 2 * a.len() && hex_text(b).len() == 2 * b.len());
        assert forall|i: int| 0 <= i < a.len() implies a[i] == b[i] by {
            law_hex_is_read_back(a, i);
            law_hex_is_read_back(b, i);
        }
        assert(a =~= b);
    }
}

/// The sentinel is 32 bytes, every one of them zero, and nothing else is. The
/// digest of a text is that of its UTF-8 bytes.
pub proof fn law_sentinel_is_all_zero(bytes: Seq<u8>, t: Seq<char>)
    ensures
        bytes == genesis_bytes() <==> bytes.len() == 32 && forall|i: int|
            0 <= i < 32 ==> #[trigger] bytes[i] == 0,
        text_digest(t) == blake3_digest(encode_utf8(t)),
{
    if bytes.len() == 32 && forall|i: int| 0 <= i < 32 ==> #[trigger] bytes[i] == 0 {
        assert(bytes =~= genesis_bytes());
    }
}

} // verus!
