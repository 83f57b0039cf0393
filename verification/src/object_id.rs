//! Object identifiers and their hexadecimal form.

use vstd::prelude::*;

verus! {

/// The content identifier of an object in the store: 20 raw bytes.
#[derive(Clone, Copy, Debug, PartialEq, Eq, Hash)]
pub struct ObjectId {
    pub(crate) bytes: [u8; 20],
}

impl View for ObjectId {
    type V = Seq<u8>;

    closed spec fn view(&self) -> Seq<u8> {
        self.bytes@
    }
}

/// The lowercase hexadecimal digit for a value below 16.
pub open spec fn hex_digit(nibble: int) -> char {
    seq!['0', '1', '2', '3', '4', '5', '6', '7', '8', '9', 'a', 'b', 'c', 'd', 'e', 'f'][nibble]
}

/// Whether `c` is one of `0`-`9`, `a`-`f`.
pub open spec fn is_lower_hex(c: char) -> bool {
    ('0' <= c && c <= '9') || ('a' <= c && c <= 'f')
}

/// The hexadecimal form of `bytes`: two digits per byte, high half first.
pub open spec fn hex(bytes: Seq<u8>) -> Seq<char> {
    Seq::new(
        2 * bytes.len(),
        |i: int|
            if i % 2 == 0 {
                hex_digit(bytes[i / 2] as int / 16)
            } else {
                hex_digit(bytes[i / 2] as int % 16)
            },
    )
}

/// The hexadecimal form of any bytes has two characters per byte, each of
/// them a digit or a letter from `a` to `f`.
pub proof fn lemma_hex_is_lowercase(bytes: Seq<u8>)
    ensures
        hex(bytes).len() == 2 * bytes.len(),
        forall|i: int| 0 <= i < hex(bytes).len() ==> is_lower_hex(#[trigger] hex(bytes)[i]),
{
    assert forall|i: int| 0 <= i < hex(bytes).len() implies is_lower_hex(
        #[trigger] hex(bytes)[i],
    ) by {
        let b = bytes[i / 2] as int;
        assert(0 <= b / 16 < 16);
        assert(0 <= b % 16 < 16);
        lemma_hex_digit_is_lowercase(b / 16);
        lemma_hex_digit_is_lowercase(b % 16);
    }
}

proof fn lemma_hex_digit_is_lowercase(nibble: int)
    requires
        0 <= nibble < 16,
    ensures
        is_lower_hex(hex_digit(nibble)),
{
}

fn digit_char(nibble: u8) -> (c: char)
    requires
        nibble < 16,
    ensures
        c == hex_digit(nibble as int),
{
    match nibble {
        0 => '0',
        1 => '1',
        2 => '2',
        3 => '3',
        4 => '4',
        5 => '5',
        6 => '6',
        7 => '7',
        8 => '8',
        9 => '9',
        10 => 'a',
        11 => 'b',
        12 => 'c',
        13 => 'd',
        14 => 'e',
        _ => 'f',
    }
}

impl ObjectId {
    /// The identifier made of these bytes.
    pub fn from_bytes(bytes: [u8; 20]) -> (id: Self)
        ensures
            id@ == bytes@,
    {
        ObjectId { bytes }
    }

    /// The raw bytes.
    pub fn as_bytes(&self) -> (bytes: &[u8; 20])
        ensures
            bytes@ == self@,
    {
        &self.bytes
    }

    /// Every identifier has exactly 20 bytes.
    pub proof fn lemma_len(self)
        ensures
            self@.len() == 20,
    {
    }

    /// The 40 lowercase hexadecimal characters that name this object.
    pub fn to_hex(&self) -> (text: String)
        ensures
            text@ == hex(self@),
            text@.len() == 40,
            forall|i: int| 0 <= i < 40 ==> is_lower_hex(#[trigger] text@[i]),
    {
        let mut text = String::new();
        let mut i: usize = 0;
        while i < 20
            invariant
                i <= 20,
                text@ == hex(self@).take(2 * i as int),
            decreases 20 - i,
        {
            let byte = self.bytes[i];
            let ghost before = text@;
            text.push(digit_char(byte / 16));
            text.push(digit_char(byte % 16));
            assert(text@ == hex(self@).take(2 * (i + 1) as int)) by {
                let want = hex(self@).take(2 * (i + 1) as int);
                assert(want[2 * i as int] == hex_digit(byte as int / 16));
                assert(want[2 * i as int + 1] == hex_digit(byte as int % 16));
                assert(text@ =~= want);
            }
            i += 1;
        }
        proof {
            assert(hex(self@).take(40) =~= hex(self@));
            lemma_hex_is_lowercase(self@);
        }
        text
    }
}

} // verus!
