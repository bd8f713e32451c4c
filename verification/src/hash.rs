//! Fixed-width cryptographic digests: the 32-byte `Hash` value, its lowercase
//! hexadecimal rendering, and the BLAKE2s-256 digest of a byte sequence.

use vstd::prelude::*;

verus! {

/// The number of bytes in a digest.
pub const HASH_LEN: usize = 32;

/// The lowercase hexadecimal digit for a nibble (`n < 16`).
pub open spec fn hex_digit(n: u8) -> char {
    if n == 0 {
        '0'
    } else if n == 1 {
        '1'
    } else if n == 2 {
        '2'
    } else if n == 3 {
        '3'
    } else if n == 4 {
        '4'
    } else if n == 5 {
        '5'
    } else if n == 6 {
        '6'
    } else if n == 7 {
        '7'
    } else if n == 8 {
        '8'
    } else if n == 9 {
        '9'
    } else if n == 10 {
        'a'
    } else if n == 11 {
        'b'
    } else if n == 12 {
        'c'
    } else if n == 13 {
        'd'
    } else if n == 14 {
        'e'
    } else {
        'f'
    }
}

/// The lowercase hexadecimal rendering of a byte sequence: two digits per
/// byte, most significant nibble first.
pub open spec fn hex_lower_of(bytes: Seq<u8>) -> Seq<char>
    decreases bytes.len(),
{
    if bytes.len() == 0 {
        Seq::empty()
    } else {
        seq![hex_digit(bytes.first() / 16), hex_digit(bytes.first() % 16)] + hex_lower_of(
            bytes.drop_first(),
        )
    }
}

/// A hexadecimal rendering has two characters per byte.
pub proof fn lemma_hex_lower_len(bytes: Seq<u8>)
    ensures
        hex_lower_of(bytes).len() == 2 * bytes.len(),
    decreases bytes.len(),
{
    if bytes.len() > 0 {
        lemma_hex_lower_len(bytes.drop_first());
    }
}

/// The BLAKE2s-256 digest of a byte sequence; a function of the bytes alone.
pub uninterp spec fn blake2s_of(bytes: Seq<u8>) -> Seq<u8>;

/// Relies on blake2's `Blake2s256` through `digest::Digest::digest`: the
/// digest is a fixed 32-byte value determined by the input bytes alone.
#[verifier::external_body]
pub(crate) fn blake2s(bytes: &Vec<u8>) -> (r: Vec<u8>)
    ensures
        r@ == blake2s_of(bytes@),
        r@.len() == 32,
{
    let out = <blake2::Blake2s256 as blake2::Digest>::digest(bytes.as_slice());
    out.as_slice().to_vec()
}

/// Relies on data-encoding's `HEXLOWER.encode`: each input byte becomes two
/// lowercase hexadecimal digits, most significant nibble first, in order.
#[verifier::external_body]
pub(crate) fn hex_encode(bytes: &Vec<u8>) -> (r: String)
    ensures
        r@ == hex_lower_of(bytes@),
{
    data_encoding::HEXLOWER.encode(bytes.as_slice())
}

/// The all-zero digest, the sentinel for "no predecessor".
pub open spec fn zero_digest() -> Seq<u8> {
    Seq::new(32, |i: int| 0u8)
}

/// A 32-byte digest value. The invariant that exactly 32 bytes are present is
/// established by every constructor.
#[derive(Debug)]
pub struct Hash {
    bytes: Vec<u8>,
}

impl View for Hash {
    type V = Seq<u8>;

    closed spec fn view(&self) -> Seq<u8> {
        self.bytes@
    }
}

impl Hash {
    /// A digest is well formed when it holds exactly 32 bytes.
    pub open spec fn wf(self) -> bool {
        self@.len() == 32
    }

    /// The all-zero digest, used as the genesis block's predecessor.
    pub fn zeros() -> (r: Hash)
        ensures
            r@ == zero_digest(),
            r.wf(),
    {
        let mut bytes: Vec<u8> = Vec::new();
        let mut i: usize = 0;
        while i < HASH_LEN
            invariant
                i <= 32,
                bytes@ == Seq::new(i as nat, |j: int| 0u8),
            decreases 32 - i,
        {
            bytes.push(0);
            i = i + 1;
            proof {
                assert(bytes@ =~= Seq::new(i as nat, |j: int| 0u8));
            }
        }
        proof {
            assert(bytes@ =~= zero_digest());
        }
        Hash { bytes }
    }

    /// Checked construction: accepts exactly 32 bytes, and rejects any other
    /// width rather than truncating or padding.
    pub fn from_bytes(bytes: Vec<u8>) -> (r: Option<Hash>)
        ensures
            match r {
                Some(h) => bytes@.len() == 32 && h@ == bytes@ && h.wf(),
                None => bytes@.len() != 32,
            },
    {
        if bytes.len() == HASH_LEN {
            Some(Hash { bytes })
        } else {
            None
        }
    }

    /// A copy of the digest's bytes.
    pub fn to_bytes(&self) -> (r: Vec<u8>)
        ensures
            r@ == self@,
    {
        let mut r: Vec<u8> = Vec::new();
        let mut i: usize = 0;
        while i < self.bytes.len()
            invariant
                i <= self.bytes@.len(),
                r@ == self.bytes@.take(i as int),
            decreases self.bytes@.len() - i,
        {
            r.push(self.bytes[i]);
            i = i + 1;
            proof {
                assert(r@ =~= self.bytes@.take(i as int));
            }
        }
        proof {
            assert(self.bytes@.take(self.bytes@.len() as int) =~= self@);
        }
        r
    }

    /// The canonical textual form: 64 lowercase hexadecimal characters.
    pub fn to_hex(&self) -> (r: String)
        requires
            self.wf(),
        ensures
            r@ == hex_lower_of(self@),
            r@.len() == 64,
    {
        let r = hex_encode(&self.bytes);
        proof {
            lemma_hex_lower_len(self@);
        }
        r
    }
}

} // verus!
