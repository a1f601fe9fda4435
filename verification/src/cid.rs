//! Content identifiers.
//!
//! Every stored payload is addressed by the SHA3-256 digest of its canonical
//! encoding. A constant or expression identifier is the pair of the digests of
//! its anonymous (structural) and metadata (display) projections.

use vstd::prelude::*;

verus! {

/// A 256-bit digest, kept as four big-endian words.
#[derive(Clone, Copy, Debug, PartialEq, Eq, Structural)]
pub struct Digest {
    pub w0: u64,
    pub w1: u64,
    pub w2: u64,
    pub w3: u64,
}

/// Identifier of an anonymous expression payload.
#[derive(Clone, Copy, Debug, PartialEq, Eq, Structural)]
pub struct ExprAnonCid(pub Digest);

/// Identifier of an expression metadata payload.
#[derive(Clone, Copy, Debug, PartialEq, Eq, Structural)]
pub struct ExprMetaCid(pub Digest);

/// Identifier of an anonymous constant payload.
#[derive(Clone, Copy, Debug, PartialEq, Eq, Structural)]
pub struct ConstAnonCid(pub Digest);

/// Identifier of a constant metadata payload.
#[derive(Clone, Copy, Debug, PartialEq, Eq, Structural)]
pub struct ConstMetaCid(pub Digest);

/// Identifier of an expression: the pair of its projections' digests.
#[derive(Clone, Copy, Debug, PartialEq, Eq, Structural)]
pub struct ExprCid {
    pub anon: ExprAnonCid,
    pub meta: ExprMetaCid,
}

/// Identifier of a constant: the pair of its projections' digests.
#[derive(Clone, Copy, Debug, PartialEq, Eq, Structural)]
pub struct ConstCid {
    pub anon: ConstAnonCid,
    pub meta: ConstMetaCid,
}

/// The four big-endian words of the SHA3-256 digest of a byte string.
pub uninterp spec fn sha3_words(bytes: Seq<u8>) -> (u64, u64, u64, u64);

/// The digest of a byte string as this crate's `Digest` value.
pub open spec fn digest_s(bytes: Seq<u8>) -> Digest {
    Digest {
        w0: sha3_words(bytes).0,
        w1: sha3_words(bytes).1,
        w2: sha3_words(bytes).2,
        w3: sha3_words(bytes).3,
    }
}

/// Relies on `sha3::Sha3_256` through `digest::Digest::digest`: the SHA3-256
/// digest is 32 bytes and a pure function of the input bytes alone.
#[verifier::external_body]
pub(crate) fn digest_bytes(bytes: &Vec<u8>) -> (d: Digest)
    ensures
        (d.w0, d.w1, d.w2, d.w3) == sha3_words(bytes@),
        d == digest_s(bytes@),
{
    let h = <sha3::Sha3_256 as sha3::Digest>::digest(bytes.as_slice());
    Digest {
        w0: u64::from_be_bytes(h[0..8].try_into().unwrap()),
        w1: u64::from_be_bytes(h[8..16].try_into().unwrap()),
        w2: u64::from_be_bytes(h[16..24].try_into().unwrap()),
        w3: u64::from_be_bytes(h[24..32].try_into().unwrap()),
    }
}

} // verus!
