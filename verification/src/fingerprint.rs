//! Content fingerprints: the lowercase hex MD5 digest of a byte stream.
//!
//! The digest itself comes from the `md5` crate; everything around it —
//! which bytes have been fed in, and how the sixteen digest bytes become
//! the thirty-two-character fingerprint — is stated and proved here.
//!
//! MD5 is not cryptographically secure: the fingerprint marks a file's
//! content apart for casual use, nothing more.

use vstd::prelude::*;

use crate::hex::hex_of;

verus! {

#[verifier::external_type_specification]
#[verifier::external_body]
pub struct ExMd5Context(md5::Context);

/// The byte stream an MD5 context has consumed so far.
pub uninterp spec fn consumed(c: md5::Context) -> Seq<u8>;

/// The 16-byte MD5 digest of a byte string. A function of the bytes
/// alone; its value on given bytes is fixed by the algorithm, not stated
/// here.
pub uninterp spec fn md5_digest(b: Seq<u8>) -> Seq<u8>;

/// The fingerprint of a byte string: the MD5 digest rendered as
/// lowercase hex, thirty-two characters.
pub open spec fn fingerprint(b: Seq<u8>) -> Seq<char> {
    hex_of(md5_digest(b))
}

/// Relies on md5::Context::new: a fresh context has consumed nothing.
#[verifier::external_body]
fn context_new() -> (c: md5::Context)
    ensures
        consumed(c) == Seq::<u8>::empty(),
{
    md5::Context::new()
}

/// Relies on md5::Context::consume: appends the given bytes to the
/// consumed stream.
#[verifier::external_body]
fn context_consume(c: &mut md5::Context, data: &[u8])
    ensures
        consumed(*final(c)) == consumed(*old(c)) + data@,
{
    c.consume(data)
}

/// Relies on md5::Context::compute: returns the 16-byte MD5 digest of
/// the consumed stream.
#[verifier::external_body]
fn context_compute(c: md5::Context) -> (r: Vec<u8>)
    ensures
        r@ == md5_digest(consumed(c)),
        r@.len() == 16,
{
    c.compute().0.to_vec()
}

/// An incremental fingerprint computation. Feed the content in any
/// chunking; the fingerprint depends on the concatenated bytes alone.
pub struct Hasher {
    ctx: md5::Context,
}

impl Hasher {
    /// The bytes fed in so far.
    pub closed spec fn bytes_seen(self) -> Seq<u8> {
        consumed(self.ctx)
    }

    pub fn new() -> (h: Hasher)
        ensures
            h.bytes_seen() == Seq::<u8>::empty(),
    {
        Hasher { ctx: context_new() }
    }

    /// Feed the next chunk of content.
    pub fn update(&mut self, data: &[u8])
        ensures
            final(self).bytes_seen() == old(self).bytes_seen() + data@,
    {
        context_consume(&mut self.ctx, data);
    }

    /// Finish and return the fingerprint of everything fed in: always
    /// thirty-two characters.
    pub fn finish(self) -> (r: String)
        ensures
            r@ == fingerprint(self.bytes_seen()),
            r@.len() == 32,
    {
        let digest = context_compute(self.ctx);
        proof {
            crate::hex::lemma_hex_of_len(digest@);
        }
        crate::hex::bytes_to_hex(digest.as_slice())
    }
}

/// Fingerprint a byte string held whole in memory.
pub fn fingerprint_of_bytes(data: &[u8]) -> (r: String)
    ensures
        r@ == fingerprint(data@),
        r@.len() == 32,
{
    let mut h = Hasher::new();
    h.update(data);
    proof {
        assert(h.bytes_seen() =~= data@);
    }
    h.finish()
}

/// Hashing a byte string twice yields the same fingerprint: the
/// fingerprint is a function of the content, with no hidden input.
pub proof fn lemma_fingerprint_deterministic(b: Seq<u8>, r1: Seq<char>, r2: Seq<char>)
    requires
        r1 == fingerprint(b),
        r2 == fingerprint(b),
    ensures
        r1 == r2,
{
}

} // verus!
