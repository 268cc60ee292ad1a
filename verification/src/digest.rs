//! SHA-256 through the `sha2` crate, and its lower-case hexadecimal text.

use vstd::prelude::*;
use sha2::Digest;

verus! {

/// The incremental SHA-256 hasher of the `sha2` crate (`sha2::Sha256` is a
/// generic wrapper type that cannot be declared directly, so it is held in
/// this opaque struct).
#[verifier::external_body]
pub struct Sha256Hasher {
    inner: sha2::Sha256,
}

/// The bytes a hasher has absorbed so far, in order.
pub uninterp spec fn sha256_absorbed(h: Sha256Hasher) -> Seq<u8>;

/// What `Sha256::finalize` returns for a hasher that absorbed `message`: the
/// SHA-256 digest of the message.
pub uninterp spec fn sha256_digest(message: Seq<u8>) -> Seq<u8>;

/// `Sha256::new`: a hasher that has absorbed nothing.
#[verifier::external_body]
pub(crate) fn sha256_new() -> (h: Sha256Hasher)
    ensures
        sha256_absorbed(h) == Seq::<u8>::empty(),
{
    Sha256Hasher { inner: sha2::Sha256::new() }
}

/// `Sha256::update`: absorbs `data` after what the hasher already holds.
#[verifier::external_body]
pub(crate) fn sha256_update(h: &mut Sha256Hasher, data: &[u8])
    ensures
        sha256_absorbed(*final(h)) == sha256_absorbed(*old(h)) + data@,
{
    h.inner.update(data);
}

/// `Sha256::finalize`: the 32-byte digest of everything absorbed.
#[verifier::external_body]
pub(crate) fn sha256_finalize(h: Sha256Hasher) -> (d: Vec<u8>)
    ensures
        d@ == sha256_digest(sha256_absorbed(h)),
        d@.len() == 32,
{
    h.inner.finalize().to_vec()
}

/// The lower-case hexadecimal digit for `n < 16`.
pub open spec fn hex_digit(n: u8) -> char {
    if n < 10 {
        ((n + 48) as u32) as char
    } else {
        ((n + 87) as u32) as char
    }
}

/// Two lower-case hexadecimal digits per byte (`format!("{:02x}")`).
pub open spec fn hex_lower(bytes: Seq<u8>) -> Seq<char>
    decreases bytes.len(),
{
    if bytes.len() == 0 {
        Seq::<char>::empty()
    } else {
        hex_lower(bytes.drop_last()) + seq![hex_digit(bytes.last() / 16), hex_digit(bytes.last() % 16)]
    }
}

fn hex_digit_exec(n: u8) -> (c: char)
    requires
        n < 16,
    ensures
        c == hex_digit(n),
{
    if n < 10 {
        let code: u8 = n + 48;
        code as char
    } else {
        let code: u8 = n + 87;
        code as char
    }
}

/// The lower-case hexadecimal text of `bytes`.
pub fn to_hex_lower(bytes: &[u8]) -> (s: String)
    ensures
        s@ == hex_lower(bytes@),
{
    let mut s = String::new();
    let mut i: usize = 0;
    while i < bytes.len()
        invariant
            i <= bytes@.len(),
            s@ == hex_lower(bytes@.take(i as int)),
        decreases bytes@.len() - i,
    {
        let b = bytes[i];
        crate::text::push_char(&mut s, hex_digit_exec(b / 16));
        crate::text::push_char(&mut s, hex_digit_exec(b % 16));
        assert(bytes@.take(i + 1).drop_last() =~= bytes@.take(i as int));
        i = i + 1;
    }
    assert(bytes@.take(bytes@.len() as int) =~= bytes@);
    s
}

/// The lower-case hexadecimal SHA-256 of `bytes`.
pub fn sha256_hex(bytes: &[u8]) -> (s: String)
    ensures
        s@ == hex_lower(sha256_digest(bytes@)),
{
    let mut h = sha256_new();
    sha256_update(&mut h, bytes);
    let d = sha256_finalize(h);
    to_hex_lower(d.as_slice())
}

/// A stream of bytes that must have exactly a declared length, never more
/// than a limit, hashed as it arrives.
pub struct BoundedDigest {
    hasher: Sha256Hasher,
    declared: u64,
    limit: u64,
    copied: u64,
}

/// The abstract form of a [`BoundedDigest`]: the declared length, the limit
/// and the bytes received so far.
pub struct BoundedDigestView {
    pub declared: nat,
    pub limit: nat,
    pub data: Seq<u8>,
}

impl View for BoundedDigest {
    type V = BoundedDigestView;

    closed spec fn view(&self) -> BoundedDigestView {
        BoundedDigestView {
            declared: self.declared as nat,
            limit: self.limit as nat,
            data: sha256_absorbed(self.hasher),
        }
    }
}

impl BoundedDigest {
    /// The invariant: what was received fits both the declared length and
    /// the limit.
    pub closed spec fn wf(&self) -> bool {
        &&& self.copied as nat == sha256_absorbed(self.hasher).len()
        &&& self.copied <= self.declared
        &&& self.copied <= self.limit
    }

    /// A stream of `declared` bytes, at most `limit`, with nothing received.
    pub fn new(declared: u64, limit: u64) -> (r: BoundedDigest)
        ensures
            r.wf(),
            r@ == (BoundedDigestView { declared: declared as nat, limit: limit as nat, data: Seq::empty() }),
    {
        BoundedDigest { hasher: sha256_new(), declared, limit, copied: 0 }
    }

    /// Receives `chunk`; refuses it, and leaves the stream as it was, when
    /// it would take the stream past its declared length or its limit.
    pub fn absorb(&mut self, chunk: &[u8]) -> (accepted: bool)
        requires
            old(self).wf(),
        ensures
            final(self).wf(),
            accepted == (old(self)@.data.len() + chunk@.len() <= old(self)@.declared
                && old(self)@.data.len() + chunk@.len() <= old(self)@.limit),
            accepted ==> final(self)@ == (BoundedDigestView { data: old(self)@.data + chunk@, ..old(self)@ }),
            !accepted ==> final(self)@ == old(self)@,
    {
        if chunk.len() as u64 > self.declared - self.copied || chunk.len() as u64 > self.limit
            - self.copied {
            return false;
        }
        sha256_update(&mut self.hasher, chunk);
        self.copied = self.copied + chunk.len() as u64;
        true
    }

    /// The lower-case hexadecimal SHA-256 of the stream, when it has
    /// exactly its declared length.
    pub fn finish(self) -> (r: Option<String>)
        requires
            self.wf(),
        ensures
            r is Some <==> self@.data.len() == self@.declared,
            r matches Some(h) ==> h@ == hex_lower(sha256_digest(self@.data)),
    {
        if self.copied != self.declared {
            return None;
        }
        let d = sha256_finalize(self.hasher);
        Some(to_hex_lower(d.as_slice()))
    }
}

} // verus!
