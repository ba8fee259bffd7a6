//! Streaming digest computation.
//!
//! A digester owns one running hash state and a record of the bytes fed to
//! it since it was created or last finalized. Finalizing renders the digest
//! of exactly those bytes and resets the state in place, so one digester
//! serves a whole sequence of units with no allocation per unit. The byte
//! level hash implementations come from outside hash crates and are relied
//! on through the named results `md5_of` and `sha1_of`: each digest is a
//! function of the algorithm and the bytes fed, and of nothing else.

use crate::format::{line_for, PrintFormat};
use crate::hex::{hex_of, to_hex};
use vstd::prelude::*;

verus! {

/// The supported hash algorithms.
#[derive(Debug, Clone, Copy, PartialEq, Eq, Structural)]
pub enum Algorithm {
    Md5,
    Sha1,
}

/// The MD5 digest of a byte sequence, as the outside md5 crate computes it.
pub uninterp spec fn md5_of(data: Seq<u8>) -> Seq<u8>;

/// The SHA-1 digest of a byte sequence, as the outside sha1 crate computes
/// it.
pub uninterp spec fn sha1_of(data: Seq<u8>) -> Seq<u8>;

/// The digest of a byte sequence under the chosen algorithm.
pub open spec fn digest_of(alg: Algorithm, data: Seq<u8>) -> Seq<u8> {
    match alg {
        Algorithm::Md5 => md5_of(data),
        Algorithm::Sha1 => sha1_of(data),
    }
}

#[verifier::external_type_specification]
#[verifier::external_body]
pub struct ExMd5(md5::Md5);

#[verifier::external_type_specification]
#[verifier::external_body]
pub struct ExSha1(sha1::Sha1);

/// Relies on digest::Digest::new for md5::Md5: a fresh state that has
/// processed no input.
#[verifier::external_body]
fn new_md5() -> md5::Md5 {
    <md5::Md5 as digest::Digest>::new()
}

/// Relies on digest::Digest::new for sha1::Sha1: a fresh state that has
/// processed no input.
#[verifier::external_body]
fn new_sha1() -> sha1::Sha1 {
    <sha1::Sha1 as digest::Digest>::new()
}

/// A running MD5 state together with the bytes fed since its last reset.
struct Md5State {
    inner: md5::Md5,
    pub fed: Ghost<Seq<u8>>,
}

impl Md5State {
    /// A fresh state, which has processed no input, paired with an empty
    /// feed record.
    fn new() -> (r: Self)
        ensures
            r.fed@ == Seq::<u8>::empty(),
    {
        Md5State { inner: new_md5(), fed: Ghost(Seq::empty()) }
    }

    /// Relies on digest::Digest::update for md5::Md5: feeding a chunk
    /// appends it to the processed input.
    #[verifier::external_body]
    fn update(&mut self, chunk: &[u8])
        ensures
            final(self).fed@ == old(self).fed@ + chunk@,
    {
        digest::Digest::update(&mut self.inner, chunk);
    }

    /// Relies on digest::Digest::finalize_reset for md5::Md5: the digest of
    /// all input fed since the last reset, sixteen bytes wide, after which
    /// the state is as fresh.
    #[verifier::external_body]
    fn finalize_reset(&mut self) -> (r: Vec<u8>)
        ensures
            r@ == md5_of(old(self).fed@),
            r@.len() == 16,
            final(self).fed@ == Seq::<u8>::empty(),
    {
        digest::Digest::finalize_reset(&mut self.inner).to_vec()
    }
}

/// A running SHA-1 state together with the bytes fed since its last reset.
struct Sha1State {
    inner: sha1::Sha1,
    pub fed: Ghost<Seq<u8>>,
}

impl Sha1State {
    /// A fresh state, which has processed no input, paired with an empty
    /// feed record.
    fn new() -> (r: Self)
        ensures
            r.fed@ == Seq::<u8>::empty(),
    {
        Sha1State { inner: new_sha1(), fed: Ghost(Seq::empty()) }
    }

    /// Relies on digest::Digest::update for sha1::Sha1: feeding a chunk
    /// appends it to the processed input.
    #[verifier::external_body]
    fn update(&mut self, chunk: &[u8])
        ensures
            final(self).fed@ == old(self).fed@ + chunk@,
    {
        digest::Digest::update(&mut self.inner, chunk);
    }

    /// Relies on digest::Digest::finalize_reset for sha1::Sha1: the digest
    /// of all input fed since the last reset, twenty bytes wide, after
    /// which the state is as fresh.
    #[verifier::external_body]
    fn finalize_reset(&mut self) -> (r: Vec<u8>)
        ensures
            r@ == sha1_of(old(self).fed@),
            r@.len() == 20,
            final(self).fed@ == Seq::<u8>::empty(),
    {
        digest::Digest::finalize_reset(&mut self.inner).to_vec()
    }
}

/// One hash state, selected once at creation and reused across units.
pub struct Digester {
    alg: Algorithm,
    md5: Md5State,
    sha1: Sha1State,
}

impl Digester {
    /// The algorithm this digester was created with.
    pub closed spec fn alg(self) -> Algorithm {
        self.alg
    }

    /// The bytes fed to the running state since creation or the last
    /// finalize.
    pub closed spec fn fed(self) -> Seq<u8> {
        match self.alg {
            Algorithm::Md5 => self.md5.fed@,
            Algorithm::Sha1 => self.sha1.fed@,
        }
    }

    /// A fresh digester for the chosen algorithm.
    pub fn new(alg: Algorithm) -> (r: Self)
        ensures
            r.alg() == alg,
            r.fed() == Seq::<u8>::empty(),
    {
        Digester { alg, md5: Md5State::new(), sha1: Sha1State::new() }
    }

    /// Feeds one chunk into the running state.
    pub fn update(&mut self, chunk: &[u8])
        ensures
            final(self).alg() == old(self).alg(),
            final(self).fed() == old(self).fed() + chunk@,
    {
        match self.alg {
            Algorithm::Md5 => self.md5.update(chunk),
            Algorithm::Sha1 => self.sha1.update(chunk),
        }
    }

    /// Renders the digest of everything fed since the last reset and
    /// resets the state, so the digester is immediately reusable.
    pub fn finalize_reset(&mut self) -> (r: Vec<u8>)
        ensures
            final(self).alg() == old(self).alg(),
            final(self).fed() == Seq::<u8>::empty(),
            r@ == digest_of(old(self).alg(), old(self).fed()),
            r@.len() == (match old(self).alg() {
                Algorithm::Md5 => 16int,
                Algorithm::Sha1 => 20int,
            }),
    {
        match self.alg {
            Algorithm::Md5 => self.md5.finalize_reset(),
            Algorithm::Sha1 => self.sha1.finalize_reset(),
        }
    }
}

/// One worker's hashing unit: a digester, the output format, and the read
/// buffer size its owner should use, fixed at creation.
pub struct BufHash {
    digester: Digester,
    format: PrintFormat,
    buffer_size: usize,
}

impl BufHash {
    /// The algorithm in use.
    pub closed spec fn alg(self) -> Algorithm {
        self.digester.alg()
    }

    /// The output format in use.
    pub closed spec fn fmt(self) -> PrintFormat {
        self.format
    }

    /// The bytes fed for the unit in progress.
    pub closed spec fn fed(self) -> Seq<u8> {
        self.digester.fed()
    }

    /// The configured read buffer size.
    pub closed spec fn spec_buffer_size(self) -> usize {
        self.buffer_size
    }

    /// A fresh hashing unit.
    pub fn new(buffer_size: usize, format: PrintFormat, algorithm: Algorithm) -> (r: Self)
        ensures
            r.alg() == algorithm,
            r.fmt() == format,
            r.spec_buffer_size() == buffer_size,
            r.fed() == Seq::<u8>::empty(),
    {
        BufHash { digester: Digester::new(algorithm), format, buffer_size }
    }

    /// The output format in use, for the owner to branch on.
    pub fn format(&self) -> (r: PrintFormat)
        ensures
            r == self.fmt(),
    {
        self.format
    }

    /// The configured read buffer size, for the owner to allocate with.
    pub fn buffer_size(&self) -> (r: usize)
        ensures
            r == self.spec_buffer_size(),
    {
        self.buffer_size
    }

    /// Feeds one chunk of the current unit's content.
    pub fn feed(&mut self, chunk: &[u8])
        ensures
            final(self).alg() == old(self).alg(),
            final(self).fmt() == old(self).fmt(),
            final(self).spec_buffer_size() == old(self).spec_buffer_size(),
            final(self).fed() == old(self).fed() + chunk@,
    {
        self.digester.update(chunk);
    }

    /// Finishes the current unit: renders its digest line for the given
    /// label and resets the digest state for the next unit.
    pub fn finish_line(&mut self, label: &str) -> (line: String)
        ensures
            final(self).alg() == old(self).alg(),
            final(self).fmt() == old(self).fmt(),
            final(self).spec_buffer_size() == old(self).spec_buffer_size(),
            final(self).fed() == Seq::<u8>::empty(),
            line@ == line_for(
                old(self).fmt(),
                hex_of(digest_of(old(self).alg(), old(self).fed())),
                label@,
            ),
    {
        let digest = self.digester.finalize_reset();
        let digest_hex = to_hex(digest.as_slice());
        crate::format::format_line(self.format, digest_hex.as_str(), label)
    }
}

/// The per-worker configuration: each worker builds its own hashing unit
/// from one shared factory, so no hashing state crosses threads.
#[derive(Debug, Clone, Copy)]
pub struct BufHashFactory {
    buffer_size: usize,
    format: PrintFormat,
    algorithm: Algorithm,
}

impl BufHashFactory {
    /// The configured read buffer size.
    pub closed spec fn spec_buffer_size(self) -> usize {
        self.buffer_size
    }

    /// The configured output format.
    pub closed spec fn spec_format(self) -> PrintFormat {
        self.format
    }

    /// The configured algorithm.
    pub closed spec fn spec_algorithm(self) -> Algorithm {
        self.algorithm
    }

    /// Captures the run's hashing configuration.
    pub fn new(buffer_size: usize, format: PrintFormat, algorithm: Algorithm) -> (r: Self)
        ensures
            r.spec_buffer_size() == buffer_size,
            r.spec_format() == format,
            r.spec_algorithm() == algorithm,
    {
        BufHashFactory { buffer_size, format, algorithm }
    }

    /// Builds one worker's hashing unit from the shared configuration.
    pub fn create(&self) -> (r: BufHash)
        ensures
            r.alg() == self.spec_algorithm(),
            r.fmt() == self.spec_format(),
            r.spec_buffer_size() == self.spec_buffer_size(),
            r.fed() == Seq::<u8>::empty(),
    {
        BufHash::new(self.buffer_size, self.format, self.algorithm)
    }
}

} // verus!
