//! The hash-through sink.
//!
//! The sink sits between the archive encoder and the output file.  The
//! caller owns the file; after each underlying write it hands the sink the
//! bytes the file actually accepted, so that no byte is hashed without
//! reaching storage and no byte reaches storage unhashed.  Finishing the
//! sink yields the archive-level manifest line.

use vstd::prelude::*;

verus! {

use vstd::string::StringSliceAdditionalSpecFns;

use crate::digest::DigestAcc;
use crate::digest::DigestError;
use crate::digest::md5_of;
use crate::manifest::line_spec;
use crate::manifest::manifest_line;

/// What a sink is: the bytes recorded so far and the archive's label.
pub struct SinkView {
    pub recorded: Seq<u8>,
    pub label: Seq<char>,
}

/// Records every byte the output file accepts into a running digest.
pub struct HashSink {
    acc: DigestAcc,
    name: String,
}

impl View for HashSink {
    type V = SinkView;

    closed spec fn view(&self) -> SinkView {
        SinkView { recorded: self.acc@, label: self.name@ }
    }
}

impl HashSink {
    /// A fresh sink for an output file of the given name; nothing recorded.
    pub fn new(name: String) -> (r: Result<HashSink, DigestError>)
        ensures
            r matches Ok(s) ==> s@.recorded == Seq::<u8>::empty() && s@.label == name@,
    {
        match DigestAcc::new() {
            Ok(acc) => Ok(HashSink { acc, name }),
            Err(e) => Err(e),
        }
    }

    /// Records bytes the output file accepted.  The caller must pass
    /// exactly the accepted prefix of each write, and retry the rest.
    pub fn record_written(&mut self, accepted: &[u8]) -> (r: Result<(), DigestError>)
        ensures
            final(self)@.label == old(self)@.label,
            r is Ok ==> final(self)@.recorded == old(self)@.recorded + accepted@,
    {
        self.acc.update(accepted)
    }

    /// Finishes the stream: the archive-level manifest line, carrying the
    /// digest of exactly the recorded bytes and the archive's name.
    pub fn finish(self) -> (r: Result<Vec<u8>, DigestError>)
        ensures
            r matches Ok(line) ==> line@ == line_spec(
                md5_of(self@.recorded),
                self.label_bytes(),
            ),
    {
        let HashSink { acc, name } = self;
        match acc.finalize() {
            Ok(d) => Ok(manifest_line(d.as_slice(), name.as_str())),
            Err(e) => Err(e),
        }
    }

    /// The label as the bytes that appear in the manifest line.
    pub open spec fn label_bytes(&self) -> Seq<u8> {
        vstd::utf8::encode_utf8(self@.label)
    }
}

/// The bytes stored at the output path once the file has accepted the
/// given chunks in order.
pub open spec fn stored_after(chunks: Seq<Seq<u8>>) -> Seq<u8>
    decreases chunks.len(),
{
    if chunks.len() == 0 {
        Seq::<u8>::empty()
    } else {
        stored_after(chunks.drop_last()) + chunks.last()
    }
}

/// The bytes a sink has recorded once it was handed the same chunks in order.
pub open spec fn recorded_after(chunks: Seq<Seq<u8>>) -> Seq<u8>
    decreases chunks.len(),
{
    if chunks.len() == 0 {
        Seq::<u8>::empty()
    } else {
        recorded_after(chunks.drop_last()) + chunks.last()
    }
}

/// Digest correctness: a sink that was handed exactly the chunks the output
/// file accepted has recorded exactly the stored bytes, so the manifest line
/// it finishes with carries the digest of the bytes found at the output path.
pub proof fn lemma_digest_correct(chunks: Seq<Seq<u8>>, label: Seq<u8>)
    ensures
        recorded_after(chunks) == stored_after(chunks),
        line_spec(md5_of(recorded_after(chunks)), label) == line_spec(
            md5_of(stored_after(chunks)),
            label,
        ),
    decreases chunks.len(),
{
    if chunks.len() > 0 {
        lemma_digest_correct(chunks.drop_last(), label);
    }
}

/// Partial-write safety: when a write stores only the first `n` of the
/// requested bytes and the caller retries the remainder, recording the two
/// accepted pieces in turn records exactly the whole buffer, so digest and
/// stored bytes stay in step.
pub proof fn lemma_partial_write_retry(recorded: Seq<u8>, buf: Seq<u8>, n: int)
    requires
        0 <= n <= buf.len(),
    ensures
        (recorded + buf.take(n)) + buf.skip(n) == recorded + buf,
{
    assert((recorded + buf.take(n)) + buf.skip(n) =~= recorded + buf);
}

} // verus!
