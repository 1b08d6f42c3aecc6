//! The manifest: an append-only sequence of digest lines.
//!
//! Each line reads `<lowercase-hex-digest><two spaces><label><newline>`,
//! where the label is either the archive's file name or an entry path.

use vstd::prelude::*;

verus! {

use vstd::string::StrSliceExecFns;
use vstd::string::StringSliceAdditionalSpecFns;

/// The ASCII byte of one lowercase hexadecimal digit.
pub open spec fn hex_digit(n: u8) -> u8
    recommends
        n < 16,
{
    if n < 10 {
        (48 + n) as u8
    } else {
        (87 + n) as u8
    }
}

/// The lowercase hexadecimal encoding of a byte sequence: two digits per byte.
pub open spec fn hex_bytes(data: Seq<u8>) -> Seq<u8> {
    Seq::new(
        2 * data.len(),
        |i: int|
            if i % 2 == 0 {
                hex_digit(data[i / 2] / 16)
            } else {
                hex_digit(data[i / 2] % 16)
            },
    )
}

/// One manifest line: the hex digest, two spaces, the label, a newline.
pub open spec fn line_spec(digest: Seq<u8>, label: Seq<u8>) -> Seq<u8> {
    hex_bytes(digest) + seq![32u8, 32u8] + label + seq![10u8]
}

fn hex_digit_byte(n: u8) -> (r: u8)
    requires
        n < 16,
    ensures
        r == hex_digit(n),
{
    if n < 10 {
        48 + n
    } else {
        87 + n
    }
}

/// Encodes bytes as lowercase hexadecimal text.
pub fn hex_encode(data: &[u8]) -> (r: Vec<u8>)
    ensures
        r@ == hex_bytes(data@),
{
    let mut out: Vec<u8> = Vec::new();
    let mut i: usize = 0;
    while i < data.len()
        invariant
            i <= data@.len(),
            out@.len() == 2 * i,
            forall|j: int| 0 <= j < out@.len() ==> out@[j] == hex_bytes(data@)[j],
        decreases data@.len() - i,
    {
        let b = data[i];
        out.push(hex_digit_byte(b / 16));
        out.push(hex_digit_byte(b % 16));
        i = i + 1;
    }
    assert(out@ =~= hex_bytes(data@));
    out
}

/// Builds one manifest line for a digest and a label.
pub fn manifest_line(digest: &[u8], label: &str) -> (r: Vec<u8>)
    ensures
        r@ == line_spec(digest@, label.spec_bytes()),
{
    let mut out = hex_encode(digest);
    out.push(32u8);
    out.push(32u8);
    let mut label_bytes = label.as_bytes_vec();
    out.append(&mut label_bytes);
    out.push(10u8);
    assert(out@ =~= line_spec(digest@, label.spec_bytes()));
    out
}

/// A manifest under construction: a sequence of lines that only grows.
///
/// The caller mirrors every appended line to the persisted manifest file,
/// which is opened for append and never truncated or rewritten.
pub struct Manifest {
    lines: Vec<Vec<u8>>,
}

impl View for Manifest {
    type V = Seq<Seq<u8>>;

    closed spec fn view(&self) -> Seq<Seq<u8>> {
        self.lines.deep_view()
    }
}

impl Manifest {
    pub fn new() -> (r: Manifest)
        ensures
            r@ == Seq::<Seq<u8>>::empty(),
    {
        let m = Manifest { lines: Vec::new() };
        assert(m@ =~= Seq::<Seq<u8>>::empty());
        m
    }

    /// Appends one line; every earlier line stays where it was.
    pub fn append(&mut self, line: Vec<u8>)
        ensures
            final(self)@ == old(self)@.push(line@),
    {
        let ghost pre = self.lines.deep_view();
        self.lines.push(line);
        assert(self.lines.deep_view() =~~= pre.push(line@));
    }

    pub fn len(&self) -> (r: usize)
        ensures
            r == self@.len(),
    {
        self.lines.len()
    }

    pub fn line(&self, i: usize) -> (r: &Vec<u8>)
        requires
            i < self@.len(),
        ensures
            r@ == self@[i as int],
    {
        &self.lines[i]
    }
}

/// Append-only: lines appended by a later run come after, and never disturb,
/// the lines an earlier run left in the manifest; the result holds exactly
/// the lines of both runs.
pub proof fn lemma_append_only(before: Seq<Seq<u8>>, first_run: Seq<Seq<u8>>, second_run: Seq<Seq<u8>>)
    ensures
        (before + first_run) + second_run == before + (first_run + second_run),
        ((before + first_run) + second_run).take((before + first_run).len() as int) == before
            + first_run,
        forall|i: int|
            0 <= i < (before + first_run).len() ==> ((before + first_run) + second_run)[i] == (
            before + first_run)[i],
{
    assert((before + first_run) + second_run =~= before + (first_run + second_run));
    assert(((before + first_run) + second_run).take((before + first_run).len() as int) =~= before
        + first_run);
}

} // verus!
