//! The entry verifier and manifest appender.
//!
//! After the archive is finished and reopened, each entry's content is
//! digested and one manifest line per entry is appended, in the order the
//! archive yields its entries.  The caller reads the archive and hands the
//! entries over as plain paths and bytes.

use vstd::prelude::*;

verus! {

use vstd::string::StrSliceExecFns;
use vstd::string::StringSliceAdditionalSpecFns;

use crate::digest::DigestAcc;
use crate::digest::DigestError;
use crate::digest::md5_of;
use crate::manifest::Manifest;
use crate::manifest::line_spec;
use crate::manifest::manifest_line;

/// One archive entry: its recorded path and its byte content.
pub struct Entry {
    pub path: String,
    pub data: Vec<u8>,
}

/// The manifest line a single entry gives rise to.
pub open spec fn entry_line_of(path: Seq<char>, data: Seq<u8>) -> Seq<u8> {
    line_spec(md5_of(data), vstd::utf8::encode_utf8(path))
}

/// The manifest lines of a run's entries, one per entry, in entry order.
pub open spec fn entry_lines_of(entries: Seq<Entry>) -> Seq<Seq<u8>> {
    Seq::new(entries.len(), |i: int| entry_line_of(entries[i].path@, entries[i].data@))
}

/// Digests one entry's content and builds its manifest line.
pub fn entry_digest_line(path: &str, data: &[u8]) -> (r: Result<Vec<u8>, DigestError>)
    ensures
        r matches Ok(line) ==> line@ == entry_line_of(path@, data@),
{
    let mut acc = match DigestAcc::new() {
        Ok(a) => a,
        Err(e) => { return Err(e) },
    };
    match acc.update(data) {
        Ok(u) => u,
        Err(e) => { return Err(e) },
    };
    match acc.finalize() {
        Ok(d) => Ok(manifest_line(d.as_slice(), path)),
        Err(e) => Err(e),
    }
}

/// Appends one manifest line per entry, in entry order.
///
/// On success the manifest has grown by exactly one correct line per entry
/// and by nothing else.  On failure the lines of the entries already
/// processed remain: the manifest is append-only and never rolled back.
pub fn append_entries(manifest: &mut Manifest, entries: &Vec<Entry>) -> (r: Result<
    (),
    DigestError,
>)
    ensures
        r is Ok ==> final(manifest)@ == old(manifest)@ + entry_lines_of(entries@),
        r is Err ==> exists|k: int|
            0 <= k <= entries@.len() && final(manifest)@ == old(manifest)@ + entry_lines_of(
                entries@.take(k),
            ),
{
    let mut i: usize = 0;
    while i < entries.len()
        invariant
            i <= entries@.len(),
            manifest@ == old(manifest)@ + entry_lines_of(entries@.take(i as int)),
        decreases entries@.len() - i,
    {
        let e = &entries[i];
        let line = match entry_digest_line(e.path.as_str(), e.data.as_slice()) {
            Ok(l) => l,
            Err(err) => {
                proof {
                    assert(exists|k: int|
                        0 <= k <= entries@.len() && manifest@ == old(manifest)@ + entry_lines_of(
                            entries@.take(k),
                        )) by {
                        assert(0 <= i as int <= entries@.len() && manifest@ == old(manifest)@
                            + entry_lines_of(entries@.take(i as int)));
                    }
                }
                return Err(err);
            },
        };
        manifest.append(line);
        proof {
            assert(entry_lines_of(entries@.take(i + 1 as int)) =~= entry_lines_of(
                entries@.take(i as int),
            ).push(entry_line_of(entries@[i as int].path@, entries@[i as int].data@)));
            assert(manifest@ =~= old(manifest)@ + entry_lines_of(entries@.take(i + 1 as int)));
        }
        i = i + 1;
    }
    proof {
        assert(entries@.take(entries@.len() as int) =~= entries@);
    }
    Ok(())
}

/// Appends a whole run: first the archive-level line, then one line per
/// entry, in entry order.  The archive line always precedes every entry
/// line of the run; on failure the lines already appended remain.
pub fn append_run(manifest: &mut Manifest, archive_line: Vec<u8>, entries: &Vec<Entry>) -> (r:
    Result<(), DigestError>)
    ensures
        r is Ok ==> final(manifest)@ == old(manifest)@.push(archive_line@) + entry_lines_of(
            entries@,
        ),
        r is Ok ==> final(manifest)@[old(manifest)@.len() as int] == archive_line@,
        r is Err ==> exists|k: int|
            0 <= k <= entries@.len() && final(manifest)@ == old(manifest)@.push(archive_line@)
                + entry_lines_of(entries@.take(k)),
{
    manifest.append(archive_line);
    append_entries(manifest, entries)
}

/// Ordering: among the lines one run appends, the archive-level line stands
/// first, before every entry-level line of that run.
pub proof fn lemma_run_ordering(before: Seq<Seq<u8>>, archive_line: Seq<u8>, entry_lines: Seq<
    Seq<u8>,
>)
    ensures
        (before.push(archive_line) + entry_lines).len() == before.len() + 1 + entry_lines.len(),
        (before.push(archive_line) + entry_lines)[before.len() as int] == archive_line,
        forall|i: int|
            0 <= i < entry_lines.len() ==> (before.push(archive_line) + entry_lines)[before.len()
                + 1 + i] == entry_lines[i],
{
}

/// Removes a leading directory prefix and its separator from an entry path.
pub open spec fn strip_spec(path: Seq<char>, prefix: Seq<char>) -> Seq<char> {
    if prefix.len() > 0 && path.len() > prefix.len() && path.take(prefix.len() as int) == prefix
        && path[prefix.len() as int] == '/' {
        path.skip(prefix.len() as int + 1)
    } else {
        path
    }
}

/// Strips `prefix` and the following separator from the front of `path`,
/// where they are present; otherwise returns the path unchanged.
pub fn strip_path_prefix(path: &str, prefix: &str) -> (r: String)
    ensures
        r@ == strip_spec(path@, prefix@),
{
    let path_len = path.unicode_len();
    let prefix_len = prefix.unicode_len();
    if prefix_len == 0 || path_len <= prefix_len {
        return path.to_owned();
    }
    let mut i: usize = 0;
    while i < prefix_len
        invariant
            i <= prefix_len,
            prefix_len == prefix@.len(),
            path_len == path@.len(),
            path_len > prefix_len,
            forall|j: int| 0 <= j < i ==> path@[j] == prefix@[j],
        decreases prefix_len - i,
    {
        if path.get_char(i) != prefix.get_char(i) {
            assert(path@.take(prefix@.len() as int)[i as int] != prefix@[i as int]);
            return path.to_owned();
        }
        i = i + 1;
    }
    assert(path@.take(prefix@.len() as int) =~= prefix@);
    if path.get_char(prefix_len) == '/' {
        let r = path.substring_char(prefix_len + 1, path_len);
        r.to_owned()
    } else {
        path.to_owned()
    }
}

} // verus!
