//! Packaging the payload into a ZIP archive, built in memory.
//!
//! The archive holds `count` entries named `output1.png`, `output2.png`,
//! and so on, each with the same payload bytes.  The ZIP encoding itself
//! is the zip crate's work, reached through trusted wrappers; what the
//! entries are is stated exactly and proved.

use crate::render::dec_seq;
use crate::render::u64_to_string;
use std::io::Cursor;
use std::io::Write;
use vstd::prelude::*;
use zip::write::ZipWriter;

verus! {

/// The zip crate's writer over an in-memory sink, held opaquely: the
/// verifier sees nothing inside, and speaks of the recorded entries
/// through `archive_entries` and `archive_open`.  (Declaring the writer
/// type itself is not possible, as its generics are bounded by traits the
/// verifier does not know.)
#[verifier::external_body]
pub struct ArchiveWriter {
    inner: ZipWriter<Cursor<Vec<u8>>>,
}

/// The zip crate's error type, opaque to the verifier.
#[verifier::external_type_specification]
#[verifier::external_body]
pub struct ExZipError(zip::result::ZipError);

/// The entries recorded in a writer so far: each a name and the bytes
/// written under it, in the order the entries were started.
pub uninterp spec fn archive_entries(w: ArchiveWriter) -> Seq<(Seq<char>, Seq<u8>)>;

/// Whether the writer has a started entry that bytes can be written to.
pub uninterp spec fn archive_open(w: ArchiveWriter) -> bool;

/// Whether the writer is still open for work: its in-memory sink is in
/// place, neither taken by `finish` nor discarded by a failed operation.
pub uninterp spec fn archive_live(w: ArchiveWriter) -> bool;

/// The largest number of bytes an entry can hold under the plain ZIP
/// size fields, which this library leaves in force.
pub open spec fn max_entry_bytes() -> int {
    u32::MAX as int
}

/// The bytes of the finished archive holding the given entries.  With a
/// fixed compression method and fixed per-entry metadata the encoding
/// depends on the entries alone.
pub uninterp spec fn encoded_archive(entries: Seq<(Seq<char>, Seq<u8>)>) -> Seq<u8>;

/// Which step of building the archive the zip crate refused.
#[derive(Clone, Copy, Debug, PartialEq, Eq, Structural)]
pub enum ArchiveError {
    /// Starting an entry failed.
    StartEntry,
    /// Writing an entry's bytes failed.
    WriteEntry,
    /// Finishing the archive failed.
    Finish,
}

/// Relies on zip's ZipWriter::new: a fresh writer holds no entries, no
/// entry is started, and the sink is in place.
#[verifier::external_body]
fn writer_new() -> (w: ArchiveWriter)
    ensures
        archive_entries(w) == Seq::<(Seq<char>, Seq<u8>)>::empty(),
        !archive_open(w),
        archive_live(w),
{
    ArchiveWriter { inner: ZipWriter::new(Cursor::new(Vec::new())) }
}

/// Relies on zip's ZipWriter::start_file with the default options: on
/// success it closes any started entry and records a new, empty entry
/// under the given name, which bytes can then be written to.  On a
/// writer whose sink is in place the call cannot fail: the in-memory
/// sink accepts every write, and an oversized name is truncated in a
/// header field, not refused.
#[verifier::external_body]
fn writer_start_file(w: &mut ArchiveWriter, name: &str) -> (r: Result<
    (),
    zip::result::ZipError,
>)
    ensures
        r is Ok ==> archive_entries(*final(w)) == archive_entries(*old(w)).push(
            (name@, Seq::<u8>::empty()),
        ) && archive_open(*final(w)) && archive_live(*final(w)),
        archive_live(*old(w)) ==> r is Ok,
{
    w.inner.start_file(name, zip::write::FileOptions::default())
}

/// Relies on Write::write_all on zip's ZipWriter: on success the bytes
/// are appended to the started entry.  With the sink in place the one
/// refusal is the guard on the plain ZIP size fields: an entry grown
/// beyond them without the large-file option.
#[verifier::external_body]
fn writer_write_all(w: &mut ArchiveWriter, buf: &[u8]) -> (r: Result<
    (),
    std::io::Error,
>)
    requires
        archive_open(*old(w)),
        archive_entries(*old(w)).len() > 0,
    ensures
        r is Ok ==> archive_entries(*final(w)) == archive_entries(*old(w)).update(
            archive_entries(*old(w)).len() - 1,
            (
                archive_entries(*old(w)).last().0,
                archive_entries(*old(w)).last().1 + buf@,
            ),
        ) && archive_open(*final(w)) && archive_live(*final(w)),
        archive_live(*old(w)) && archive_entries(*old(w)).last().1.len() + buf@.len()
            <= max_entry_bytes() ==> r is Ok,
{
    w.inner.write_all(buf)
}

/// The std io error type, opaque to the verifier.
#[verifier::external_type_specification]
#[verifier::external_body]
pub struct ExIoError(std::io::Error);

/// Relies on zip's ZipWriter::finish: on success the returned sink holds
/// the encoding of the recorded entries.  With the sink in place and
/// every entry within the plain ZIP size fields the call cannot fail:
/// the central directory goes to the in-memory sink, which accepts every
/// write.
#[verifier::external_body]
fn writer_finish(w: &mut ArchiveWriter) -> (r: Result<Vec<u8>, zip::result::ZipError>)
    ensures
        r is Ok ==> r.unwrap()@ == encoded_archive(archive_entries(*old(w))),
        archive_live(*old(w)) && (forall|j: int|
            0 <= j < archive_entries(*old(w)).len() ==> (#[trigger] archive_entries(
                *old(w),
            )[j]).1.len() <= max_entry_bytes()) ==> r is Ok,
{
    match w.inner.finish() {
        Ok(cursor) => Ok(cursor.into_inner()),
        Err(e) => Err(e),
    }
}

/// The name of the `i`-th archive entry: `output<i>.png`.
pub open spec fn entry_name(i: nat) -> Seq<char> {
    "output"@ + dec_seq(i) + ".png"@
}

/// The entries of an archive packaging `data` `count` times: entry `i`
/// (counted from 1) is named `output<i>.png` and holds `data`.
pub open spec fn payload_entries(data: Seq<u8>, count: nat) -> Seq<(Seq<char>, Seq<u8>)>
    decreases count,
{
    if count == 0 {
        Seq::empty()
    } else {
        payload_entries(data, (count - 1) as nat).push((entry_name(count), data))
    }
}

/// Every entry of `payload_entries(data, count)` holds `data`.
proof fn lemma_payload_entries_hold_data(data: Seq<u8>, count: nat)
    ensures
        payload_entries(data, count).len() == count,
        forall|j: int|
            0 <= j < count ==> (#[trigger] payload_entries(data, count)[j]).1 == data,
    decreases count,
{
    if count > 0 {
        lemma_payload_entries_hold_data(data, (count - 1) as nat);
    }
}

/// Builds the `i`-th entry name, as `entry_name` states it.
pub fn make_entry_name(i: u64) -> (r: String)
    ensures
        r@ == entry_name(i as nat),
{
    let mut s = String::from_str("output");
    let digits = u64_to_string(i);
    s.append(digits.as_str());
    s.append(".png");
    s
}

/// Packages `data` into an in-memory ZIP archive of `count` identical
/// entries named `output1.png` through `output<count>.png`, and returns
/// the archive's bytes.  A payload within the plain ZIP size fields is
/// always packaged; an error can come only from a larger one, and says
/// which step the zip crate refused.
pub fn build_archive(data: &Vec<u8>, count: usize) -> (r: Result<Vec<u8>, ArchiveError>)
    ensures
        r is Ok ==> r.unwrap()@ == encoded_archive(payload_entries(data@, count as nat)),
        data@.len() <= max_entry_bytes() ==> r is Ok,
{
    let mut w = writer_new();
    let mut i: usize = 0;
    while i < count
        invariant
            i <= count,
            archive_live(w),
            archive_entries(w) == payload_entries(data@, i as nat),
        decreases count - i,
    {
        let name = make_entry_name((i + 1) as u64);
        let ghost before = archive_entries(w);
        match writer_start_file(&mut w, name.as_str()) {
            Ok(()) => {},
            Err(_) => {
                return Err(ArchiveError::StartEntry);
            },
        }
        match writer_write_all(&mut w, data.as_slice()) {
            Ok(()) => {},
            Err(_) => {
                return Err(ArchiveError::WriteEntry);
            },
        }
        proof {
            let started = before.push((entry_name((i + 1) as nat), Seq::<u8>::empty()));
            assert(archive_entries(w) == started.update(
                started.len() - 1,
                (started.last().0, started.last().1 + data@),
            ));
            assert(started.last().1 + data@ =~= data@);
            assert(archive_entries(w) =~= before.push((entry_name((i + 1) as nat), data@)));
        }
        i = i + 1;
    }
    proof {
        lemma_payload_entries_hold_data(data@, count as nat);
    }
    match writer_finish(&mut w) {
        Ok(bytes) => Ok(bytes),
        Err(_) => Err(ArchiveError::Finish),
    }
}

} // verus!
