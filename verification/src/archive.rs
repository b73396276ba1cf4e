//! Zip archives of static assets: reading their entries, and planning what
//! to put into the blob store for them.
//!
//! An entry whose stored name has a segment `..` is rejected: nothing is
//! stored for it, and the other entries are stored all the same. So is an
//! entry whose sanitized path could still lead out of the project's namespace.
//!
//! Entries are opened with the empty password: one that is not encrypted
//! needs none, and one that is encrypted under another password cannot be
//! read, which makes the archive invalid.

use crate::errors::Failure;
use crate::paths::{
    escapes, extension, extension_of, key_for, path_traverses, storage_key, traverses,
    within_namespace,
};
use crate::protocol::BlobWrite;
use std::io::Read;
use vstd::prelude::*;

verus! {

/// `zip::ZipArchive`, an open archive over some reader. Nothing of its
/// inside is known here.
#[verifier::external_type_specification]
#[verifier::external_body]
#[verifier::reject_recursive_types(R)]
pub struct ExZipArchive<R>(zip::ZipArchive<R>);

/// `zip::read::ZipFile`, one entry of an open archive. Nothing of its inside
/// is known here.
#[verifier::external_type_specification]
#[verifier::external_body]
pub struct ExZipFile<'a>(zip::read::ZipFile<'a>);

/// `std::io::Cursor`, the reader over bytes in memory that an archive is
/// opened on. Nothing of its inside is known here.
#[verifier::external_type_specification]
#[verifier::external_body]
#[verifier::reject_recursive_types(T)]
pub struct ExCursor<T>(std::io::Cursor<T>);

/// One entry of an archive, as it was read: its stored name, the path that
/// the archive reader made of the name, and its decompressed bytes.
#[derive(Clone, Debug, PartialEq, Eq)]
pub struct RawEntry {
    pub name: String,
    pub path: String,
    pub data: Vec<u8>,
}

/// The mathematical content of a [`BlobWrite`].
pub struct BlobWriteView {
    pub key: Seq<char>,
    pub bytes: Seq<u8>,
    pub content_type: Seq<char>,
}

impl View for BlobWrite {
    type V = BlobWriteView;

    open spec fn view(&self) -> BlobWriteView {
        BlobWriteView { key: self.key@, bytes: self.bytes@, content_type: self.content_type@ }
    }
}

/// The media type that is guessed for a file extension.
pub uninterp spec fn media_type_of_extension(ext: Seq<char>) -> Seq<char>;

/// The content type of the file that a path names: the guess for its
/// extension, and `application/octet-stream` where it has none.
pub open spec fn content_type_of(path: Seq<char>) -> Seq<char> {
    match extension_of(path) {
        Some(ext) => media_type_of_extension(ext),
        None => "application/octet-stream"@,
    }
}

/// Whether nothing is stored for an entry.
pub open spec fn is_rejected(entry: RawEntry) -> bool {
    traverses(entry.name@) || escapes(entry.path@)
}

/// What is stored for an entry that is not rejected.
pub open spec fn write_for(project_id: u128, entry: RawEntry) -> BlobWriteView {
    BlobWriteView {
        key: storage_key(project_id, entry.path@),
        bytes: entry.data@,
        content_type: content_type_of(entry.path@),
    }
}

/// The writes for the entries of an archive, the last of them for the first
/// entry that is not rejected: the order in which they are taken from the
/// end.
pub open spec fn pending_writes(project_id: u128, entries: Seq<RawEntry>) -> Seq<BlobWriteView>
    decreases entries.len(),
{
    if entries.len() == 0 {
        Seq::empty()
    } else {
        let rest = pending_writes(project_id, entries.drop_first());
        if is_rejected(entries[0]) {
            rest
        } else {
            rest.push(write_for(project_id, entries[0]))
        }
    }
}

/// The mathematical content of a list of writes.
pub open spec fn write_views(writes: Seq<BlobWrite>) -> Seq<BlobWriteView> {
    Seq::new(writes.len(), |i: int| writes[i]@)
}

/// Whether every write of a list goes to a key in the project's namespace.
pub open spec fn all_within(writes: Seq<BlobWrite>, project_id: u128) -> bool {
    forall|i: int| 0 <= i < writes.len() ==> within_namespace(#[trigger] writes[i].key@, project_id)
}

/// The names under which the directory of an open archive lists its
/// entries, in the order of the directory.
pub uninterp spec fn archive_names(archive: zip::ZipArchive<std::io::Cursor<Vec<u8>>>) -> Seq<
    Seq<char>,
>;

/// The names that the directory of a zip archive lists, where the bytes are
/// a zip archive with a readable directory.
pub uninterp spec fn zip_names(raw: Seq<u8>) -> Option<Seq<Seq<char>>>;

/// The decompressed bytes of the entries of the zip archive that a byte
/// string is, in the order of its directory; for an entry that cannot be
/// opened or read there are none.
pub uninterp spec fn zip_data(raw: Seq<u8>) -> Seq<Option<Seq<u8>>>;

/// Whether a byte string is a zip archive all of whose entries can be read.
pub open spec fn is_readable(raw: Seq<u8>) -> bool {
    &&& zip_names(raw) is Some
    &&& forall|i: int| 0 <= i < zip_data(raw).len() ==> (#[trigger] zip_data(raw)[i]) is Some
}

/// `zip::ZipArchive::new` on the bytes of an upload: the archive is opened
/// where the bytes end in a readable directory. What it lists and holds
/// depends on the bytes alone, and it holds bytes or none for every entry
/// that it lists.
#[verifier::external_body]
fn archive_open(raw: Vec<u8>) -> (archive: Option<zip::ZipArchive<std::io::Cursor<Vec<u8>>>>)
    ensures
        match zip_names(raw@) {
            Some(names) => {
                &&& archive matches Some(opened)
                &&& archive_names(opened) == names
                &&& archive_data(opened) == zip_data(raw@)
                &&& zip_data(raw@).len() == names.len()
            },
            None => archive.is_none(),
        },
{
    zip::ZipArchive::new(std::io::Cursor::new(raw)).ok()
}

/// `zip::ZipArchive::len`: the number of entries that the directory lists.
#[verifier::external_body]
fn archive_len(archive: &zip::ZipArchive<std::io::Cursor<Vec<u8>>>) -> (n: usize)
    ensures
        n == archive_names(*archive).len(),
{
    archive.len()
}

/// `zip::ZipArchive::by_index_decrypt` and `zip::read::ZipFile::name`: the
/// entry at an index, if it can be opened with the empty password, with the
/// name that the directory lists for it. An entry that is not encrypted needs
/// no password. The entry is found by its place in the directory each time,
/// so that opening one changes nothing of what the archive lists or holds;
/// an entry that is opened has the bytes that the archive holds for it, and
/// one that cannot be opened has none.
#[verifier::external_body]
fn archive_entry<'a>(
    archive: &'a mut zip::ZipArchive<std::io::Cursor<Vec<u8>>>,
    index: usize,
    password: &[u8],
) -> (entry: Option<(String, zip::read::ZipFile<'a>)>)
    requires
        password@.len() == 0,
    ensures
        archive_names(*final(archive)) == archive_names(*old(archive)),
        archive_data(*final(archive)) == archive_data(*old(archive)),
        match entry {
            Some(found) => {
                &&& index < archive_names(*old(archive)).len()
                &&& found.0@ == archive_names(*old(archive))[index as int]
                &&& entry_bytes(found.1) == entry_at(*old(archive), index as int)
            },
            None => entry_at(*old(archive), index as int) is None,
        },
{
    match archive.by_index_decrypt(index, password) {
        Ok(Ok(file)) => Some((file.name().to_string(), file)),
        _ => None,
    }
}

/// `std::io::Read::read_to_end` on an entry that was opened and not yet
/// read: its decompressed bytes, if they can be read.
#[verifier::external_body]
fn entry_data(file: &mut zip::read::ZipFile<'_>) -> (data: Option<Vec<u8>>)
    ensures
        match entry_bytes(*old(file)) {
            Some(bytes) => data matches Some(read) && read@ == bytes,
            None => data.is_none(),
        },
{
    let mut data = Vec::new();
    file.read_to_end(&mut data).ok()?;
    Some(data)
}

/// Reads one entry of an archive: the name that the directory lists for it,
/// the reader's path for it, and its decompressed bytes.
///
/// There is an entry to return exactly where the archive holds bytes at the
/// index; the archive lists and holds afterwards what it did before.
fn read_entry(archive: &mut zip::ZipArchive<std::io::Cursor<Vec<u8>>>, index: usize) -> (entry:
    Option<RawEntry>)
    ensures
        archive_names(*final(archive)) == archive_names(*old(archive)),
        archive_data(*final(archive)) == archive_data(*old(archive)),
        match entry_at(*old(archive), index as int) {
            Some(bytes) => {
                &&& entry matches Some(found)
                &&& index < archive_names(*old(archive)).len()
                &&& found.name@ == archive_names(*old(archive))[index as int]
                &&& found.data@ == bytes
                &&& !escapes(found.path@)
            },
            None => entry.is_none(),
        },
{
    let password: Vec<u8> = Vec::new();
    let (name, mut file) = archive_entry(archive, index, password.as_slice())?;
    let path = entry_path(&file);
    let data = entry_data(&mut file)?;
    Some(RawEntry { name, path, data })
}

/// `zip::read::ZipFile::sanitized_name`: the reader's path for the entry,
/// as text. The reader keeps the normal segments of the stored name only and
/// joins them anew, so that the path is relative and has no segment `..`,
/// whatever separator the system has.
#[verifier::external_body]
#[allow(deprecated)]
fn entry_path(file: &zip::read::ZipFile<'_>) -> (path: String)
    ensures
        !escapes(path@),
{
    file.sanitized_name().as_path().display().to_string()
}

/// The decompressed bytes of the entries of an open archive, in the order of
/// its directory; for an entry that cannot be opened or read there are none.
pub uninterp spec fn archive_data(archive: zip::ZipArchive<std::io::Cursor<Vec<u8>>>) -> Seq<
    Option<Seq<u8>>,
>;

/// The decompressed bytes of an entry that was opened and not yet read, or
/// nothing where they cannot be read.
pub uninterp spec fn entry_bytes(file: zip::read::ZipFile<'_>) -> Option<Seq<u8>>;

/// The decompressed bytes of the entry at an index of an open archive, or
/// nothing where the archive has no such entry or it cannot be opened or
/// read.
pub open spec fn entry_at(archive: zip::ZipArchive<std::io::Cursor<Vec<u8>>>, index: int)
    -> Option<Seq<u8>> {
    if 0 <= index < archive_data(archive).len() {
        archive_data(archive)[index]
    } else {
        None
    }
}

/// `mime_guess::from_ext` and `MimeGuess::first_or` with
/// `mime::APPLICATION_OCTET_STREAM`, as text: the first media type listed
/// for the extension. For an empty extension nothing is listed.
#[verifier::external_body]
fn guess_media_type(ext: &str) -> (media_type: String)
    ensures
        media_type@ == media_type_of_extension(ext@),
        ext@.len() == 0 ==> media_type@ == "application/octet-stream"@,
{
    mime_guess::from_ext(ext).first_or(mime::APPLICATION_OCTET_STREAM).to_string()
}

/// Whether `entries` are the entries of the archive that `raw` is: as many
/// as its directory lists, in its order, each under its stored name and with
/// its decompressed bytes, and each with a path that stays where it is put.
pub open spec fn entries_of(entries: Seq<RawEntry>, raw: Seq<u8>) -> bool {
    &&& zip_names(raw) matches Some(names)
    &&& entries.len() == names.len()
    &&& entries.len() == zip_data(raw).len()
    &&& forall|i: int|
        0 <= i < entries.len() ==> {
            &&& (#[trigger] entries[i]).name@ == names[i]
            &&& zip_data(raw)[i] == Some(entries[i].data@)
            &&& !escapes(entries[i].path@)
        }
}

/// Reads all entries of an uploaded archive, in the order of its directory.
/// It succeeds exactly where the bytes are an archive all of whose entries
/// can be read; bytes that are no archive, or an entry that cannot be read,
/// make the whole upload invalid.
pub fn extract(raw: Vec<u8>) -> (entries: Result<Vec<RawEntry>, Failure>)
    ensures
        entries is Ok <==> is_readable(raw@),
        match entries {
            Ok(entries) => entries_of(entries@, raw@),
            Err(failure) => failure == Failure::InvalidArchive,
        },
{
    let ghost bytes = raw@;
    let mut archive = match archive_open(raw) {
        Some(archive) => archive,
        None => {
            return Err(Failure::InvalidArchive);
        },
    };
    let ghost names = archive_names(archive);
    let ghost data = archive_data(archive);
    let n = archive_len(&archive);
    let mut entries: Vec<RawEntry> = Vec::new();
    let mut i: usize = 0;
    while i < n
        invariant
            i <= n,
            n == names.len(),
            n == data.len(),
            bytes == raw@,
            zip_names(bytes) == Some(names),
            zip_data(bytes) == data,
            archive_names(archive) == names,
            archive_data(archive) == data,
            entries.len() == i,
            forall|j: int|
                0 <= j < i ==> {
                    &&& (#[trigger] entries[j]).name@ == names[j]
                    &&& data[j] == Some(entries[j].data@)
                    &&& !escapes(entries[j].path@)
                },
        decreases n - i,
    {
        match read_entry(&mut archive, i) {
            Some(entry) => entries.push(entry),
            None => {
                assert(zip_data(bytes)[i as int] is None);
                return Err(Failure::InvalidArchive);
            },
        }
        i = i + 1;
    }
    proof {
        assert forall|k: int| 0 <= k < zip_data(bytes).len() implies (#[trigger] zip_data(
            bytes,
        )[k]) is Some by {
            assert(data[k] == Some(entries[k].data@));
        }
    }
    Ok(entries)
}

/// The content type of the file that a path names.
pub fn content_type(path: &str) -> (media_type: String)
    ensures
        media_type@ == content_type_of(path@),
{
    match extension(path) {
        Some(ext) => guess_media_type(ext),
        None => {
            proof {
                reveal_strlit("");
            }
            guess_media_type("")
        },
    }
}

/// What is stored for one entry, if anything.
pub fn plan_entry(project_id: u128, entry: RawEntry) -> (write: Option<BlobWrite>)
    ensures
        is_rejected(entry) ==> write.is_none(),
        !is_rejected(entry) ==> (write matches Some(w) && w@ == write_for(project_id, entry)
            && within_namespace(w.key@, project_id)),
{
    if path_traverses(entry.name.as_str()) {
        return None;
    }
    match key_for(project_id, entry.path.as_str()) {
        None => None,
        Some(key) => {
            let content_type = content_type(entry.path.as_str());
            Some(BlobWrite { key, bytes: entry.data, content_type })
        },
    }
}

/// What is stored for the entries of an archive. The writes come out in the
/// order in which they are taken from the end of the list: the last is for
/// the first entry that is not rejected.
pub fn plan_writes(project_id: u128, entries: Vec<RawEntry>) -> (writes: Vec<BlobWrite>)
    ensures
        write_views(writes@) == pending_writes(project_id, entries@),
        all_within(writes@, project_id),
{
    let ghost all = entries@;
    let mut entries = entries;
    let mut writes: Vec<BlobWrite> = Vec::new();
    assert(all.skip(all.len() as int) =~= Seq::<RawEntry>::empty());
    assert(write_views(writes@) =~= pending_writes(project_id, all.skip(all.len() as int)));
    while entries.len() > 0
        invariant
            entries@ == all.take(entries.len() as int),
            entries.len() <= all.len(),
            write_views(writes@) == pending_writes(project_id, all.skip(entries.len() as int)),
            all_within(writes@, project_id),
        decreases entries.len(),
    {
        let ghost k = entries.len() as int;
        let ghost before = writes@;
        let entry = entries.pop().unwrap();
        assert(entry == all[k - 1]);
        assert(entries@ =~= all.take(k - 1));
        assert(all.skip(k - 1).drop_first() =~= all.skip(k));
        assert(all.skip(k - 1)[0] == entry);
        match plan_entry(project_id, entry) {
            Some(write) => {
                writes.push(write);
                assert(write_views(writes@) =~= write_views(before).push(write@));
            },
            None => {},
        }
    }
    assert(all.skip(0) =~= all);
    writes
}

/// No write ever leaves the project's namespace: whatever the entries of an
/// archive are called, every write that is planned for them goes to a key
/// that begins with the project's identifier and a slash and continues with
/// a relative path without a segment `..`. An entry whose stored name has
/// such a segment gets no write at all.
pub proof fn law_writes_stay_within_namespace(project_id: u128, entries: Seq<RawEntry>)
    ensures
        pending_writes(project_id, entries).len() <= entries.len(),
        forall|i: int|
            0 <= i < pending_writes(project_id, entries).len() ==> within_namespace(
                (#[trigger] pending_writes(project_id, entries)[i]).key,
                project_id,
            ),
        entries.len() == 1 && traverses(entries[0].name@) ==> pending_writes(project_id, entries).len()
            == 0,
    decreases entries.len(),
{
    if entries.len() > 0 {
        law_writes_stay_within_namespace(project_id, entries.drop_first());
        if !is_rejected(entries[0]) {
            assert(write_for(project_id, entries[0]).key == storage_key(project_id, entries[0].path@));
        }
        if entries.len() == 1 {
            assert(entries.drop_first().len() == 0);
        }
    }
}

} // verus!
