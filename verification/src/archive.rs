//! The report archiver: serialize a walked directory tree into a single
//! compressed container whose file entries are AES-256-encrypted under the
//! caller's password.
//!
//! The directory walk and the final file write happen outside the core. This
//! module relativizes the walked paths against the report root, drives the
//! archive writer over an in-memory buffer, and accounts exactly for the
//! entries that end up in the archive: their names, their decoded content
//! bytes, and the password each is encrypted under (none for content-free
//! directory entries, which the zip crate itself stores unencrypted).

use vstd::prelude::*;

use crate::errors::LauncherError;
use crate::selector::starts_with;

verus! {

/// One entry of the walked report tree, as plain values: its full path, in
/// the forward-slash form of the walked root, whether it is a directory, and
/// its bytes (empty for a directory).
pub struct WalkedEntry {
    /// The full path of the entry, starting with the walked root.
    pub path: String,
    /// Whether the entry is a directory.
    pub is_dir: bool,
    /// The file's bytes; empty for a directory.
    pub content: Vec<u8>,
}

/// The archive writer of the `zip` crate over an in-memory cursor, held
/// opaquely: Verus sees its entries only through `zip_entries`.
#[verifier::external_body]
pub struct ArchiveWriter {
    inner: zip::ZipWriter<std::io::Cursor<Vec<u8>>>,
}

/// The error type of the `zip` crate; mapped to `LauncherError` by callers.
#[verifier::external_type_specification]
#[verifier::external_body]
pub struct ExZipError(zip::result::ZipError);

/// The error type of `std::io`; mapped to `LauncherError` by callers.
#[verifier::external_type_specification]
#[verifier::external_body]
pub struct ExIoError(std::io::Error);

/// The entries written into the archive so far, in order: each entry's name,
/// its decoded content bytes, and the password it is encrypted under (none
/// for a directory entry).
pub uninterp spec fn zip_entries(w: ArchiveWriter) -> Seq<
    (Seq<char>, Seq<u8>, Option<Seq<char>>),
>;

/// Relies on `zip::ZipWriter::new` over a fresh in-memory cursor: a new
/// archive holds no entries.
#[verifier::external_body]
fn zip_writer_new() -> (w: ArchiveWriter)
    ensures
        zip_entries(w) == Seq::<(Seq<char>, Seq<u8>, Option<Seq<char>>)>::empty(),
{
    ArchiveWriter { inner: zip::ZipWriter::new(std::io::Cursor::new(Vec::new())) }
}

/// The name under which the archive stores a directory entry: the given name
/// with a trailing slash added when missing.
pub open spec fn dir_entry_name(name: Seq<char>) -> Seq<char> {
    if name.len() > 0 && (name.last() == '/' || name.last() == '\\') {
        name
    } else {
        name + "/"@
    }
}

/// Relies on `zip::ZipWriter::add_directory`: appends one directory entry,
/// named `name` with a trailing slash added when missing. Directory entries
/// carry no content; the crate stores them uncompressed and unencrypted
/// itself. On error nothing is stated.
#[verifier::external_body]
fn zip_add_directory(w: &mut ArchiveWriter, name: &str) -> (r: Result<
    (),
    zip::result::ZipError,
>)
    ensures
        r is Ok ==> zip_entries(*final(w)) == zip_entries(*old(w)).push(
            (dir_entry_name(name@), Seq::<u8>::empty(), None::<Seq<char>>),
        ),
{
    w.inner.add_directory(name, zip::write::SimpleFileOptions::default())
}

/// Relies on `zip::ZipWriter::start_file`: appends one file entry named
/// `name`, with no content yet, deflate-compressed and AES-256-encrypted
/// under `password` with a random salt; an entry of the same name as an
/// existing one is refused. On error nothing is stated.
#[verifier::external_body]
fn zip_start_file(w: &mut ArchiveWriter, name: &str, password: &str) -> (r: Result<
    (),
    zip::result::ZipError,
>)
    ensures
        r is Ok ==> zip_entries(*final(w)) == zip_entries(*old(w)).push(
            (name@, Seq::<u8>::empty(), Some(password@)),
        ),
{
    let opts = zip::write::SimpleFileOptions::default().compression_method(
        zip::CompressionMethod::Deflated,
    ).large_file(true).with_aes_encryption(zip::AesMode::Aes256, password);
    w.inner.start_file(name, opts)
}

/// Relies on `std::io::Write::write_all` on the zip writer: the bytes join
/// the decoded content of the entry most recently started, which must exist
/// (writing with no entry started is refused); the entries' names and
/// passwords are unchanged. On error nothing is stated.
#[verifier::external_body]
fn zip_write_data(w: &mut ArchiveWriter, data: &Vec<u8>) -> (r: Result<(), std::io::Error>)
    ensures
        r is Ok && data@.len() == 0 ==> zip_entries(*final(w)) == zip_entries(*old(w)),
        r is Ok && data@.len() > 0 ==> zip_entries(*old(w)).len() > 0 && zip_entries(*final(w))
            == zip_entries(*old(w)).update(
            zip_entries(*old(w)).len() - 1,
            (
                zip_entries(*old(w)).last().0,
                zip_entries(*old(w)).last().1 + data@,
                zip_entries(*old(w)).last().2,
            ),
        ),
{
    std::io::Write::write_all(&mut w.inner, data.as_slice())
}

/// Relies on `zip::ZipWriter::finish` and `Cursor::into_inner`: finalizes the
/// central directory and hands back the raw archive bytes. Nothing is stated
/// of the bytes: the random AES salts make them differ between runs.
#[verifier::external_body]
fn zip_finish(w: ArchiveWriter) -> (r: Result<Vec<u8>, zip::result::ZipError>)
{
    match w.inner.finish() {
        Ok(cursor) => Ok(cursor.into_inner()),
        Err(e) => Err(e),
    }
}

/// `path` lies below `base`: it starts with `base` followed by a slash.
pub open spec fn under_base(base: Seq<char>, path: Seq<char>) -> bool {
    starts_with(path, base + "/"@)
}

/// The `base`-relative form of `path`.
pub open spec fn rel_under(base: Seq<char>, path: Seq<char>) -> Seq<char> {
    path.subrange(base.len() as int + 1, path.len() as int)
}

/// Strip the `base` root from `path`: the part after `base` and its slash, or
/// nothing when `path` does not lie below `base` (in particular for the root
/// itself).
pub fn strip_base(base: &str, path: &str) -> (r: Option<String>)
    ensures
        under_base(base@, path@) ==> (r matches Some(rel) && rel@ == rel_under(base@, path@)),
        !under_base(base@, path@) ==> r is None,
{
    let mut prefix = String::from_str(base);
    prefix.append("/");
    proof {
        reveal_strlit("/");
        assert(prefix@ =~= base@ + "/"@);
    }
    if crate::selector::str_starts_with(path, prefix.as_str()) {
        let n: usize = path.unicode_len();
        let b: usize = prefix.unicode_len();
        let rel = path.substring_char(b, n);
        let out = String::from_str(rel);
        proof {
            assert(b == base@.len() + 1);
            assert(out@ =~= rel_under(base@, path@));
        }
        Some(out)
    } else {
        None
    }
}

/// The archive entry one walked entry becomes: a content-free unencrypted
/// directory entry with the slash convention applied, or a file entry holding
/// the walked bytes, encrypted under the password.
pub open spec fn archived_entry(base: Seq<char>, e: WalkedEntry, password: Seq<char>) -> (
    Seq<char>,
    Seq<u8>,
    Option<Seq<char>>,
) {
    if e.is_dir {
        (dir_entry_name(rel_under(base, e.path@)), Seq::<u8>::empty(), None::<Seq<char>>)
    } else {
        (rel_under(base, e.path@), e.content@, Some(password))
    }
}

/// The archive entries of the walked entries at positions `i` and later, in
/// order, skipping entries that do not lie below `base` (the walked root
/// itself among them).
pub open spec fn archived_entries_from(
    base: Seq<char>,
    ws: Seq<WalkedEntry>,
    password: Seq<char>,
    i: int,
) -> Seq<(Seq<char>, Seq<u8>, Option<Seq<char>>)>
    decreases ws.len() - i,
{
    if i < 0 || i >= ws.len() {
        Seq::empty()
    } else {
        let rest = archived_entries_from(base, ws, password, i + 1);
        if under_base(base, ws[i].path@) {
            seq![archived_entry(base, ws[i], password)] + rest
        } else {
            rest
        }
    }
}

/// The archive entries of all walked entries, in walk order.
pub open spec fn archived_entries(
    base: Seq<char>,
    ws: Seq<WalkedEntry>,
    password: Seq<char>,
) -> Seq<(Seq<char>, Seq<u8>, Option<Seq<char>>)> {
    archived_entries_from(base, ws, password, 0)
}

/// Write every walked entry below `base` into the archive: a directory entry
/// for each directory, an encrypted file entry holding exactly the walked
/// bytes for each file, each under its `base`-relative name, in walk order.
/// With nothing to write, no outside call decides and success is owed. Any
/// write failure aborts with `ArchiveWriteFailed`.
pub fn write_walked(
    w: &mut ArchiveWriter,
    base: &str,
    walked: &Vec<WalkedEntry>,
    password: &str,
) -> (r: Result<(), LauncherError>)
    ensures
        r is Ok ==> zip_entries(*final(w)) == zip_entries(*old(w)) + archived_entries(
            base@,
            walked@,
            password@,
        ),
        archived_entries(base@, walked@, password@).len() == 0 ==> r is Ok,
        r matches Err(e) ==> e == LauncherError::ArchiveWriteFailed,
{
    let ghost mut taken: Seq<(Seq<char>, Seq<u8>, Option<Seq<char>>)> = Seq::empty();
    let mut i: usize = 0;
    proof {
        assert(zip_entries(*w) =~= zip_entries(*old(w)) + taken);
    }
    while i < walked.len()
        invariant
            i <= walked@.len(),
            zip_entries(*w) == zip_entries(*old(w)) + taken,
            archived_entries(base@, walked@, password@) == taken + archived_entries_from(
                base@,
                walked@,
                password@,
                i as int,
            ),
        decreases walked@.len() - i,
    {
        match strip_base(base, walked[i].path.as_str()) {
            None => {
                proof {
                    assert(archived_entries_from(base@, walked@, password@, i as int)
                        == archived_entries_from(base@, walked@, password@, i as int + 1));
                }
            },
            Some(rel) => {
                let ghost ent = archived_entry(base@, walked@[i as int], password@);
                proof {
                    assert(archived_entries_from(base@, walked@, password@, i as int) =~= seq![ent]
                        + archived_entries_from(base@, walked@, password@, i as int + 1));
                    assert(archived_entries(base@, walked@, password@).len() > 0);
                }
                if walked[i].is_dir {
                    match zip_add_directory(w, rel.as_str()) {
                        Ok(()) => (),
                        Err(_) => {
                            return Err(LauncherError::ArchiveWriteFailed);
                        },
                    }
                    proof {
                        assert(zip_entries(*w) =~= zip_entries(*old(w)) + taken.push(ent));
                    }
                } else {
                    match zip_start_file(w, rel.as_str(), password) {
                        Ok(()) => (),
                        Err(_) => {
                            return Err(LauncherError::ArchiveWriteFailed);
                        },
                    }
                    let ghost mid = zip_entries(*w);
                    match zip_write_data(w, &walked[i].content) {
                        Ok(()) => (),
                        Err(_) => {
                            return Err(LauncherError::ArchiveWriteFailed);
                        },
                    }
                    proof {
                        if walked@[i as int].content@.len() == 0 {
                            assert(ent.1 =~= Seq::<u8>::empty());
                            assert(zip_entries(*w) =~= zip_entries(*old(w)) + taken.push(ent));
                        } else {
                            assert(mid.last().1 + walked@[i as int].content@ =~= walked@[
                                i as int
                            ].content@);
                            assert(zip_entries(*w) =~= (zip_entries(*old(w)) + taken).push(ent));
                            assert(zip_entries(*w) =~= zip_entries(*old(w)) + taken.push(ent));
                        }
                    }
                }
                proof {
                    assert(taken + archived_entries_from(base@, walked@, password@, i as int)
                        =~= taken.push(ent) + archived_entries_from(
                        base@,
                        walked@,
                        password@,
                        i as int + 1,
                    ));
                    taken = taken.push(ent);
                }
            },
        }
        i += 1;
    }
    proof {
        assert(archived_entries_from(base@, walked@, password@, walked@.len() as int) =~= Seq::<
            (Seq<char>, Seq<u8>, Option<Seq<char>>),
        >::empty());
        assert(zip_entries(*w) =~= zip_entries(*old(w)) + archived_entries(
            base@,
            walked@,
            password@,
        ));
    }
    Ok(())
}

/// Serialize the walked report tree into the bytes of one encrypted,
/// compressed archive. `src_is_dir` reports whether the walked root is a
/// directory; a non-directory source is refused with `InvalidArchiveSource`
/// before anything is written, and any failure while writing surfaces as
/// `ArchiveWriteFailed` with no archive bytes handed out.
pub fn build_report_archive(
    src_is_dir: bool,
    base: &str,
    walked: &Vec<WalkedEntry>,
    password: &str,
) -> (r: Result<Vec<u8>, LauncherError>)
    ensures
        !src_is_dir ==> (r matches Err(e) && e == LauncherError::InvalidArchiveSource),
        src_is_dir ==> (r matches Err(e) ==> e == LauncherError::ArchiveWriteFailed),
{
    if !src_is_dir {
        return Err(LauncherError::InvalidArchiveSource);
    }
    let mut w = zip_writer_new();
    match write_walked(&mut w, base, walked, password) {
        Ok(()) => (),
        Err(_) => {
            return Err(LauncherError::ArchiveWriteFailed);
        },
    }
    match zip_finish(w) {
        Ok(bytes) => Ok(bytes),
        Err(_) => Err(LauncherError::ArchiveWriteFailed),
    }
}

/// Helper induction for `lemma_archive_location_independent`, from position
/// `i` on.
proof fn lemma_location_independent_from(
    base1: Seq<char>,
    ws1: Seq<WalkedEntry>,
    base2: Seq<char>,
    ws2: Seq<WalkedEntry>,
    password: Seq<char>,
    i: int,
)
    requires
        ws1.len() == ws2.len(),
        0 <= i <= ws1.len(),
        forall|j: int|
            0 <= j < ws1.len() ==> under_base(base1, ws1[j].path@) == under_base(
                base2,
                ws2[j].path@,
            ),
        forall|j: int|
            0 <= j < ws1.len() && under_base(base1, ws1[j].path@) ==> rel_under(
                base1,
                ws1[j].path@,
            ) == rel_under(base2, ws2[j].path@),
        forall|j: int|
            0 <= j < ws1.len() ==> ws1[j].is_dir == ws2[j].is_dir && ws1[j].content@
                == ws2[j].content@,
    ensures
        archived_entries_from(base1, ws1, password, i) == archived_entries_from(
            base2,
            ws2,
            password,
            i,
        ),
    decreases ws1.len() - i,
{
    if i < ws1.len() {
        lemma_location_independent_from(base1, ws1, base2, ws2, password, i + 1);
        if under_base(base1, ws1[i].path@) {
            assert(archived_entry(base1, ws1[i], password) == archived_entry(
                base2,
                ws2[i],
                password,
            ));
        }
    }
}

/// The archive's decoded entries depend only on the tree below the walked
/// root — each entry's relative path, kind and bytes — and the password,
/// never on where the root lies on disk: two walks that agree below their
/// roots are archived identically.
pub proof fn lemma_archive_location_independent(
    base1: Seq<char>,
    ws1: Seq<WalkedEntry>,
    base2: Seq<char>,
    ws2: Seq<WalkedEntry>,
    password: Seq<char>,
)
    requires
        ws1.len() == ws2.len(),
        forall|j: int|
            0 <= j < ws1.len() ==> under_base(base1, ws1[j].path@) == under_base(
                base2,
                ws2[j].path@,
            ),
        forall|j: int|
            0 <= j < ws1.len() && under_base(base1, ws1[j].path@) ==> rel_under(
                base1,
                ws1[j].path@,
            ) == rel_under(base2, ws2[j].path@),
        forall|j: int|
            0 <= j < ws1.len() ==> ws1[j].is_dir == ws2[j].is_dir && ws1[j].content@
                == ws2[j].content@,
    ensures
        archived_entries(base1, ws1, password) == archived_entries(base2, ws2, password),
{
    lemma_location_independent_from(base1, ws1, base2, ws2, password, 0);
}

} // verus!

