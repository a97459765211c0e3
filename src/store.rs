//! The mapping store: one small record per mount point, in a directory
//! that only the owner may read.
//!
//! The library decides the file name, the record's text, how a stored record
//! is read back, and what to do with whatever occupies the file's location;
//! the caller performs the file operations.

use vstd::prelude::*;
use crate::error::LuksError;
use crate::text::{byte_len, byte_length, contains_char, contains_dotdot, has_char, has_dotdot};
use crate::validate::{
    is_mapper_char, owned_mapper_name, valid_mapper_name, validate_owned_mapper_name,
};

verus! {

/// The longest escaped mount point accepted as a file name, in bytes.
pub const MAX_ESCAPED_NAME_LEN: usize = 255;

/// The longest record accepted, in bytes.
pub const MAX_RECORD_LEN: usize = 1024;

/// `p` with every `/` replaced by `_`.
pub open spec fn escaped(p: Seq<char>) -> Seq<char> {
    p.map_values(|c: char| if c == '/' { '_' } else { c })
}

/// The file name under which the record of mount point `p` is kept.
pub open spec fn escape_result(p: Seq<char>) -> Result<Seq<char>, LuksError> {
    if has_char(p, '\0') {
        Err(LuksError::PathInvalid)
    } else if byte_len(escaped(p)) > 255 {
        Err(LuksError::NameTooLong)
    } else if (escaped(p).len() > 0 && escaped(p)[0] == '.') || has_dotdot(escaped(p)) {
        Err(LuksError::TraversalDetected)
    } else {
        Ok(escaped(p))
    }
}

/// Turns a mount point into the file name of its record.
pub fn escape_mount_path(mount_point: &str) -> (r: Result<String, LuksError>)
    ensures
        match r {
            Ok(s) => escape_result(mount_point@) == Ok::<Seq<char>, LuksError>(s@),
            Err(e) => escape_result(mount_point@) == Err::<Seq<char>, LuksError>(e),
        },
{
    if contains_char(mount_point, '\0') {
        return Err(LuksError::PathInvalid);
    }
    let n = mount_point.unicode_len();
    let mut out = String::new();
    let mut i: usize = 0;
    while i < n
        invariant
            n == mount_point@.len(),
            i <= n,
            out@ == escaped(mount_point@.subrange(0, i as int)),
        decreases n - i,
    {
        let c = mount_point.get_char(i);
        if c == '/' {
            proof {
                reveal_strlit("_");
            }
            out.append("_");
        } else {
            out.append(mount_point.substring_char(i, i + 1));
        }
        assert(out@ =~= escaped(mount_point@.subrange(0, i + 1)));
        i += 1;
    }
    assert(mount_point@.subrange(0, n as int) =~= mount_point@);
    if byte_length(out.as_str()) > MAX_ESCAPED_NAME_LEN {
        return Err(LuksError::NameTooLong);
    }
    let starts_dot = out.as_str().unicode_len() > 0 && out.as_str().get_char(0) == '.';
    if starts_dot || contains_dotdot(out.as_str()) {
        return Err(LuksError::TraversalDetected);
    }
    Ok(out)
}

/// The persisted pair: which mapping backs a mount point, and over which device.
#[derive(Debug, Clone, PartialEq, Eq)]
pub struct MountRecord {
    pub mapper_name: String,
    pub device: String,
}

/// The text of a record: `<mapper-name>:<device>`.
pub open spec fn record_text(name: Seq<char>, device: Seq<char>) -> Seq<char> {
    name.push(':') + device
}

/// Writes the text of a record.
pub fn encode_record(mapper_name: &str, device: &str) -> (r: String)
    ensures
        r@ == record_text(mapper_name@, device@),
{
    let mut s = mapper_name.to_owned();
    proof {
        reveal_strlit(":");
    }
    s.append(":");
    s.append(device);
    assert(s@ =~= record_text(mapper_name@, device@));
    s
}

/// `i` is the position of the first `d` in `s`.
pub open spec fn is_first_index(s: Seq<char>, d: char, i: int) -> bool {
    0 <= i < s.len() && s[i] == d && forall|j: int| 0 <= j < i ==> s[j] != d
}

/// The two fields of a record's text, split at its first `:`; `None` when it
/// has no `:`.
pub open spec fn record_fields(s: Seq<char>) -> Option<(Seq<char>, Seq<char>)> {
    if exists|i: int| is_first_index(s, ':', i) {
        let i = choose|i: int| is_first_index(s, ':', i);
        Some((s.subrange(0, i), s.subrange(i + 1, s.len() as int)))
    } else {
        None
    }
}

/// What reading a stored record's text gives: the mapper name and device,
/// `None` for text that is not two fields, or an error.
pub open spec fn record_result(s: Seq<char>) -> Result<Option<(Seq<char>, Seq<char>)>, LuksError> {
    if byte_len(s) > 1024 {
        Err(LuksError::RecordTooLarge)
    } else {
        match record_fields(s) {
            None => Ok(None),
            Some(f) => if !valid_mapper_name(f.0) {
                Err(LuksError::NameInvalid)
            } else if !owned_mapper_name(f.0) {
                Err(LuksError::NameNotOwned)
            } else {
                Ok(Some(f))
            },
        }
    }
}

proof fn lemma_first_index_unique(s: Seq<char>, d: char, i: int, k: int)
    requires
        is_first_index(s, d, i),
        is_first_index(s, d, k),
    ensures
        i == k,
{
    if i < k {
        assert(s[i] != d);
    } else if k < i {
        assert(s[k] != d);
    }
}

/// Reads back the text of a stored record.
pub fn decode_record(content: &str) -> (r: Result<Option<MountRecord>, LuksError>)
    ensures
        match r {
            Ok(None) => record_result(content@) == Ok::<
                Option<(Seq<char>, Seq<char>)>,
                LuksError,
            >(None),
            Ok(Some(rec)) => record_result(content@) == Ok::<
                Option<(Seq<char>, Seq<char>)>,
                LuksError,
            >(Some((rec.mapper_name@, rec.device@))),
            Err(e) => record_result(content@) == Err::<Option<(Seq<char>, Seq<char>)>, LuksError>(
                e,
            ),
        },
{
    if byte_length(content) > MAX_RECORD_LEN {
        return Err(LuksError::RecordTooLarge);
    }
    let n = content.unicode_len();
    let mut i: usize = 0;
    while i < n && content.get_char(i) != ':'
        invariant
            n == content@.len(),
            i <= n,
            forall|j: int| 0 <= j < i ==> content@[j] != ':',
        decreases n - i,
    {
        i += 1;
    }
    if i == n {
        assert(!exists|k: int| is_first_index(content@, ':', k));
        return Ok(None);
    }
    let ghost s = content@;
    assert(is_first_index(s, ':', i as int));
    proof {
        let k = choose|k: int| is_first_index(s, ':', k);
        lemma_first_index_unique(s, ':', i as int, k);
    }
    let name = content.substring_char(0, i).to_owned();
    let device = content.substring_char(i + 1, n).to_owned();
    validate_owned_mapper_name(name.as_str())?;
    Ok(Some(MountRecord { mapper_name: name, device }))
}

/// What occupies the location of a record's file.
#[derive(Debug, Clone, Copy, PartialEq, Eq)]
pub enum EntryKind {
    /// Nothing is there.
    Absent,
    /// A regular file (not reached through a link).
    RegularFile,
    /// Anything else: a symbolic link, a directory, a device.
    Other,
}

/// What to do at a record's location before reading or deleting it:
/// `Ok(false)` when there is nothing there, `Ok(true)` when the regular file
/// may be read or deleted, and `TamperDetected` for anything else, which is
/// never followed.
pub open spec fn entry_step(kind: EntryKind) -> Result<bool, LuksError> {
    match kind {
        EntryKind::Absent => Ok(false),
        EntryKind::RegularFile => Ok(true),
        EntryKind::Other => Err(LuksError::TamperDetected),
    }
}

/// Decides what a lookup or a removal does with the record's location.
pub fn check_entry(kind: EntryKind) -> (r: Result<bool, LuksError>)
    ensures
        r == entry_step(kind),
{
    match kind {
        EntryKind::Absent => Ok(false),
        EntryKind::RegularFile => Ok(true),
        EntryKind::Other => Err(LuksError::TamperDetected),
    }
}

/// Whether a new record may be written at a location: an entry other than a
/// regular file is refused with `TamperDetected`, so that a planted link is
/// never written through. This is a hardening step of its own: a plain
/// write would create or truncate the file, and would follow a link there.
pub fn check_record_slot(kind: EntryKind) -> (r: Result<(), LuksError>)
    ensures
        kind == EntryKind::Other ==> r == Err::<(), LuksError>(LuksError::TamperDetected),
        kind != EntryKind::Other ==> r is Ok,
{
    match kind {
        EntryKind::Other => Err(LuksError::TamperDetected),
        _ => Ok(()),
    }
}

/// Where and what to write for a new record.
#[derive(Debug, Clone, PartialEq, Eq)]
pub struct RecordFile {
    /// The file name inside the state directory.
    pub file_name: String,
    /// The record's text.
    pub content: String,
}

/// Where and what a new record is written: the file name and the text.
pub open spec fn prepare_result(mount_point: Seq<char>, name: Seq<char>, device: Seq<char>) -> Result<
    (Seq<char>, Seq<char>),
    LuksError,
> {
    if !valid_mapper_name(name) {
        Err(LuksError::NameInvalid)
    } else if !owned_mapper_name(name) {
        Err(LuksError::NameNotOwned)
    } else {
        match escape_result(mount_point) {
            Ok(f) => Ok((f, record_text(name, device))),
            Err(e) => Err(e),
        }
    }
}

/// Prepares the record of `mount_point`: the mapper name is checked, the
/// mount point escaped, the text written.
pub fn prepare_record(mount_point: &str, mapper_name: &str, device: &str) -> (r: Result<
    RecordFile,
    LuksError,
>)
    ensures
        match r {
            Ok(f) => prepare_result(mount_point@, mapper_name@, device@) == Ok::<
                (Seq<char>, Seq<char>),
                LuksError,
            >((f.file_name@, f.content@)),
            Err(e) => prepare_result(mount_point@, mapper_name@, device@) == Err::<
                (Seq<char>, Seq<char>),
                LuksError,
            >(e),
        },
{
    validate_owned_mapper_name(mapper_name)?;
    let file_name = escape_mount_path(mount_point)?;
    let content = encode_record(mapper_name, device);
    Ok(RecordFile { file_name, content })
}

/// A model of the state directory: each file name maps to the text of a
/// regular file, or to `None` for an entry of any other kind.
pub type DirModel = Map<Seq<char>, Option<Seq<char>>>;

/// What occupies `f` in the modelled directory.
pub open spec fn entry_kind(dir: DirModel, f: Seq<char>) -> EntryKind {
    if !dir.contains_key(f) {
        EntryKind::Absent
    } else if dir[f] is Some {
        EntryKind::RegularFile
    } else {
        EntryKind::Other
    }
}

/// Storing a record in the modelled directory.
pub open spec fn put_model(dir: DirModel, mount_point: Seq<char>, name: Seq<char>, device: Seq<char>) -> Result<
    DirModel,
    LuksError,
> {
    match prepare_result(mount_point, name, device) {
        Ok(p) => if entry_kind(dir, p.0) == EntryKind::Other {
            Err(LuksError::TamperDetected)
        } else {
            Ok(dir.insert(p.0, Some(p.1)))
        },
        Err(e) => Err(e),
    }
}

/// Looking a record up in the modelled directory.
pub open spec fn get_model(dir: DirModel, mount_point: Seq<char>) -> Result<
    Option<(Seq<char>, Seq<char>)>,
    LuksError,
> {
    match escape_result(mount_point) {
        Err(e) => Err(e),
        Ok(f) => match entry_step(entry_kind(dir, f)) {
            Err(e) => Err(e),
            Ok(present) => if present {
                record_result(dir[f]->Some_0)
            } else {
                Ok(None)
            },
        },
    }
}

/// Removing a record from the modelled directory.
pub open spec fn remove_model(dir: DirModel, mount_point: Seq<char>) -> Result<DirModel, LuksError> {
    match escape_result(mount_point) {
        Err(e) => Err(e),
        Ok(f) => match entry_step(entry_kind(dir, f)) {
            Err(e) => Err(e),
            Ok(present) => if present {
                Ok(dir.remove(f))
            } else {
                Ok(dir)
            },
        },
    }
}

/// A record's text splits back into its mapper name and device.
pub proof fn lemma_record_text_fields(name: Seq<char>, device: Seq<char>)
    requires
        valid_mapper_name(name),
    ensures
        record_fields(record_text(name, device)) == Some((name, device)),
{
    let s = record_text(name, device);
    let i = name.len() as int;
    assert(s[i] == ':');
    assert forall|j: int| 0 <= j < i implies s[j] != ':' by {
        assert(s[j] == name[j]);
        assert(is_mapper_char(name[j]));
    }
    assert(is_first_index(s, ':', i));
    let k = choose|k: int| is_first_index(s, ':', k);
    lemma_first_index_unique(s, ':', i, k);
    assert(s.subrange(0, i) =~= name);
    assert(s.subrange(i + 1, s.len() as int) =~= device);
}

/// Storing a record and then looking up the same mount point gives back the
/// mapper name and device exactly, provided the record fits its size cap.
pub proof fn lemma_put_then_get(
    dir: DirModel,
    mount_point: Seq<char>,
    name: Seq<char>,
    device: Seq<char>,
)
    requires
        put_model(dir, mount_point, name, device) is Ok,
        byte_len(record_text(name, device)) <= 1024,
    ensures
        get_model(put_model(dir, mount_point, name, device)->Ok_0, mount_point) == Ok::<
            Option<(Seq<char>, Seq<char>)>,
            LuksError,
        >(Some((name, device))),
{
    lemma_record_text_fields(name, device);
    let f = escape_result(mount_point)->Ok_0;
    let d2 = put_model(dir, mount_point, name, device)->Ok_0;
    assert(d2.contains_key(f) && d2[f] == Some(record_text(name, device)));
}

/// Removing the record of a mount point a second time succeeds and changes
/// nothing.
pub proof fn lemma_remove_twice(dir: DirModel, mount_point: Seq<char>)
    requires
        remove_model(dir, mount_point) is Ok,
    ensures
        remove_model(remove_model(dir, mount_point)->Ok_0, mount_point) == remove_model(
            dir,
            mount_point,
        ),
{
    let f = escape_result(mount_point)->Ok_0;
    let d2 = remove_model(dir, mount_point)->Ok_0;
    assert(!d2.contains_key(f));
}

/// When anything but a regular file occupies the record's location, both
/// lookup and removal fail with `TamperDetected`, and neither touches it.
pub proof fn lemma_tamper_rejected(dir: DirModel, mount_point: Seq<char>)
    requires
        escape_result(mount_point) is Ok,
        entry_kind(dir, escape_result(mount_point)->Ok_0) == EntryKind::Other,
    ensures
        get_model(dir, mount_point) == Err::<Option<(Seq<char>, Seq<char>)>, LuksError>(
            LuksError::TamperDetected,
        ),
        remove_model(dir, mount_point) == Err::<DirModel, LuksError>(LuksError::TamperDetected),
        entry_step(EntryKind::Other) == Err::<bool, LuksError>(LuksError::TamperDetected),
{
}

} // verus!
