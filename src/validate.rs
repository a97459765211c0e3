//! Validation of every identifier before it reaches a privileged tool.

use vstd::prelude::*;
use crate::error::LuksError;
use crate::text::{
    byte_len, byte_length, contains_char, lemma_split_nonempty, same_text, contains_dotdot, has_char, has_dotdot, has_prefix, split_at_char,
    split_on, starts_with, trim, trimmed, views,
};

verus! {

/// The longest mapper name accepted, in bytes.
pub const MAX_MAPPER_NAME_LEN: usize = 128;

/// The longest filesystem type accepted, in bytes.
pub const MAX_FS_TYPE_LEN: usize = 32;

/// The longest mount option string accepted, in bytes.
pub const MAX_OPTIONS_LEN: usize = 1024;

/// The prefix of every mapper name this library creates.
pub open spec fn owned_prefix() -> Seq<char> {
    seq!['l', 'u', 'k', 's', '-']
}

/// The device-node hierarchy.
pub open spec fn dev_prefix() -> Seq<char> {
    seq!['/', 'd', 'e', 'v', '/']
}

/// What the caller observed about a path on the filesystem.
#[derive(Debug, Clone, Copy, PartialEq, Eq)]
pub struct PathStat {
    /// The path resolves to an existing entry (links followed).
    pub exists: bool,
    /// The path itself is a symbolic link.
    pub is_symlink: bool,
    /// The resolved entry is a block-special file.
    pub is_block_device: bool,
    /// The resolved entry is a directory.
    pub is_dir: bool,
}

/// A character allowed in a mapper name: `[A-Za-z0-9_-]`.
pub open spec fn is_mapper_char(c: char) -> bool {
    ('a' <= c && c <= 'z') || ('A' <= c && c <= 'Z') || ('0' <= c && c <= '9') || c == '-'
        || c == '_'
}

/// A well-formed mapper name.
pub open spec fn valid_mapper_name(s: Seq<char>) -> bool {
    &&& s.len() > 0
    &&& byte_len(s) <= 128
    &&& forall|i: int| 0 <= i < s.len() ==> is_mapper_char(#[trigger] s[i])
    &&& !has_char(s, '/')
    &&& !has_char(s, '\0')
    &&& !has_dotdot(s)
}

/// A well-formed mapper name that carries the recognition prefix.
pub open spec fn owned_mapper_name(s: Seq<char>) -> bool {
    valid_mapper_name(s) && starts_with(s, owned_prefix())
}

/// An absolute path without a NUL character or a `..` component. Two dots
/// inside a longer component (`a..b`) are allowed.
pub open spec fn path_shape_ok(p: Seq<char>) -> bool {
    p.len() > 0 && p[0] == '/' && !has_char(p, '\0') && !has_parent_component(p)
}

/// `p` has a component that is exactly `..`.
pub open spec fn has_parent_component(p: Seq<char>) -> bool {
    exists|i: int|
        0 <= i && i + 1 < p.len() && p[i] == '.' && #[trigger] p[i + 1] == '.' && (i == 0 || p[i
            - 1] == '/') && (i + 2 == p.len() || p[i + 2] == '/')
}

/// A path that passes validation, as a device to open, a device to mount or
/// a mount point, is absolute and holds no NUL character and no `..`
/// component.
pub proof fn lemma_validated_path_shape(p: Seq<char>, st: PathStat)
    requires
        device_path_result(p, st) is Ok || mount_device_result(p, st) is Ok
            || mount_point_result(p, st) is Ok,
    ensures
        p.len() > 0 && p[0] == '/',
        !has_char(p, '\0'),
        !has_parent_component(p),
{
}

/// Whether `path` has a component that is exactly `..`.
pub fn contains_parent_component(path: &str) -> (r: bool)
    ensures
        r == has_parent_component(path@),
{
    let n = path.unicode_len();
    if n < 2 {
        return false;
    }
    let mut i: usize = 0;
    while i + 1 < n
        invariant
            n == path@.len(),
            n >= 2,
            i + 1 <= n,
            forall|j: int|
                0 <= j < i ==> !(path@[j] == '.' && #[trigger] path@[j + 1] == '.' && (j == 0
                    || path@[j - 1] == '/') && (j + 2 == n || path@[j + 2] == '/')),
        decreases n - i,
    {
        if path.get_char(i) == '.' && path.get_char(i + 1) == '.' && (i == 0 || path.get_char(i - 1)
            == '/') && (i + 2 == n || path.get_char(i + 2) == '/') {
            return true;
        }
        i += 1;
    }
    false
}

fn mapper_char(c: char) -> (r: bool)
    ensures
        r == is_mapper_char(c),
{
    ('a' <= c && c <= 'z') || ('A' <= c && c <= 'Z') || ('0' <= c && c <= '9') || c == '-'
        || c == '_'
}

/// Checks that `name` may be passed to the device mapper.
pub fn validate_mapper_name(name: &str) -> (r: Result<(), LuksError>)
    ensures
        r is Ok <==> valid_mapper_name(name@),
        r is Err ==> r == Err::<(), LuksError>(LuksError::NameInvalid),
{
    if name.is_empty() || byte_length(name) > MAX_MAPPER_NAME_LEN {
        return Err(LuksError::NameInvalid);
    }
    if contains_dotdot(name) || contains_char(name, '/') || contains_char(name, '\0') {
        return Err(LuksError::NameInvalid);
    }
    let n = name.unicode_len();
    let mut i: usize = 0;
    while i < n
        invariant
            n == name@.len(),
            i <= n,
            forall|j: int| 0 <= j < i ==> is_mapper_char(#[trigger] name@[j]),
        decreases n - i,
    {
        if !mapper_char(name.get_char(i)) {
            return Err(LuksError::NameInvalid);
        }
        i += 1;
    }
    Ok(())
}

/// Checks that `name` is a well-formed mapper name created by this library.
pub fn validate_owned_mapper_name(name: &str) -> (r: Result<(), LuksError>)
    ensures
        r is Ok <==> owned_mapper_name(name@),
        !valid_mapper_name(name@) ==> r == Err::<(), LuksError>(LuksError::NameInvalid),
        valid_mapper_name(name@) && !starts_with(name@, owned_prefix()) ==> r == Err::<
            (),
            LuksError,
        >(LuksError::NameNotOwned),
{
    validate_mapper_name(name)?;
    proof {
        reveal_strlit("luks-");
        assert("luks-"@ =~= owned_prefix());
    }
    if !has_prefix(name, "luks-") {
        return Err(LuksError::NameNotOwned);
    }
    Ok(())
}

/// Checks that `path` is absolute and holds neither a NUL character nor a
/// `..` component.
pub fn validate_path(path: &str) -> (r: Result<(), LuksError>)
    ensures
        r is Ok <==> path_shape_ok(path@),
        r is Err ==> r == Err::<(), LuksError>(LuksError::PathInvalid),
{
    if path.unicode_len() == 0 || path.get_char(0) != '/' {
        return Err(LuksError::PathInvalid);
    }
    if contains_char(path, '\0') || contains_parent_component(path) {
        return Err(LuksError::PathInvalid);
    }
    Ok(())
}

/// A device path that may be opened: well-shaped, existing, under `/dev/`,
/// and a block device or a link.
pub open spec fn device_path_result(p: Seq<char>, st: PathStat) -> Result<(), LuksError> {
    if !path_shape_ok(p) {
        Err(LuksError::PathInvalid)
    } else if !st.exists {
        Err(LuksError::DeviceNotFound)
    } else if !starts_with(p, dev_prefix()) || !(st.is_block_device || st.is_symlink) {
        Err(LuksError::NotADeviceNode)
    } else {
        Ok(())
    }
}

/// Checks a device path before it is opened; `stat` describes that path.
pub fn validate_device_path(device: &str, stat: &PathStat) -> (r: Result<(), LuksError>)
    ensures
        r == device_path_result(device@, *stat),
{
    validate_path(device)?;
    if !stat.exists {
        return Err(LuksError::DeviceNotFound);
    }
    proof {
        reveal_strlit("/dev/");
        assert("/dev/"@ =~= dev_prefix());
    }
    if !has_prefix(device, "/dev/") || !(stat.is_block_device || stat.is_symlink) {
        return Err(LuksError::NotADeviceNode);
    }
    Ok(())
}

/// A device path that may be mounted: well-shaped, under `/dev/`, existing.
pub open spec fn mount_device_result(p: Seq<char>, st: PathStat) -> Result<(), LuksError> {
    if !path_shape_ok(p) {
        Err(LuksError::PathInvalid)
    } else if !starts_with(p, dev_prefix()) {
        Err(LuksError::NotADeviceNode)
    } else if !st.exists {
        Err(LuksError::DeviceNotFound)
    } else {
        Ok(())
    }
}

/// Checks a device path before it is mounted; `stat` describes that path.
pub fn validate_device_for_mount(device: &str, stat: &PathStat) -> (r: Result<(), LuksError>)
    ensures
        r == mount_device_result(device@, *stat),
{
    validate_path(device)?;
    proof {
        reveal_strlit("/dev/");
        assert("/dev/"@ =~= dev_prefix());
    }
    if !has_prefix(device, "/dev/") {
        return Err(LuksError::NotADeviceNode);
    }
    if !stat.exists {
        return Err(LuksError::DeviceNotFound);
    }
    Ok(())
}

/// A mount point that may be used: well-shaped, existing, a directory. A
/// missing mount point is reported as `MountPointNotFound` (an absent input),
/// and an existing entry that is not a directory as `NotADirectory`.
pub open spec fn mount_point_result(p: Seq<char>, st: PathStat) -> Result<(), LuksError> {
    if !path_shape_ok(p) {
        Err(LuksError::PathInvalid)
    } else if !st.exists {
        Err(LuksError::MountPointNotFound)
    } else if !st.is_dir {
        Err(LuksError::NotADirectory)
    } else {
        Ok(())
    }
}

/// Checks a mount point; `stat` describes that path. A missing mount point
/// gives `MountPointNotFound`, an entry that is not a directory `NotADirectory`.
pub fn validate_mount_point(mount_point: &str, stat: &PathStat) -> (r: Result<(), LuksError>)
    ensures
        r == mount_point_result(mount_point@, *stat),
{
    validate_path(mount_point)?;
    if !stat.exists {
        return Err(LuksError::MountPointNotFound);
    }
    if !stat.is_dir {
        return Err(LuksError::NotADirectory);
    }
    Ok(())
}

/// The lower-case mapping of `s`, as `str::to_lowercase` computes it.
pub uninterp spec fn lower_of(s: Seq<char>) -> Seq<char>;

/// Relies on `str::to_lowercase`: the result depends on the characters alone.
#[verifier::external_body]
fn lowercase(s: &str) -> (r: String)
    ensures
        r@ == lower_of(s@),
{
    s.to_lowercase()
}

/// The filesystem types that may be mounted.
pub open spec fn fs_allowed(t: Seq<char>) -> bool {
    t == "ext2"@ || t == "ext3"@ || t == "ext4"@ || t == "xfs"@ || t == "btrfs"@ || t
        == "f2fs"@ || t == "ntfs"@ || t == "ntfs3"@ || t == "vfat"@ || t == "exfat"@ || t
        == "iso9660"@ || t == "udf"@ || t == "hfsplus"@ || t == "jfs"@ || t == "reiserfs"@
}

/// Whether an already lower-cased filesystem type is on the allow-list.
pub fn fs_type_allowed(lowered: &str) -> (r: bool)
    ensures
        r == fs_allowed(lowered@),
{
    same_text(lowered, "ext2") || same_text(lowered, "ext3") || same_text(lowered, "ext4")
        || same_text(lowered, "xfs") || same_text(lowered, "btrfs") || same_text(lowered, "f2fs")
        || same_text(lowered, "ntfs") || same_text(lowered, "ntfs3") || same_text(lowered, "vfat")
        || same_text(lowered, "exfat") || same_text(lowered, "iso9660") || same_text(
        lowered,
        "udf",
    ) || same_text(lowered, "hfsplus") || same_text(lowered, "jfs") || same_text(
        lowered,
        "reiserfs",
    )
}

/// The outcome of validating a filesystem type.
pub open spec fn fs_type_result(t: Seq<char>) -> Result<(), LuksError> {
    if has_char(t, '\0') || has_char(t, '/') || byte_len(t) > 32 {
        Err(LuksError::NameInvalid)
    } else if !fs_allowed(lower_of(t)) {
        Err(LuksError::UnsupportedFilesystem)
    } else {
        Ok(())
    }
}

/// Checks a filesystem type against the allow-list, ignoring case.
pub fn validate_fs_type(fs_type: &str) -> (r: Result<(), LuksError>)
    ensures
        r == fs_type_result(fs_type@),
{
    if contains_char(fs_type, '\0') || contains_char(fs_type, '/') {
        return Err(LuksError::NameInvalid);
    }
    if byte_length(fs_type) > MAX_FS_TYPE_LEN {
        return Err(LuksError::NameInvalid);
    }
    let lowered = lowercase(fs_type);
    if !fs_type_allowed(lowered.as_str()) {
        return Err(LuksError::UnsupportedFilesystem);
    }
    Ok(())
}

/// A shell metacharacter.
pub open spec fn is_metachar(c: char) -> bool {
    c == ';' || c == '&' || c == '|' || c == '$' || c == '`' || c == '\n' || c == '\r' || c
        == '\\' || c == '"' || c == '\''
}

/// Some character of `t` is a shell metacharacter.
pub open spec fn has_metachar(t: Seq<char>) -> bool {
    exists|i: int| 0 <= i < t.len() && is_metachar(#[trigger] t[i])
}

/// The trimmed, non-empty pieces, in order.
pub open spec fn option_tokens(pieces: Seq<Seq<char>>) -> Seq<Seq<char>>
    decreases pieces.len(),
{
    if pieces.len() == 0 {
        Seq::<Seq<char>>::empty()
    } else {
        let rest = option_tokens(pieces.drop_last());
        let t = trimmed(pieces.last());
        if t.len() == 0 {
            rest
        } else {
            rest.push(t)
        }
    }
}

/// Some comma-separated piece of `s`, once trimmed, holds a metacharacter.
pub open spec fn options_injected(s: Seq<char>) -> bool {
    exists|j: int|
        0 <= j < split_on(s, ',').len() && has_metachar(trimmed(#[trigger] split_on(s, ',')[j]))
}

/// The outcome of validating a mount option string: its sanitized tokens.
pub open spec fn options_result(s: Seq<char>) -> Result<Seq<Seq<char>>, LuksError> {
    if has_char(s, '\0') {
        Err(LuksError::OptionInjection)
    } else if byte_len(s) > 1024 {
        Err(LuksError::OptionsTooLong)
    } else if options_injected(s) {
        Err(LuksError::OptionInjection)
    } else {
        Ok(option_tokens(split_on(s, ',')))
    }
}

fn metachar(c: char) -> (r: bool)
    ensures
        r == is_metachar(c),
{
    c == ';' || c == '&' || c == '|' || c == '$' || c == '`' || c == '\n' || c == '\r' || c
        == '\\' || c == '"' || c == '\''
}

fn contains_metachar(t: &str) -> (r: bool)
    ensures
        r == has_metachar(t@),
{
    let n = t.unicode_len();
    let mut i: usize = 0;
    while i < n
        invariant
            n == t@.len(),
            i <= n,
            forall|j: int| 0 <= j < i ==> !is_metachar(#[trigger] t@[j]),
        decreases n - i,
    {
        if metachar(t.get_char(i)) {
            return true;
        }
        i += 1;
    }
    false
}

/// Splits a comma-separated option string into trimmed, non-empty tokens,
/// refusing any that could smuggle a shell command.
pub fn validate_mount_options(options: &str) -> (r: Result<Vec<String>, LuksError>)
    ensures
        match r {
            Ok(v) => options_result(options@) == Ok::<Seq<Seq<char>>, LuksError>(views(v@)),
            Err(e) => options_result(options@) == Err::<Seq<Seq<char>>, LuksError>(e),
        },
{
    if contains_char(options, '\0') {
        return Err(LuksError::OptionInjection);
    }
    if byte_length(options) > MAX_OPTIONS_LEN {
        return Err(LuksError::OptionsTooLong);
    }
    let pieces = split_at_char(options, ',');
    let ghost ps = views(pieces@);
    let mut out: Vec<String> = Vec::new();
    let mut k: usize = 0;
    assert(ps.subrange(0, 0) =~= Seq::<Seq<char>>::empty());
    while k < pieces.len()
        invariant
            ps == views(pieces@),
            ps == split_on(options@, ','),
            !has_char(options@, '\0'),
            byte_len(options@) <= 1024,
            k <= pieces@.len(),
            views(out@) == option_tokens(ps.subrange(0, k as int)),
            forall|j: int| 0 <= j < k ==> !has_metachar(trimmed(#[trigger] ps[j])),
        decreases pieces@.len() - k,
    {
        let t = trim(pieces[k].as_str());
        assert(ps.subrange(0, k + 1).drop_last() =~= ps.subrange(0, k as int));
        assert(ps[k as int] == pieces@[k as int]@);
        if t.as_str().unicode_len() > 0 {
            if contains_metachar(t.as_str()) {
                assert(has_metachar(trimmed(split_on(options@, ',')[k as int])));
                assert(k < split_on(options@, ',').len());
                assert(options_injected(options@));
                return Err(LuksError::OptionInjection);
            }
            let ghost prev = out@;
            out.push(t);
            assert(views(out@) =~= views(prev).push(t@));
        }
        k += 1;
    }
    assert(ps.subrange(0, ps.len() as int) =~= ps);
    Ok(out)
}

/// `a` equals the lower-case ASCII text `lower` when ASCII case is ignored.
pub open spec fn ascii_ci_eq(a: Seq<char>, lower: Seq<char>) -> bool {
    a.len() == lower.len() && forall|i: int|
        0 <= i < a.len() ==> (#[trigger] a[i] == lower[i] || ('a' <= lower[i] && lower[i] <= 'z'
            && a[i] as u32 + 32 == lower[i] as u32))
}

/// The name of a mount option: what precedes its first `=`.
pub open spec fn option_name(t: Seq<char>) -> Seq<char> {
    split_on(t, '=')[0]
}

/// An option that lets set-user-id bits, device nodes or execution take
/// effect inside the mount; it is allowed, but worth a warning.
pub open spec fn dangerous_option(t: Seq<char>) -> bool {
    let n = option_name(t);
    ascii_ci_eq(n, "suid"@) || ascii_ci_eq(n, "dev"@) || ascii_ci_eq(n, "exec"@)
}

fn ci_equal(a: &str, lower: &str) -> (r: bool)
    ensures
        r == ascii_ci_eq(a@, lower@),
{
    let n = a.unicode_len();
    if n != lower.unicode_len() {
        return false;
    }
    let mut i: usize = 0;
    while i < n
        invariant
            n == a@.len(),
            n == lower@.len(),
            i <= n,
            forall|j: int|
                0 <= j < i ==> (#[trigger] a@[j] == lower@[j] || ('a' <= lower@[j] && lower@[j]
                    <= 'z' && a@[j] as u32 + 32 == lower@[j] as u32)),
        decreases n - i,
    {
        let x = a.get_char(i);
        let y = lower.get_char(i);
        if !(x == y || ('a' <= y && y <= 'z' && (x as u32) + 32 == (y as u32))) {
            return false;
        }
        i += 1;
    }
    true
}

/// Whether a validated option token deserves an advisory warning.
pub fn is_dangerous_option(token: &str) -> (r: bool)
    ensures
        r == dangerous_option(token@),
{
    let parts = split_at_char(token, '=');
    proof {
        lemma_split_nonempty(token@, '=');
    }
    let name = parts[0].as_str();
    assert(name@ == option_name(token@));
    ci_equal(name, "suid") || ci_equal(name, "dev") || ci_equal(name, "exec")
}

} // verus!
