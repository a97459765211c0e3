//! The argument vectors of the privileged operations, and the reading of
//! their failures.
//!
//! Every identifier is validated again here, so that each operation is safe
//! to request on its own; arguments are always discrete, never a shell line.

use vstd::prelude::*;
use crate::error::LuksError;
use crate::text::{join, join_with, trim, trimmed, views};
use crate::validate::{
    device_path_result, fs_type_result, mount_device_result, mount_point_result, options_result,
    path_shape_ok, valid_mapper_name, validate_device_for_mount, validate_device_path,
    validate_fs_type, validate_mapper_name, validate_mount_options, validate_mount_point,
    validate_path, PathStat, dev_prefix,
};
use crate::text::{has_prefix, starts_with};

verus! {

/// How a filesystem is to be mounted.
#[derive(Debug, Default, Clone)]
pub struct MountOptions {
    /// Mount read-only.
    pub read_only: bool,
    /// The filesystem type, if it is not to be detected.
    pub fs_type: Option<String>,
    /// Further comma-separated mount options.
    pub options: Option<String>,
}

/// The view of an optional string.
pub open spec fn opt_view(o: Option<String>) -> Option<Seq<char>> {
    match o {
        Some(s) => Some(s@),
        None => None,
    }
}

fn push_text(v: &mut Vec<String>, s: &str)
    ensures
        views(final(v)@) == views(old(v)@).push(s@),
{
    let ghost prev = v@;
    v.push(s.to_owned());
    assert(views(v@) =~= views(prev).push(s@));
}

/// The options that every mount carries, then `ro` when read-only.
pub open spec fn forced_options(read_only: bool) -> Seq<Seq<char>> {
    if read_only {
        seq!["nosuid"@, "nodev"@, "ro"@]
    } else {
        seq!["nosuid"@, "nodev"@]
    }
}

/// The final option string: the forced options, then the caller's tokens.
pub open spec fn final_options(read_only: bool, tokens: Seq<Seq<char>>) -> Seq<char> {
    join_with(forced_options(read_only) + tokens, ',')
}

proof fn lemma_join_prefix(parts: Seq<Seq<char>>, k: int, d: char)
    requires
        1 <= k <= parts.len(),
    ensures
        starts_with(join_with(parts, d), join_with(parts.subrange(0, k), d)),
    decreases parts.len(),
{
    if k == parts.len() {
        assert(parts.subrange(0, k) =~= parts);
        let full = join_with(parts, d);
        assert(full.subrange(0, full.len() as int) =~= full);
    } else {
        lemma_join_prefix(parts.drop_last(), k, d);
        assert(parts.drop_last().subrange(0, k) =~= parts.subrange(0, k));
        let j = join_with(parts.drop_last(), d);
        let pre = join_with(parts.subrange(0, k), d);
        assert(join_with(parts, d) == j.push(d) + parts.last());
        assert(j.subrange(0, pre.len() as int) == pre);
        assert((j.push(d) + parts.last()).subrange(0, pre.len() as int) =~= j.subrange(
            0,
            pre.len() as int,
        ));
    }
}

/// Whatever the caller's tokens, the final option string begins with
/// `nosuid,nodev`, so the two hardening flags are always in force.
pub proof fn lemma_hardening_flags_first(read_only: bool, tokens: Seq<Seq<char>>)
    ensures
        starts_with(final_options(read_only, tokens), "nosuid,nodev"@),
{
    let parts = forced_options(read_only) + tokens;
    lemma_join_prefix(parts, 2, ',');
    assert(parts.subrange(0, 2) =~= seq!["nosuid"@, "nodev"@]);
    let two = seq!["nosuid"@, "nodev"@];
    assert(two.drop_last() =~= seq!["nosuid"@]);
    assert(join_with(two.drop_last(), ',') == "nosuid"@);
    assert(join_with(two, ',') == "nosuid"@.push(',') + "nodev"@);
    reveal_strlit("nosuid,nodev");
    reveal_strlit("nosuid");
    reveal_strlit("nodev");
    assert(starts_with("nosuid,nodev"@, "nosuid,nodev"@)) by {
        assert("nosuid,nodev"@.subrange(0, 12) =~= "nosuid,nodev"@);
    }
    assert(join_with(two, ',') =~= "nosuid,nodev"@);
}

proof fn lemma_join_concat(a: Seq<Seq<char>>, b: Seq<Seq<char>>, d: char)
    requires
        a.len() > 0,
        b.len() > 0,
    ensures
        join_with(a + b, d) == join_with(a, d).push(d) + join_with(b, d),
    decreases b.len(),
{
    if b.len() == 1 {
        assert((a + b).drop_last() =~= a);
        assert(join_with(b, d) == b[0]);
    } else {
        lemma_join_concat(a, b.drop_last(), d);
        assert((a + b).drop_last() =~= a + b.drop_last());
        assert(join_with(a + b, d) == join_with(a + b.drop_last(), d).push(d) + b.last());
        assert(join_with(b, d) == join_with(b.drop_last(), d).push(d) + b.last());
        assert(join_with(a + b, d) =~= join_with(a, d).push(d) + join_with(b, d));
    }
}

/// The final option string is `nosuid,nodev`, then `,ro` when read-only,
/// then `,` and the caller's tokens joined by `,` when there are any.
pub proof fn lemma_final_options_shape(read_only: bool, tokens: Seq<Seq<char>>)
    ensures
        final_options(read_only, tokens) == (if tokens.len() == 0 {
            join_with(forced_options(read_only), ',')
        } else {
            join_with(forced_options(read_only), ',').push(',') + join_with(tokens, ',')
        }),
        join_with(forced_options(read_only), ',') == (if read_only {
            "nosuid"@.push(',') + "nodev"@.push(',') + "ro"@
        } else {
            "nosuid"@.push(',') + "nodev"@
        }),
{
    let f = forced_options(read_only);
    if tokens.len() == 0 {
        assert(f + tokens =~= f);
    } else {
        lemma_join_concat(f, tokens, ',');
    }
    let two = seq!["nosuid"@, "nodev"@];
    assert(two.drop_last() =~= seq!["nosuid"@]);
    assert(join_with(two.drop_last(), ',') == "nosuid"@);
    assert(join_with(two, ',') == "nosuid"@.push(',') + "nodev"@);
    if read_only {
        assert(f.drop_last() =~= two);
    } else {
        assert(f =~= two);
    }
}

/// Builds the final option string: `nosuid,nodev[,ro][,<tokens>]`.
pub fn mount_option_string(read_only: bool, tokens: &Vec<String>) -> (r: String)
    ensures
        r@ == final_options(read_only, views(tokens@)),
{
    let mut parts: Vec<String> = Vec::new();
    push_text(&mut parts, "nosuid");
    push_text(&mut parts, "nodev");
    if read_only {
        push_text(&mut parts, "ro");
    }
    assert(views(parts@) =~= forced_options(read_only));
    let mut i: usize = 0;
    while i < tokens.len()
        invariant
            i <= tokens@.len(),
            views(parts@) == forced_options(read_only) + views(tokens@).subrange(0, i as int),
        decreases tokens@.len() - i,
    {
        let ghost prev = parts@;
        parts.push(tokens[i].clone());
        assert(views(parts@) =~= views(prev).push(tokens@[i as int]@));
        assert(views(tokens@).subrange(0, i + 1) =~= views(tokens@).subrange(0, i as int).push(
            tokens@[i as int]@,
        ));
        i += 1;
    }
    assert(views(tokens@).subrange(0, tokens@.len() as int) =~= views(tokens@));
    proof {
        reveal_strlit(",");
    }
    join(&parts, ",")
}

/// The sanitized tokens of optional mount options (none when absent).
pub open spec fn option_tokens_of(opts: Option<Seq<char>>) -> Seq<Seq<char>> {
    match opts {
        Some(o) => options_result(o)->Ok_0,
        None => Seq::<Seq<char>>::empty(),
    }
}

/// The outcome of preparing a mount: the argument vector, or the first
/// validation error.
pub open spec fn mount_args_result(
    device: Seq<char>,
    device_stat: PathStat,
    mount_point: Seq<char>,
    mount_point_stat: PathStat,
    read_only: bool,
    fs_type: Option<Seq<char>>,
    opts: Option<Seq<char>>,
) -> Result<Seq<Seq<char>>, LuksError> {
    if mount_device_result(device, device_stat) is Err {
        Err(mount_device_result(device, device_stat)->Err_0)
    } else if mount_point_result(mount_point, mount_point_stat) is Err {
        Err(mount_point_result(mount_point, mount_point_stat)->Err_0)
    } else if fs_type is Some && fs_type_result(fs_type->Some_0) is Err {
        Err(fs_type_result(fs_type->Some_0)->Err_0)
    } else if opts is Some && options_result(opts->Some_0) is Err {
        Err(options_result(opts->Some_0)->Err_0)
    } else {
        let type_args = match fs_type {
            Some(t) => seq!["-t"@, t],
            None => Seq::<Seq<char>>::empty(),
        };
        Ok(
            type_args + seq![
                "-o"@,
                final_options(read_only, option_tokens_of(opts)),
                device,
                mount_point,
            ],
        )
    }
}

/// The arguments of the mount operation for `device` on `mount_point`; the
/// two stats describe those paths.
pub fn mount_arguments(
    device: &str,
    device_stat: &PathStat,
    mount_point: &str,
    mount_point_stat: &PathStat,
    options: &MountOptions,
) -> (r: Result<Vec<String>, LuksError>)
    ensures
        match r {
            Ok(v) => mount_args_result(
                device@,
                *device_stat,
                mount_point@,
                *mount_point_stat,
                options.read_only,
                opt_view(options.fs_type),
                opt_view(options.options),
            ) == Ok::<Seq<Seq<char>>, LuksError>(views(v@)),
            Err(e) => mount_args_result(
                device@,
                *device_stat,
                mount_point@,
                *mount_point_stat,
                options.read_only,
                opt_view(options.fs_type),
                opt_view(options.options),
            ) == Err::<Seq<Seq<char>>, LuksError>(e),
        },
{
    validate_device_for_mount(device, device_stat)?;
    validate_mount_point(mount_point, mount_point_stat)?;
    let mut args: Vec<String> = Vec::new();
    match &options.fs_type {
        Some(t) => {
            validate_fs_type(t.as_str())?;
            push_text(&mut args, "-t");
            push_text(&mut args, t.as_str());
        },
        None => {},
    }
    let tokens = match &options.options {
        Some(o) => validate_mount_options(o.as_str())?,
        None => Vec::new(),
    };
    assert(views(tokens@) == option_tokens_of(opt_view(options.options))) by {
        if options.options is None {
            assert(views(tokens@) =~= Seq::<Seq<char>>::empty());
        }
    }
    let joined = mount_option_string(options.read_only, &tokens);
    push_text(&mut args, "-o");
    push_text(&mut args, joined.as_str());
    push_text(&mut args, device);
    push_text(&mut args, mount_point);
    let ghost ta = match opt_view(options.fs_type) {
        Some(t) => seq!["-t"@, t],
        None => Seq::<Seq<char>>::empty(),
    };
    assert(views(args@) =~= ta + seq!["-o"@, joined@, device@, mount_point@]);
    Ok(args)
}

/// The arguments of the unmount operation: `-l` first when lazy.
pub fn unmount_arguments(mount_point: &str, lazy: bool) -> (r: Result<Vec<String>, LuksError>)
    ensures
        match r {
            Ok(v) => path_shape_ok(mount_point@) && views(v@) == if lazy {
                seq!["-l"@, mount_point@]
            } else {
                seq![mount_point@]
            },
            Err(e) => !path_shape_ok(mount_point@) && e == LuksError::PathInvalid,
        },
{
    validate_path(mount_point)?;
    let mut args: Vec<String> = Vec::new();
    if lazy {
        push_text(&mut args, "-l");
    }
    push_text(&mut args, mount_point);
    proof {
        if lazy {
            assert(views(args@) =~= seq!["-l"@, mount_point@]);
        } else {
            assert(views(args@) =~= seq![mount_point@]);
        }
    }
    Ok(args)
}

/// The arguments of the open operation: the device and the mapper name as
/// discrete arguments; `stat` describes the device path.
pub fn open_arguments(device: &str, stat: &PathStat, mapper_name: &str) -> (r: Result<
    Vec<String>,
    LuksError,
>)
    ensures
        match r {
            Ok(v) => device_path_result(device@, *stat) is Ok && valid_mapper_name(mapper_name@)
                && views(v@) == seq!["open"@, "--type"@, "luks"@, device@, mapper_name@],
            Err(e) => if device_path_result(device@, *stat) is Err {
                e == device_path_result(device@, *stat)->Err_0
            } else {
                !valid_mapper_name(mapper_name@) && e == LuksError::NameInvalid
            },
        },
{
    validate_device_path(device, stat)?;
    validate_mapper_name(mapper_name)?;
    let mut args: Vec<String> = Vec::new();
    push_text(&mut args, "open");
    push_text(&mut args, "--type");
    push_text(&mut args, "luks");
    push_text(&mut args, device);
    push_text(&mut args, mapper_name);
    assert(views(args@) =~= seq!["open"@, "--type"@, "luks"@, device@, mapper_name@]);
    Ok(args)
}

/// The arguments of the close operation.
pub fn close_arguments(mapper_name: &str) -> (r: Result<Vec<String>, LuksError>)
    ensures
        match r {
            Ok(v) => valid_mapper_name(mapper_name@) && views(v@) == seq![
                "close"@,
                mapper_name@,
            ],
            Err(e) => !valid_mapper_name(mapper_name@) && e == LuksError::NameInvalid,
        },
{
    validate_mapper_name(mapper_name)?;
    let mut args: Vec<String> = Vec::new();
    push_text(&mut args, "close");
    push_text(&mut args, mapper_name);
    assert(views(args@) =~= seq!["close"@, mapper_name@]);
    Ok(args)
}

/// The arguments of the probe that tells whether a device carries an
/// encrypted volume header.
pub fn probe_arguments(device: &str) -> (r: Result<Vec<String>, LuksError>)
    ensures
        match r {
            Ok(v) => path_shape_ok(device@) && starts_with(device@, dev_prefix()) && views(v@)
                == seq!["isLuks"@, device@],
            Err(e) => if !path_shape_ok(device@) {
                e == LuksError::PathInvalid
            } else {
                !starts_with(device@, dev_prefix()) && e == LuksError::NotADeviceNode
            },
        },
{
    validate_path(device)?;
    proof {
        reveal_strlit("/dev/");
        assert("/dev/"@ =~= dev_prefix());
    }
    if !has_prefix(device, "/dev/") {
        return Err(LuksError::NotADeviceNode);
    }
    let mut args: Vec<String> = Vec::new();
    push_text(&mut args, "isLuks");
    push_text(&mut args, device);
    assert(views(args@) =~= seq!["isLuks"@, device@]);
    Ok(args)
}

/// The privileged operations whose failures are reported.
#[derive(Debug, Clone, Copy, PartialEq, Eq)]
pub enum ToolOp {
    Open,
    Close,
    Mount,
    Unmount,
    Probe,
}

/// `p` occurs in `s` as a contiguous run.
pub open spec fn has_text(s: Seq<char>, p: Seq<char>) -> bool {
    exists|i: int| 0 <= i && i + p.len() <= s.len() && #[trigger] s.subrange(i, i + p.len()) == p
}

/// Whether `p` occurs in `s`.
pub fn contains_text(s: &str, p: &str) -> (r: bool)
    ensures
        r == has_text(s@, p@),
{
    let n = s.unicode_len();
    let m = p.unicode_len();
    if m > n {
        return false;
    }
    let last = n - m;
    let mut i: usize = 0;
    loop
        invariant
            n == s@.len(),
            m == p@.len(),
            last == n - m,
            i <= last,
            forall|k: int| 0 <= k < i ==> #[trigger] s@.subrange(k, k + m) != p@,
        decreases last - i,
    {
        let piece = s.substring_char(i, i + m);
        if crate::text::same_text(piece, p) {
            return true;
        }
        if i == last {
            return false;
        }
        i += 1;
    }
}

/// The diagnostic of a failed open that signals a rejected passphrase.
pub open spec fn auth_failure_text(diag: Seq<char>) -> bool {
    has_text(diag, "No key available"@) || has_text(diag, "wrong"@)
}

/// The error that a failed operation reports, given what it wrote to its
/// diagnostic stream: a rejected passphrase is reported without the text,
/// every other failure carries the trimmed text.
pub open spec fn failure_matches(op: ToolOp, diag: Seq<char>, e: LuksError) -> bool {
    match op {
        ToolOp::Open => if auth_failure_text(diag) {
            e == LuksError::AuthenticationFailed
        } else {
            e matches LuksError::OpenFailed(t) && t@ == trimmed(diag)
        },
        ToolOp::Close => e matches LuksError::CloseFailed(t) && t@ == trimmed(diag),
        ToolOp::Mount => e matches LuksError::MountFailed(t) && t@ == trimmed(diag),
        ToolOp::Unmount => e matches LuksError::UnmountFailed(t) && t@ == trimmed(diag),
        ToolOp::Probe => e matches LuksError::ProbeFailed(t) && t@ == trimmed(diag),
    }
}

/// Classifies the failure of `op` from its diagnostic text.
pub fn classify_failure(op: ToolOp, diagnostic: &str) -> (r: LuksError)
    ensures
        failure_matches(op, diagnostic@, r),
{
    let text = trim(diagnostic);
    match op {
        ToolOp::Open => {
            if contains_text(diagnostic, "No key available") || contains_text(diagnostic, "wrong") {
                LuksError::AuthenticationFailed
            } else {
                LuksError::OpenFailed(text)
            }
        },
        ToolOp::Close => LuksError::CloseFailed(text),
        ToolOp::Mount => LuksError::MountFailed(text),
        ToolOp::Unmount => LuksError::UnmountFailed(text),
        ToolOp::Probe => LuksError::ProbeFailed(text),
    }
}

} // verus!
