//! Mapper names: their generation, their device paths, and collision checks.

use vstd::prelude::*;
use crate::error::LuksError;
use crate::text::{byte_len, starts_with};
use crate::validate::{is_mapper_char, owned_mapper_name, owned_prefix, valid_mapper_name};

verus! {

/// How many generated names are tried before giving up.
pub const MAX_NAME_ATTEMPTS: u32 = 10;

/// A lower-case hexadecimal digit.
pub open spec fn is_lower_hex(c: char) -> bool {
    ('0' <= c && c <= '9') || ('a' <= c && c <= 'f')
}

/// The hyphenated text form of a UUID: 36 characters, hyphens at positions
/// 8, 13, 18 and 23 and lower-case hexadecimal digits elsewhere.
pub open spec fn hyphenated_uuid(s: Seq<char>) -> bool {
    &&& s.len() == 36
    &&& forall|i: int|
        0 <= i < 36 ==> if i == 8 || i == 13 || i == 18 || i == 23 {
            #[trigger] s[i] == '-'
        } else {
            is_lower_hex(s[i])
        }
}

/// A version-4 UUID in that form: the version digit (position 14) is `4`
/// and the variant digit (position 19) is one of `8`, `9`, `a`, `b`.
pub open spec fn random_uuid(s: Seq<char>) -> bool {
    hyphenated_uuid(s) && s[14] == '4' && (s[19] == '8' || s[19] == '9' || s[19] == 'a' || s[19]
        == 'b')
}

/// Relies on `uuid::Uuid::new_v4` for a random identifier whose version and
/// variant bits are set, and on its `Display` impl, which writes the
/// hyphenated lower-case form.
#[verifier::external_body]
fn random_uuid_text() -> (r: String)
    ensures
        random_uuid(r@),
{
    uuid::Uuid::new_v4().to_string()
}

/// Relies on `std::path::Path::exists`: whether the path resolves to an
/// existing entry. The answer depends on the filesystem at the time of the call.
#[verifier::external_body]
fn path_exists(p: &str) -> (r: bool) {
    std::path::Path::new(p).exists()
}

/// The mapper name for a drawn identifier: the recognition prefix followed
/// by the identifier.
pub fn mapper_name_for(id: &str) -> (r: String)
    ensures
        r@ == owned_prefix() + id@,
        hyphenated_uuid(id@) ==> owned_mapper_name(r@) && r@.len() == 41,
{
    let mut name = String::new();
    proof {
        reveal_strlit("luks-");
        assert("luks-"@ =~= owned_prefix());
    }
    name.append("luks-");
    name.append(id);
    proof {
        let s = name@;
        assert(s =~= owned_prefix() + id@);
        if hyphenated_uuid(id@) {
            assert(s.subrange(0, 5) =~= owned_prefix());
            assert forall|i: int| 0 <= i < s.len() implies is_mapper_char(#[trigger] s[i]) by {
                if i >= 5 {
                    assert(s[i] == id@[i - 5]);
                }
            }
            assert(vstd::utf8::is_ascii_chars(s));
            vstd::utf8::is_ascii_chars_encode_utf8(s);
            assert(byte_len(s) == 41);
            assert(!crate::text::has_char(s, '/'));
            assert(!crate::text::has_char(s, '\0'));
            assert(!crate::text::has_dotdot(s));
        }
    }
    name
}

/// A fresh mapper name: the recognition prefix followed by a random UUID.
pub fn generate_mapper_name() -> (r: String)
    ensures
        owned_mapper_name(r@),
        r@.len() == 41,
        starts_with(r@, owned_prefix()),
        random_uuid(r@.subrange(5, 41)),
{
    let id = random_uuid_text();
    let name = mapper_name_for(id.as_str());
    assert(name@.subrange(5, 41) =~= id@);
    name
}

/// The device path of a mapping: its name under `/dev/mapper/`, as joining
/// paths gives it (a name that is itself absolute replaces the directory).
pub open spec fn mapper_path(name: Seq<char>) -> Seq<char> {
    if name.len() > 0 && name[0] == '/' {
        name
    } else {
        "/dev/mapper/"@ + name
    }
}

/// The device path of the mapping named `mapper_name`.
pub fn get_mapper_path(mapper_name: &str) -> (r: String)
    ensures
        r@ == mapper_path(mapper_name@),
{
    if mapper_name.unicode_len() > 0 && mapper_name.get_char(0) == '/' {
        return mapper_name.to_owned();
    }
    let mut p = String::new();
    p.append("/dev/mapper/");
    p.append(mapper_name);
    p
}

/// Whether a mapping of that name is present in the device-mapper namespace.
pub fn mapper_exists(mapper_name: &str) -> bool {
    let p = get_mapper_path(mapper_name);
    path_exists(p.as_str())
}

/// `name_taken` answered `taken` when asked about the characters `name`.
pub open spec fn answered<F: Fn(&str) -> bool>(name_taken: &F, name: Seq<char>, taken: bool) -> bool {
    exists|s: &str| s@ == name && name_taken.ensures((s,), taken)
}

/// Generates owned mapper names until `name_taken` reports one free, trying
/// at most `MAX_NAME_ATTEMPTS` names. Every candidate asked about is
/// appended to `tried`, in order; the last one is the result on success.
/// On failure exactly `MAX_NAME_ATTEMPTS` candidates were asked about and
/// each was reported taken.
pub fn generate_unique_mapper_name_with<F: Fn(&str) -> bool>(
    name_taken: &F,
    tried: &mut Vec<String>,
) -> (r: Result<String, LuksError>)
    requires
        forall|s: &str| name_taken.requires((s,)),
    ensures
        old(tried)@.len() < final(tried)@.len() <= old(tried)@.len() + MAX_NAME_ATTEMPTS,
        final(tried)@.subrange(0, old(tried)@.len() as int) == old(tried)@,
        forall|i: int|
            old(tried)@.len() <= i < final(tried)@.len() ==> owned_mapper_name(
                #[trigger] final(tried)@[i]@,
            ),
        forall|i: int|
            old(tried)@.len() <= i < final(tried)@.len() - 1 ==> answered(
                name_taken,
                #[trigger] final(tried)@[i]@,
                true,
            ),
        match r {
            Ok(name) => name@ == final(tried)@.last()@ && answered(name_taken, name@, false),
            Err(e) => e == LuksError::IdentityExhausted && final(tried)@.len() == old(tried)@.len()
                + MAX_NAME_ATTEMPTS && answered(name_taken, final(tried)@.last()@, true),
        },
        (forall|s: &str, b: bool| name_taken.ensures((s,), b) ==> !b) ==> r is Ok,
        (forall|s: &str, b: bool| name_taken.ensures((s,), b) ==> b) ==> r is Err,
{
    let ghost start = tried@;
    let mut attempts: u32 = 0;
    loop
        invariant
            forall|s: &str| name_taken.requires((s,)),
            start == old(tried)@,
            attempts < MAX_NAME_ATTEMPTS,
            tried@.len() == start.len() + attempts,
            tried@.subrange(0, start.len() as int) == start,
            forall|i: int|
                start.len() <= i < tried@.len() ==> owned_mapper_name(#[trigger] tried@[i]@),
            forall|i: int|
                start.len() <= i < tried@.len() ==> answered(name_taken, #[trigger] tried@[i]@, true),
        decreases MAX_NAME_ATTEMPTS - attempts,
    {
        let name = generate_mapper_name();
        let s = name.as_str();
        let taken = name_taken(s);
        assert(answered(name_taken, name@, taken));
        let ghost before = tried@;
        tried.push(name.clone());
        assert(tried@.subrange(0, start.len() as int) =~= before.subrange(0, start.len() as int));
        assert(forall|i: int| start.len() <= i < before.len() ==> tried@[i] == before[i]);
        if !taken {
            return Ok(name);
        }
        attempts += 1;
        if attempts == MAX_NAME_ATTEMPTS {
            return Err(LuksError::IdentityExhausted);
        }
    }
}

/// Generates an owned mapper name that is not present in the device-mapper
/// namespace, or fails with `IdentityExhausted` after `MAX_NAME_ATTEMPTS` tries.
pub fn generate_unique_mapper_name() -> (r: Result<String, LuksError>)
    ensures
        match r {
            Ok(name) => owned_mapper_name(name@),
            Err(e) => e == LuksError::IdentityExhausted,
        },
{
    let mut tried: Vec<String> = Vec::new();
    let r = generate_unique_mapper_name_with(&|n: &str| mapper_exists(n), &mut tried);
    proof {
        if r is Ok {
            assert(tried@[tried@.len() - 1]@ == r->Ok_0@);
        }
    }
    r
}

} // verus!
