//! Choice of the display language among the supported ones.

use vstd::prelude::*;

verus! {

/// A language separator in a locale tag such as `en-US` or `ko_KR`.
pub open spec fn is_tag_separator(c: char) -> bool {
    c == '-' || c == '_'
}

/// `i` ends the language part of `tag`: the first separator, or the end.
pub open spec fn language_end(tag: Seq<char>, i: int) -> bool {
    0 <= i <= tag.len() && (i == tag.len() || is_tag_separator(tag[i])) && forall|j: int|
        0 <= j < i ==> !is_tag_separator(#[trigger] tag[j])
}

/// The languages the messages exist in.
pub open spec fn supported_language(l: Seq<char>) -> bool {
    l == "en"@ || l == "ko"@ || l == "ja"@
}

/// The language chosen for the locale tag `tag`: its language part when
/// supported, English otherwise.
pub open spec fn chosen_language(tag: Seq<char>, i: int) -> Seq<char> {
    if supported_language(tag.subrange(0, i)) {
        tag.subrange(0, i)
    } else {
        "en"@
    }
}

/// Relies on `sys_locale::get_locale`: the locale of the system or user, if
/// one can be found. It depends on the environment, so nothing is known of it.
#[verifier::external_body]
fn system_locale() -> (r: Option<String>) {
    sys_locale::get_locale()
}

/// Picks the language for a locale tag, or English when there is none.
pub fn select_language(tag: &Option<String>) -> (r: String)
    ensures
        supported_language(r@),
        tag is None ==> r@ == "en"@,
        tag matches Some(t) ==> exists|i: int| language_end(t@, i) && r@ == chosen_language(t@, i),
{
    match tag {
        None => "en".to_owned(),
        Some(t) => {
            let s = t.as_str();
            let n = s.unicode_len();
            let mut i: usize = 0;
            while i < n && !(s.get_char(i) == '-' || s.get_char(i) == '_')
                invariant
                    n == s@.len(),
                    i <= n,
                    forall|j: int| 0 <= j < i ==> !is_tag_separator(#[trigger] s@[j]),
                decreases n - i,
            {
                i += 1;
            }
            assert(language_end(t@, i as int));
            let lang = s.substring_char(0, i);
            if crate::text::same_text(lang, "en") || crate::text::same_text(lang, "ko")
                || crate::text::same_text(lang, "ja") {
                lang.to_owned()
            } else {
                "en".to_owned()
            }
        },
    }
}

/// The supported language that the system's locale asks for, English by default.
pub fn detect_locale() -> (r: String)
    ensures
        supported_language(r@),
{
    let tag = system_locale();
    select_language(&tag)
}

} // verus!
