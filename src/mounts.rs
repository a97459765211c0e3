//! The live mount table: its text, and the questions asked of it.

use vstd::prelude::*;
use crate::text::{
    has_char, is_white_space, split_at_char, split_on, starts_with, views, white_space,
};
use crate::validate::owned_prefix;

verus! {

/// One line of the mount table: what is mounted, and where.
#[derive(Debug, Clone, PartialEq, Eq)]
pub struct MountEntry {
    pub source: String,
    pub target: String,
}

/// The (source, target) views of a list of entries.
pub open spec fn entry_views(v: Seq<MountEntry>) -> Seq<(Seq<char>, Seq<char>)> {
    v.map_values(|e: MountEntry| (e.source@, e.target@))
}

/// The maximal runs of non-white-space characters of `s`, in order.
pub open spec fn words(s: Seq<char>) -> Seq<Seq<char>>
    decreases s.len(),
{
    if s.len() == 0 {
        Seq::<Seq<char>>::empty()
    } else {
        let w = words(s.drop_last());
        let c = s.last();
        if is_white_space(c) {
            w
        } else if s.len() >= 2 && !is_white_space(s[s.len() - 2]) {
            w.update(w.len() - 1, w.last().push(c))
        } else {
            w.push(seq![c])
        }
    }
}

/// The entries of lines with at least two words, in order.
pub open spec fn table_entries(lines: Seq<Seq<char>>) -> Seq<(Seq<char>, Seq<char>)>
    decreases lines.len(),
{
    if lines.len() == 0 {
        Seq::<(Seq<char>, Seq<char>)>::empty()
    } else {
        let rest = table_entries(lines.drop_last());
        let w = words(lines.last());
        if w.len() >= 2 {
            rest.push((w[0], w[1]))
        } else {
            rest
        }
    }
}

/// The (source, target) pairs of a mount table's text.
pub open spec fn mount_table(text: Seq<char>) -> Seq<(Seq<char>, Seq<char>)> {
    table_entries(split_on(text, '\n'))
}

/// The words of `line`.
pub fn split_words(line: &str) -> (r: Vec<String>)
    ensures
        views(r@) == words(line@),
{
    let n = line.unicode_len();
    let mut out: Vec<String> = Vec::new();
    let mut start: usize = 0;
    let mut in_word = false;
    let mut i: usize = 0;
    assert(line@.subrange(0, 0) =~= Seq::<char>::empty());
    while i < n
        invariant
            n == line@.len(),
            start <= i <= n,
            in_word ==> start < i && !is_white_space(line@[i - 1]),
            !in_word ==> (i == 0 || is_white_space(line@[i - 1])),
            in_word ==> words(line@.subrange(0, i as int)) == views(out@).push(
                line@.subrange(start as int, i as int),
            ),
            !in_word ==> words(line@.subrange(0, i as int)) == views(out@),
        decreases n - i,
    {
        let c = line.get_char(i);
        let ghost pre = line@.subrange(0, i + 1);
        assert(pre.drop_last() =~= line@.subrange(0, i as int));
        assert(pre.last() == c);
        if white_space(c) {
            if in_word {
                let w = line.substring_char(start, i).to_owned();
                let ghost prev = out@;
                out.push(w);
                assert(views(out@) =~= views(prev).push(w@));
                in_word = false;
            }
        } else {
            if in_word {
                assert(pre[i - 1] == line@[i - 1]);
                assert(line@.subrange(start as int, i + 1) =~= line@.subrange(
                    start as int,
                    i as int,
                ).push(c));
            } else {
                if i > 0 {
                    assert(pre[i - 1] == line@[i - 1]);
                }
                start = i;
                in_word = true;
                assert(line@.subrange(start as int, i + 1) =~= seq![c]);
            }
        }
        i += 1;
    }
    assert(line@.subrange(0, n as int) =~= line@);
    if in_word {
        let w = line.substring_char(start, n).to_owned();
        let ghost prev = out@;
        out.push(w);
        assert(views(out@) =~= views(prev).push(w@));
    }
    out
}

/// Reads the (source, target) pairs out of a mount table's text: one line
/// per mount, white-space separated, source first; lines with fewer than two
/// fields are skipped.
pub fn parse_mount_table(text: &str) -> (r: Vec<MountEntry>)
    ensures
        entry_views(r@) == mount_table(text@),
{
    let lines = split_at_char(text, '\n');
    let ghost ls = views(lines@);
    let mut out: Vec<MountEntry> = Vec::new();
    let mut k: usize = 0;
    assert(ls.subrange(0, 0) =~= Seq::<Seq<char>>::empty());
    while k < lines.len()
        invariant
            ls == views(lines@),
            ls == split_on(text@, '\n'),
            k <= lines@.len(),
            entry_views(out@) == table_entries(ls.subrange(0, k as int)),
        decreases lines@.len() - k,
    {
        let w = split_words(lines[k].as_str());
        assert(ls.subrange(0, k + 1).drop_last() =~= ls.subrange(0, k as int));
        assert(ls[k as int] == lines@[k as int]@);
        if w.len() >= 2 {
            let e = MountEntry { source: w[0].clone(), target: w[1].clone() };
            let ghost prev = out@;
            out.push(e);
            assert(entry_views(out@) =~= entry_views(prev).push((e.source@, e.target@)));
        }
        k += 1;
    }
    assert(ls.subrange(0, ls.len() as int) =~= ls);
    out
}

/// Some entry is mounted on `target`.
pub open spec fn mounted_on(entries: Seq<(Seq<char>, Seq<char>)>, target: Seq<char>) -> bool {
    exists|i: int| 0 <= i < entries.len() && (#[trigger] entries[i]).1 == target
}

/// Whether some entry is mounted on `target`; both sides are compared as given,
/// so the caller passes canonical paths.
pub fn is_mounted_in(entries: &Vec<MountEntry>, target: &str) -> (r: bool)
    ensures
        r == mounted_on(entry_views(entries@), target@),
{
    let mut i: usize = 0;
    while i < entries.len()
        invariant
            i <= entries@.len(),
            forall|j: int| 0 <= j < i ==> (#[trigger] entry_views(entries@)[j]).1 != target@,
        decreases entries@.len() - i,
    {
        if crate::text::same_text(entries[i].target.as_str(), target) {
            assert(entry_views(entries@)[i as int].1 == target@);
            return true;
        }
        i += 1;
    }
    false
}

/// The owned mapper name behind a mount source, if it is one: the source
/// names a device under `/dev/mapper/` whose name carries the recognition
/// prefix and holds no `/` and no NUL.
pub open spec fn owned_source(source: Seq<char>) -> Option<Seq<char>> {
    if starts_with(source, "/dev/mapper/"@) {
        let n = source.subrange("/dev/mapper/"@.len() as int, source.len() as int);
        if starts_with(n, owned_prefix()) && !has_char(n, '/') && !has_char(n, '\0') {
            Some(n)
        } else {
            None
        }
    } else {
        None
    }
}

/// The owned mapper name of the first entry mounted on `target` that has one.
pub open spec fn first_owned_mapper(entries: Seq<(Seq<char>, Seq<char>)>, target: Seq<char>) -> Option<
    Seq<char>,
>
    decreases entries.len(),
{
    if entries.len() == 0 {
        None
    } else if entries[0].1 == target && owned_source(entries[0].0) is Some {
        owned_source(entries[0].0)
    } else {
        first_owned_mapper(entries.drop_first(), target)
    }
}

fn owned_source_name(source: &str) -> (r: Option<String>)
    ensures
        match r {
            Some(n) => owned_source(source@) == Some(n@),
            None => owned_source(source@) is None,
        },
{
    if !crate::text::has_prefix(source, "/dev/mapper/") {
        return None;
    }
    proof {
        reveal_strlit("/dev/mapper/");
    }
    let name = source.substring_char(12, source.unicode_len());
    proof {
        reveal_strlit("luks-");
        assert("luks-"@ =~= owned_prefix());
    }
    if crate::text::has_prefix(name, "luks-") && !crate::text::contains_char(name, '/')
        && !crate::text::contains_char(name, '\0') {
        Some(name.to_owned())
    } else {
        None
    }
}

/// Finds, among entries whose targets are canonical paths, the owned mapping
/// mounted on the canonical path `target`.
pub fn find_owned_mapper(entries: &Vec<MountEntry>, target: &str) -> (r: Option<String>)
    ensures
        match r {
            Some(n) => first_owned_mapper(entry_views(entries@), target@) == Some(n@),
            None => first_owned_mapper(entry_views(entries@), target@) is None,
        },
{
    let ghost es = entry_views(entries@);
    let mut i: usize = 0;
    assert(es.subrange(0, es.len() as int) =~= es);
    while i < entries.len()
        invariant
            es == entry_views(entries@),
            i <= entries@.len(),
            first_owned_mapper(es, target@) == first_owned_mapper(
                es.subrange(i as int, es.len() as int),
                target@,
            ),
        decreases entries@.len() - i,
    {
        let ghost rest = es.subrange(i as int, es.len() as int);
        assert(rest.drop_first() =~= es.subrange(i + 1, es.len() as int));
        assert(rest[0] == es[i as int]);
        if crate::text::same_text(entries[i].target.as_str(), target) {
            let found = owned_source_name(entries[i].source.as_str());
            if found.is_some() {
                return found;
            }
        }
        i += 1;
    }
    None
}

} // verus!
