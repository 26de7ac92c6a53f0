use vstd::prelude::*;

use crate::format::same_text;

verus! {

/// Index of the last occurrence of `c` in `s`, or -1 where there is none.
pub open spec fn last_index_of(s: Seq<char>, c: char) -> int
    decreases s.len(),
{
    if s.len() == 0 {
        -1
    } else if s.last() == c {
        s.len() - 1
    } else {
        last_index_of(s.drop_last(), c)
    }
}

/// Whether `p` ends in a separator, or in a `.` component after one, which
/// names the same directory.
pub open spec fn ends_in_separator(p: Seq<char>) -> bool {
    p.len() > 0 && (p.last() == '/' || (p.len() >= 2 && p.last() == '.' && p[p.len() - 2] == '/'))
}

/// `p` without its trailing separators and trailing `.` components.
pub open spec fn trim_separators(p: Seq<char>) -> Seq<char>
    decreases p.len(),
{
    if ends_in_separator(p) {
        trim_separators(p.drop_last())
    } else {
        p
    }
}

/// The last component of a `/`-separated path; empty for a path that is
/// empty or consists of separators only.
pub open spec fn file_name_of(p: Seq<char>) -> Seq<char> {
    let t = trim_separators(p);
    t.subrange(last_index_of(t, '/') + 1, t.len() as int)
}

/// Index of the dot that starts the extension of a file name, where the
/// name has one: the last dot, provided it is not the first character and
/// the name is not the parent directory `..`.
pub open spec fn extension_dot(name: Seq<char>) -> Option<int> {
    let k = last_index_of(name, '.');
    if name == ".."@ || k <= 0 {
        None
    } else {
        Some(k)
    }
}

/// The extension of the file that a path names: what follows the last dot
/// of its file name, where `extension_dot` finds one.
pub open spec fn extension_of(p: Seq<char>) -> Option<Seq<char>> {
    let name = file_name_of(p);
    match extension_dot(name) {
        Some(k) => Some(name.subrange(k + 1, name.len() as int)),
        None => None,
    }
}

/// A file name with its extension replaced by `ext`; an empty `ext` only
/// removes the old one. The parent directory `..` is left as it is.
pub open spec fn with_extension_of(name: Seq<char>, ext: Seq<char>) -> Seq<char> {
    if name == ".."@ || name.len() == 0 {
        name
    } else {
        let stem = match extension_dot(name) {
            Some(k) => name.subrange(0, k),
            None => name,
        };
        if ext.len() == 0 {
            stem
        } else {
            stem + "."@ + ext
        }
    }
}

/// A sequence without `c` has no last `c`.
proof fn lemma_last_index_absent(s: Seq<char>, c: char)
    requires
        forall|i: int| 0 <= i < s.len() ==> s[i] != c,
    ensures
        last_index_of(s, c) == -1,
    decreases s.len(),
{
    if s.len() > 0 {
        assert(s.last() == s[s.len() - 1]);
        lemma_last_index_absent(s.drop_last(), c);
    }
}

/// The last `c` lies within the sequence, where there is one.
proof fn lemma_last_index_bounds(s: Seq<char>, c: char)
    ensures
        -1 <= last_index_of(s, c) < s.len(),
    decreases s.len(),
{
    if s.len() > 0 {
        lemma_last_index_bounds(s.drop_last(), c);
    }
}

/// Appending characters other than `c` leaves the last `c` where it was.
proof fn lemma_last_index_suffix(s: Seq<char>, t: Seq<char>, c: char)
    requires
        forall|i: int| 0 <= i < t.len() ==> t[i] != c,
    ensures
        last_index_of(s + t, c) == last_index_of(s, c),
    decreases t.len(),
{
    if t.len() == 0 {
        assert(s + t =~= s);
    } else {
        assert((s + t).drop_last() =~= s + t.drop_last());
        assert((s + t).last() == t[t.len() - 1]);
        lemma_last_index_suffix(s, t.drop_last(), c);
    }
}

/// Giving a plain file name a non-empty extension without dots or
/// separators yields a name whose extension is exactly that one: a file
/// converted into a format carries the format's name as its extension.
pub proof fn lemma_new_extension_is_format(name: Seq<char>, ext: Seq<char>)
    requires
        name.len() > 0,
        name != ".."@,
        forall|i: int| 0 <= i < name.len() ==> name[i] != '/',
        ext.len() > 0,
        forall|i: int| 0 <= i < ext.len() ==> ext[i] != '/' && ext[i] != '.',
    ensures
        extension_of(with_extension_of(name, ext)) == Some(ext),
{
    reveal_strlit(".");
    reveal_strlit("..");
    lemma_last_index_bounds(name, '.');
    let stem = match extension_dot(name) {
        Some(k) => name.subrange(0, k),
        None => name,
    };
    assert(stem.len() > 0);
    assert forall|i: int| 0 <= i < stem.len() implies stem[i] != '/' by {
        assert(stem[i] == name[i]);
    }
    let dotted = stem + "."@;
    let r = dotted + ext;
    assert(with_extension_of(name, ext) == r);
    assert(r.last() == ext[ext.len() - 1]);
    assert(trim_separators(r) == r);
    lemma_last_index_absent(stem, '/');
    lemma_last_index_suffix(stem, "."@, '/');
    lemma_last_index_suffix(dotted, ext, '/');
    assert(r.subrange(0, r.len() as int) =~= r);
    assert(file_name_of(r) == r);
    assert(dotted.last() == '.');
    lemma_last_index_suffix(dotted, ext, '.');
    assert(last_index_of(r, '.') == stem.len());
    assert(r.len() != 2);
    assert(r != ".."@);
    assert(r.subrange(stem.len() as int + 1, r.len() as int) =~= ext);
}

/// Index of the last `c` in `s`, or `None`.
fn find_last(s: &str, c: char) -> (r: Option<usize>)
    ensures
        match r {
            Some(i) => i as int == last_index_of(s@, c) && i < s@.len(),
            None => last_index_of(s@, c) == -1,
        },
{
    let mut i: usize = s.unicode_len();
    assert(s@.subrange(0, i as int) == s@);
    while i > 0
        invariant
            i <= s@.len(),
            last_index_of(s@, c) == last_index_of(s@.subrange(0, i as int), c),
        decreases i,
    {
        assert(s@.subrange(0, i as int).drop_last() == s@.subrange(0, i - 1));
        if s.get_char(i - 1) == c {
            return Some(i - 1);
        }
        i = i - 1;
    }
    assert(s@.subrange(0, 0).len() == 0);
    None
}

/// The last component of a `/`-separated path.
pub fn file_name(p: &str) -> (r: &str)
    ensures
        r@ == file_name_of(p@),
{
    let mut end: usize = p.unicode_len();
    assert(p@.subrange(0, end as int) == p@);
    while end > 0 && (p.get_char(end - 1) == '/' || (end >= 2 && p.get_char(end - 1) == '.'
        && p.get_char(end - 2) == '/'))
        invariant
            end <= p@.len(),
            trim_separators(p@) == trim_separators(p@.subrange(0, end as int)),
        decreases end,
    {
        assert(p@.subrange(0, end as int).drop_last() == p@.subrange(0, end - 1));
        end = end - 1;
    }
    let t = p.substring_char(0, end);
    assert(trim_separators(p@.subrange(0, end as int)) == p@.subrange(0, end as int));
    match find_last(t, '/') {
        Some(k) => t.substring_char(k + 1, end),
        None => t.substring_char(0, end),
    }
}

/// Where the extension of a file name starts, as `extension_dot` says.
fn find_extension_dot(name: &str) -> (r: Option<usize>)
    ensures
        match r {
            Some(k) => extension_dot(name@) == Some(k as int) && k < name@.len(),
            None => extension_dot(name@) is None,
        },
{
    proof {
        reveal_strlit("..");
    }
    if same_text(name, "..") {
        return None;
    }
    match find_last(name, '.') {
        Some(k) => if k == 0 {
            None
        } else {
            Some(k)
        },
        None => None,
    }
}

/// The extension of the file that `p` names, if it has one.
pub fn extension(p: &str) -> (r: Option<String>)
    ensures
        match r {
            Some(e) => extension_of(p@) == Some(e@),
            None => extension_of(p@) is None,
        },
{
    let name = file_name(p);
    let n = name.unicode_len();
    match find_extension_dot(name) {
        Some(k) => Some(name.substring_char(k + 1, n).to_string()),
        None => None,
    }
}

/// A file name with its extension replaced by `ext`.
pub fn with_extension(name: &str, ext: &str) -> (r: String)
    ensures
        r@ == with_extension_of(name@, ext@),
{
    proof {
        reveal_strlit("..");
        reveal_strlit(".");
    }
    let n = name.unicode_len();
    if n == 0 || same_text(name, "..") {
        return name.to_string();
    }
    let mut r = match find_extension_dot(name) {
        Some(k) => name.substring_char(0, k).to_string(),
        None => name.to_string(),
    };
    if ext.unicode_len() > 0 {
        r.append(".");
        r.append(ext);
    }
    r
}

} // verus!
