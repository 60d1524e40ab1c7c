//! Lexical operations on paths written as text, with `/` between components.
//!
//! Nothing here looks at a file system: every function is a function of the
//! characters of its arguments.

use vstd::prelude::*;
use crate::text::{appended, chars_of, has_prefix};

verus! {

/// The character that separates the components of a path.
pub const SEPARATOR: char = '/';

/// A path is absolute when it begins with the separator.
pub open spec fn is_absolute(p: Seq<char>) -> bool {
    p.len() > 0 && p[0] == '/'
}

/// `p` resolved against `base`: an absolute `p` stands for itself; otherwise it is
/// appended to `base`, with one separator between them unless `base` is empty or
/// already ends with one.
pub open spec fn joined(base: Seq<char>, p: Seq<char>) -> Seq<char> {
    if is_absolute(p) {
        p
    } else if base.len() == 0 || base.last() == '/' {
        base + p
    } else {
        base + seq!['/'] + p
    }
}

/// Length of `p` once its trailing separators are removed.
pub open spec fn trimmed_len(p: Seq<char>) -> nat
    decreases p.len(),
{
    if p.len() > 0 && p.last() == '/' {
        trimmed_len(p.drop_last())
    } else {
        p.len()
    }
}

/// `p` without its trailing separators.
pub open spec fn trimmed(p: Seq<char>) -> Seq<char> {
    p.take(trimmed_len(p) as int)
}

/// Length of `p` once what does not count at its end is removed: separators, and
/// `.` components, which stand for the directory they are in.
pub open spec fn bare_len(p: Seq<char>) -> nat
    decreases p.len(),
{
    if p.len() > 0 && p.last() == '/' {
        bare_len(p.drop_last())
    } else if p.len() >= 2 && p.last() == '.' && p[p.len() - 2] == '/' {
        bare_len(p.take(p.len() - 2))
    } else {
        p.len()
    }
}

/// `p` without the separators and `.` components at its end.
pub open spec fn bare(p: Seq<char>) -> Seq<char> {
    p.take(bare_len(p) as int)
}

/// Position just after the last separator of `p`, or 0 when it has none.
pub open spec fn name_start(p: Seq<char>) -> nat
    decreases p.len(),
{
    if p.len() == 0 {
        0
    } else if p.last() == '/' {
        p.len()
    } else {
        name_start(p.drop_last())
    }
}

/// The last component of `p`: the characters after the last separator of `p`
/// without what does not count at its end.
pub open spec fn last_component(p: Seq<char>) -> Seq<char> {
    bare(p).skip(name_start(bare(p)) as int)
}

/// The final component of `p`, if it names something: not empty, `.` or `..`.
pub open spec fn file_name_of(p: Seq<char>) -> Option<Seq<char>> {
    let n = last_component(p);
    if n.len() == 0 || n == seq!['.'] || n == seq!['.', '.'] {
        None
    } else {
        Some(n)
    }
}

/// The directory that holds the final component of `p`. The root and the empty
/// path have none; a single relative component lies in the empty path.
pub open spec fn parent_of(p: Seq<char>) -> Option<Seq<char>> {
    let t = bare(p);
    if t.len() == 0 {
        None
    } else {
        let start = name_start(t);
        if start == 0 {
            Some(Seq::<char>::empty())
        } else {
            let d = bare(t.take(start as int));
            if d.len() == 0 {
                Some(seq!['/'])
            } else {
                Some(d)
            }
        }
    }
}

/// Position of the last `.` of `name`, or -1 when it has none.
pub open spec fn last_dot(name: Seq<char>) -> int
    decreases name.len(),
{
    if name.len() == 0 {
        -1
    } else if name.last() == '.' {
        name.len() - 1
    } else {
        last_dot(name.drop_last())
    }
}

/// `name` without its extension: the part before the last `.`, or all of `name`
/// when its only `.` comes first or it has none.
pub open spec fn stem_of(name: Seq<char>) -> Seq<char> {
    if last_dot(name) <= 0 {
        name
    } else {
        name.take(last_dot(name))
    }
}

/// The extension of `name`: the part after the last `.`, if that `.` is not the
/// first character.
pub open spec fn extension_of(name: Seq<char>) -> Option<Seq<char>> {
    if last_dot(name) <= 0 {
        None
    } else {
        Some(name.skip(last_dot(name) + 1))
    }
}

/// The name under which `name` is stored as an archive: its stem followed by `.zip`.
pub open spec fn archive_name(name: Seq<char>) -> Seq<char> {
    stem_of(name) + ".zip"@
}

/// Whether the final component of `p` carries the extension `zip`.
pub open spec fn is_zip_path(p: Seq<char>) -> bool {
    match file_name_of(p) {
        Some(n) => extension_of(n) == Some("zip"@),
        None => false,
    }
}

/// What is trimmed off the end of a path are separators, and all of them.
pub proof fn lemma_trimmed_len_bounds(p: Seq<char>)
    ensures
        trimmed_len(p) <= p.len(),
        trimmed_len(p) > 0 ==> p[trimmed_len(p) - 1] != '/',
        forall|i: int| trimmed_len(p) <= i < p.len() ==> p[i] == '/',
    decreases p.len(),
{
    if p.len() > 0 && p.last() == '/' {
        let q = p.drop_last();
        lemma_trimmed_len_bounds(q);
        assert forall|i: int| trimmed_len(p) <= i < p.len() implies p[i] == '/' by {
            if i < q.len() {
                assert(q[i] == p[i]);
            }
        }
    }
}

/// A path without what does not count at its end ends neither in a separator nor
/// in a `.` component, and has nothing more to lose.
pub proof fn lemma_bare_len_bounds(p: Seq<char>)
    ensures
        bare_len(p) <= p.len(),
        bare_len(p) > 0 ==> p[bare_len(p) - 1] != '/',
        bare_len(p) >= 2 ==> !(p[bare_len(p) - 1] == '.' && p[bare_len(p) - 2] == '/'),
        bare_len(bare(p)) == bare_len(p),
    decreases p.len(),
{
    if p.len() > 0 && p.last() == '/' {
        let q = p.drop_last();
        lemma_bare_len_bounds(q);
        assert(q.take(bare_len(q) as int) =~= p.take(bare_len(p) as int));
    } else if p.len() >= 2 && p.last() == '.' && p[p.len() - 2] == '/' {
        let q = p.take(p.len() - 2);
        lemma_bare_len_bounds(q);
        assert(q.take(bare_len(q) as int) =~= p.take(bare_len(p) as int));
    } else {
        assert(p.take(p.len() as int) =~= p);
    }
}

/// The last component starts after a separator, or at the start of the path, and
/// holds no separator.
pub proof fn lemma_name_start_bounds(p: Seq<char>)
    ensures
        name_start(p) <= p.len(),
        name_start(p) > 0 ==> p[name_start(p) - 1] == '/',
        forall|i: int| name_start(p) <= i < p.len() ==> p[i] != '/',
    decreases p.len(),
{
    if p.len() > 0 && p.last() != '/' {
        let q = p.drop_last();
        lemma_name_start_bounds(q);
        assert forall|i: int| name_start(p) <= i < p.len() implies p[i] != '/' by {
            if i < q.len() {
                assert(q[i] == p[i]);
            }
        }
    }
}

/// Number of characters of `p` that remain when trailing separators are dropped.
pub fn trimmed_length(p: &Vec<char>) -> (end: usize)
    ensures
        end == trimmed_len(p@),
        end <= p.len(),
{
    let mut end: usize = p.len();
    assert(p@.take(end as int) =~= p@);
    while end > 0 && p[end - 1] == SEPARATOR
        invariant
            end <= p.len(),
            trimmed_len(p@) == trimmed_len(p@.take(end as int)),
        decreases end,
    {
        assert(p@.take(end as int).drop_last() =~= p@.take(end - 1));
        end -= 1;
    }
    end
}

/// Number of the first `upto` characters of `p` that remain when the separators
/// and `.` components at their end are dropped.
pub fn bare_length(p: &Vec<char>, upto: usize) -> (end: usize)
    requires
        upto <= p.len(),
    ensures
        end == bare_len(p@.take(upto as int)),
        end <= upto,
{
    let mut end: usize = upto;
    loop
        invariant_except_break
            end <= upto <= p.len(),
            bare_len(p@.take(upto as int)) == bare_len(p@.take(end as int)),
        ensures
            end <= upto,
            end == bare_len(p@.take(upto as int)),
        decreases end,
    {
        let ghost head = p@.take(end as int);
        if end > 0 && p[end - 1] == SEPARATOR {
            assert(head.drop_last() =~= p@.take(end - 1));
            end -= 1;
        } else if end >= 2 && p[end - 1] == '.' && p[end - 2] == SEPARATOR {
            assert(head.take(head.len() - 2) =~= p@.take(end - 2));
            end -= 2;
        } else {
            break ;
        }
    }
    end
}

/// Position just after the last separator among the first `end` characters of `p`.
pub fn start_of_name(p: &Vec<char>, end: usize) -> (start: usize)
    requires
        end <= p.len(),
    ensures
        start == name_start(p@.take(end as int)),
        start <= end,
{
    let mut start: usize = end;
    while start > 0 && p[start - 1] != SEPARATOR
        invariant
            start <= end <= p.len(),
            name_start(p@.take(end as int)) == name_start(p@.take(start as int)),
        decreases start,
    {
        assert(p@.take(start as int).drop_last() =~= p@.take(start - 1));
        start -= 1;
    }
    start
}

/// Whether `p` begins with the separator.
pub fn absolute(p: &str) -> (r: bool)
    ensures
        r == is_absolute(p@),
{
    let chars = chars_of(p);
    chars.len() > 0 && chars[0] == SEPARATOR
}

/// Resolves `p` against `base`.
pub fn join(base: &str, p: &str) -> (r: String)
    ensures
        r@ == joined(base@, p@),
{
    let b = chars_of(base);
    let c = chars_of(p);
    if c.len() > 0 && c[0] == SEPARATOR {
        p.to_owned()
    } else if b.len() == 0 || b[b.len() - 1] == SEPARATOR {
        appended(base, p)
    } else {
        proof {
            reveal_strlit("/");
            assert("/"@ =~= seq!['/']);
        }
        let with_separator = appended(base, "/");
        appended(with_separator.as_str(), p)
    }
}

/// The final component of `p`, unless it is empty, `.` or `..`.
pub fn file_name(p: &str) -> (r: Option<String>)
    ensures
        match file_name_of(p@) {
            Some(n) => r is Some && r->0@ == n,
            None => r is None,
        },
{
    let chars = chars_of(p);
    assert(p@.take(chars.len() as int) =~= p@);
    let end = bare_length(&chars, chars.len());
    let start = start_of_name(&chars, end);
    let n: usize = end - start;
    proof {
        assert(bare(p@) == p@.take(end as int));
        assert(last_component(p@) =~= p@.subrange(start as int, end as int));
    }
    if n == 0 {
        return None;
    }
    if n == 1 && chars[start] == '.' {
        assert(last_component(p@) =~= seq!['.']);
        return None;
    }
    if n == 2 && chars[start] == '.' && chars[start + 1] == '.' {
        assert(last_component(p@) =~= seq!['.', '.']);
        return None;
    }
    proof {
        let c = last_component(p@);
        if c == seq!['.'] {
            assert(c.len() == 1 && c[0] == '.');
        }
        if c == seq!['.', '.'] {
            assert(c.len() == 2 && c[0] == '.' && c[1] == '.');
        }
    }
    Some(p.substring_char(start, end).to_owned())
}

/// The directory that holds the final component of `p`, if there is one.
pub fn parent(p: &str) -> (r: Option<String>)
    ensures
        match parent_of(p@) {
            Some(d) => r is Some && r->0@ == d,
            None => r is None,
        },
{
    let chars = chars_of(p);
    assert(p@.take(chars.len() as int) =~= p@);
    let end = bare_length(&chars, chars.len());
    if end == 0 {
        return None;
    }
    let start = start_of_name(&chars, end);
    if start == 0 {
        return Some(String::new());
    }
    let cut = bare_length(&chars, start);
    proof {
        let t = bare(p@);
        assert(t == p@.take(end as int));
        assert(t.take(start as int) =~= p@.take(start as int));
        assert(bare(t.take(start as int)) =~= p@.take(cut as int));
    }
    if cut == 0 {
        proof {
            reveal_strlit("/");
            assert("/"@ =~= seq!['/']);
        }
        Some(String::from_str("/"))
    } else {
        assert(p@.subrange(0, cut as int) =~= p@.take(cut as int));
        Some(p.substring_char(0, cut).to_owned())
    }
}

/// Position of the last `.` among `name`, or `None` when it has none.
pub fn find_last_dot(name: &Vec<char>) -> (r: Option<usize>)
    ensures
        match r {
            Some(i) => i == last_dot(name@) && i < name.len(),
            None => last_dot(name@) == -1,
        },
{
    let mut end: usize = name.len();
    assert(name@.take(end as int) =~= name@);
    while end > 0
        invariant
            end <= name.len(),
            last_dot(name@) == last_dot(name@.take(end as int)),
        decreases end,
    {
        if name[end - 1] == '.' {
            return Some(end - 1);
        }
        assert(name@.take(end as int).drop_last() =~= name@.take(end - 1));
        end -= 1;
    }
    None
}

/// `name` without its extension.
pub fn file_stem(name: &str) -> (r: String)
    ensures
        r@ == stem_of(name@),
{
    let chars = chars_of(name);
    match find_last_dot(&chars) {
        Some(dot) => {
            if dot == 0 {
                name.to_owned()
            } else {
                assert(name@.subrange(0, dot as int) =~= name@.take(dot as int));
                name.substring_char(0, dot).to_owned()
            }
        },
        None => name.to_owned(),
    }
}

/// The extension of `name`, if it has one.
pub fn extension(name: &str) -> (r: Option<String>)
    ensures
        match extension_of(name@) {
            Some(e) => r is Some && r->0@ == e,
            None => r is None,
        },
{
    let chars = chars_of(name);
    match find_last_dot(&chars) {
        Some(dot) => {
            if dot == 0 {
                None
            } else {
                assert(name@.subrange(dot + 1, name@.len() as int) =~= name@.skip(dot + 1));
                Some(name.substring_char(dot + 1, chars.len()).to_owned())
            }
        },
        None => None,
    }
}

/// The archive name of `name`: its stem followed by `.zip`.
pub fn to_archive_name(name: &str) -> (r: String)
    ensures
        r@ == archive_name(name@),
{
    let stem = file_stem(name);
    appended(stem.as_str(), ".zip")
}

/// Whether the final component of `p` carries the extension `zip`.
pub fn has_zip_extension(p: &str) -> (r: bool)
    ensures
        r == is_zip_path(p@),
{
    match file_name(p) {
        Some(n) => match extension(n.as_str()) {
            Some(e) => crate::text::same_text(e.as_str(), "zip"),
            None => false,
        },
        None => false,
    }
}

/// A name that can stand as one component of a path: not empty, free of
/// separators, and not the `.` that stands for the directory itself.
pub open spec fn is_component(name: Seq<char>) -> bool {
    &&& name.len() > 0
    &&& name != seq!['.']
    &&& forall|i: int| 0 <= i < name.len() ==> name[i] != '/'
}

/// A directory written with nothing at its end that does not count: the empty
/// path, the root, or a path that ends in a component.
pub open spec fn is_plain_dir(dir: Seq<char>) -> bool {
    dir.len() == 0 || dir == seq!['/'] || bare_len(dir) == dir.len()
}

/// The parent of a path is shorter than the path.
pub proof fn lemma_parent_shorter(p: Seq<char>)
    ensures
        parent_of(p) matches Some(d) ==> d.len() < p.len(),
{
    let t = bare(p);
    lemma_bare_len_bounds(p);
    if t.len() > 0 {
        lemma_name_start_bounds(t);
        let start = name_start(t);
        if start > 0 {
            lemma_bare_len_bounds(t.take(start as int));
            assert(t[t.len() - 1] == p[bare_len(p) - 1]);
        }
    }
}

/// Appending characters that hold no separator does not move the start of the
/// last component.
pub proof fn lemma_name_start_append(p: Seq<char>, name: Seq<char>)
    requires
        forall|i: int| 0 <= i < name.len() ==> name[i] != '/',
    ensures
        name_start(p + name) == name_start(p),
    decreases name.len(),
{
    if name.len() == 0 {
        assert(p + name =~= p);
    } else {
        let shorter = name.drop_last();
        assert((p + name).drop_last() =~= p + shorter);
        assert((p + name).last() == name.last());
        lemma_name_start_append(p, shorter);
    }
}

/// A path that ends in a component has nothing at its end that does not count.
pub proof fn lemma_bare_after_component(head: Seq<char>, name: Seq<char>)
    requires
        is_component(name),
        head.len() == 0 || head.last() == '/',
    ensures
        bare_len(head + name) == (head + name).len(),
{
    let p = head + name;
    assert(p.last() == name.last());
    if p.len() >= 2 && p.last() == '.' && p[p.len() - 2] == '/' {
        if name.len() >= 2 {
            assert(p[p.len() - 2] == name[name.len() - 2]);
        } else {
            assert(name =~= seq!['.']);
        }
    }
}

/// A component joined to a plain directory has that directory as its parent and
/// itself as its file name, and is a plain directory in turn.
pub proof fn lemma_parent_of_joined(dir: Seq<char>, name: Seq<char>)
    requires
        is_plain_dir(dir),
        is_component(name),
    ensures
        parent_of(joined(dir, name)) == Some(dir),
        last_component(joined(dir, name)) == name,
        is_plain_dir(joined(dir, name)),
{
    let p = joined(dir, name);
    if dir.len() == 0 {
        assert(p =~= Seq::<char>::empty() + name);
        lemma_bare_after_component(Seq::<char>::empty(), name);
        assert(bare(p) =~= p);
        lemma_name_start_append(Seq::<char>::empty(), name);
        assert(p.skip(0) =~= name);
    } else if dir == seq!['/'] {
        assert(p =~= dir + name);
        lemma_bare_after_component(dir, name);
        assert(bare(p) =~= p);
        lemma_name_start_append(dir, name);
        assert(name_start(dir) == 1);
        assert(p.take(1) =~= dir);
        assert(dir.drop_last() =~= Seq::<char>::empty());
        assert(bare_len(dir.drop_last()) == 0);
        assert(bare_len(dir) == 0);
        assert(bare(dir) =~= Seq::<char>::empty());
        assert(p.skip(1) =~= name);
    } else {
        lemma_bare_len_bounds(dir);
        let head = dir + seq!['/'];
        assert(p =~= head + name);
        lemma_bare_after_component(head, name);
        assert(bare(p) =~= p);
        lemma_name_start_append(head, name);
        assert(name_start(head) == head.len());
        assert(p.take(head.len() as int) =~= head);
        assert(head.drop_last() =~= dir);
        assert(bare_len(head) == dir.len());
        assert(bare(head) =~= dir);
        assert(p.skip(head.len() as int) =~= name);
    }
}

/// `p` with the extension of its file name replaced by `ext`, or removed when
/// `ext` is empty. A path without a file name is left as it is.
pub open spec fn extension_replaced(p: Seq<char>, ext: Seq<char>) -> Seq<char> {
    match file_name_of(p) {
        None => p,
        Some(name) => {
            let head = bare(p).take(name_start(bare(p)) as int);
            if ext.len() == 0 {
                head + stem_of(name)
            } else {
                head + stem_of(name) + seq!['.'] + ext
            }
        },
    }
}

/// Replaces the extension of the file name of `p` by `ext`.
pub fn with_extension(p: &str, ext: &str) -> (r: String)
    ensures
        r@ == extension_replaced(p@, ext@),
{
    let name = match file_name(p) {
        Some(n) => n,
        None => {
            return p.to_owned();
        },
    };
    let chars = chars_of(p);
    assert(p@.take(chars.len() as int) =~= p@);
    let end = bare_length(&chars, chars.len());
    let start = start_of_name(&chars, end);
    proof {
        assert(bare(p@) == p@.take(end as int));
        assert(p@.subrange(0, start as int) =~= bare(p@).take(start as int));
    }
    let mut out = p.substring_char(0, start).to_owned();
    out.append(file_stem(name.as_str()).as_str());
    if chars_of(ext).len() > 0 {
        proof {
            reveal_strlit(".");
            assert("."@ =~= seq!['.']);
        }
        out.append(".");
        out.append(ext);
    }
    out
}

/// Number of separators at the start of `p`.
pub open spec fn leading_separators(p: Seq<char>) -> nat
    decreases p.len(),
{
    if p.len() > 0 && p[0] == '/' {
        1 + leading_separators(p.skip(1))
    } else {
        0
    }
}

/// `path` as seen from the directory `dir`: what follows `dir` and the separators
/// after it, if `path` lies in `dir` or is `dir`. Every path is seen from the empty
/// directory as it is.
pub open spec fn relative_to(path: Seq<char>, dir: Seq<char>) -> Option<Seq<char>> {
    let d = trimmed(dir);
    if dir.len() == 0 {
        Some(path)
    } else if has_prefix(path, d) && path.len() > d.len() && path[d.len() as int] == '/' {
        let rest = path.skip(d.len() as int);
        Some(rest.skip(leading_separators(rest) as int))
    } else if path == d && d.len() > 0 {
        Some(Seq::empty())
    } else {
        None
    }
}

/// The separators at the start of a path are separators, and all of them.
pub proof fn lemma_leading_separators_bounds(p: Seq<char>)
    ensures
        leading_separators(p) <= p.len(),
        forall|i: int| 0 <= i < leading_separators(p) ==> p[i] == '/',
        leading_separators(p) < p.len() ==> p[leading_separators(p) as int] != '/',
    decreases p.len(),
{
    if p.len() > 0 && p[0] == '/' {
        let q = p.skip(1);
        lemma_leading_separators_bounds(q);
        assert forall|i: int| 0 <= i < leading_separators(p) implies p[i] == '/' by {
            if i > 0 {
                assert(q[i - 1] == p[i]);
            }
        }
        if leading_separators(p) < p.len() {
            assert(q[leading_separators(q) as int] == p[leading_separators(p) as int]);
        }
    }
}

/// The number of leading separators is the position of the first character that
/// is none.
pub proof fn lemma_leading_separators_is(p: Seq<char>, n: int)
    requires
        0 <= n <= p.len(),
        forall|i: int| 0 <= i < n ==> p[i] == '/',
        n < p.len() ==> p[n] != '/',
    ensures
        leading_separators(p) == n,
{
    lemma_leading_separators_bounds(p);
    let m = leading_separators(p) as int;
    if m < n {
        assert(p[m] == '/');
    } else if m > n {
        assert(p[n] == '/');
    }
}

/// A relative path joined to a directory is seen from that directory as itself.
pub proof fn lemma_relative_to_joined(dir: Seq<char>, rel: Seq<char>)
    requires
        rel.len() > 0,
        rel[0] != '/',
    ensures
        relative_to(joined(dir, rel), dir) == Some(rel),
{
    let path = joined(dir, rel);
    if dir.len() > 0 {
        lemma_trimmed_len_bounds(dir);
        let d = trimmed(dir);
        let n = d.len() as int;
        let rest = path.skip(n);
        let gap = path.len() - rel.len() - n;
        assert(path.subrange(0, n) =~= d);
        assert forall|i: int| 0 <= i < gap implies rest[i] == '/' by {
            if n + i < dir.len() {
                assert(path[n + i] == dir[n + i]);
            }
        }
        assert(gap >= 1);
        assert(rest[gap] == rel[0]);
        lemma_leading_separators_is(rest, gap);
        assert(rest.skip(gap) =~= rel);
    }
}

/// Strips the directory `dir` from the front of `path`.
pub fn strip_prefix(path: &str, dir: &str) -> (r: Option<String>)
    ensures
        match relative_to(path@, dir@) {
            Some(rel) => r is Some && r->0@ == rel,
            None => r is None,
        },
{
    let p = chars_of(path);
    let d = chars_of(dir);
    if d.len() == 0 {
        return Some(path.to_owned());
    }
    let n = trimmed_length(&d);
    let ghost base = trimmed(dir@);
    if n > p.len() {
        return None;
    }
    let mut k: usize = 0;
    while k < n
        invariant
            k <= n <= p.len(),
            n <= d.len(),
            n == trimmed_len(dir@),
            base == trimmed(dir@),
            d@ == dir@,
            p@ == path@,
            forall|j: int| 0 <= j < k ==> p@[j] == d@[j],
        decreases n - k,
    {
        if p[k] != d[k] {
            assert(path@.subrange(0, n as int)[k as int] != base[k as int]);
            assert(path@[k as int] != base[k as int]);
            return None;
        }
        k += 1;
    }
    assert(path@.subrange(0, n as int) =~= base);
    if p.len() == n {
        assert(path@ =~= base);
        if n > 0 {
            return Some(String::new());
        } else {
            return None;
        }
    }
    if p[n] != SEPARATOR {
        return None;
    }
    let mut start: usize = n;
    while start < p.len() && p[start] == SEPARATOR
        invariant
            n <= start <= p.len(),
            p@ == path@,
            forall|j: int| n <= j < start ==> p@[j] == '/',
        decreases p.len() - start,
    {
        start += 1;
    }
    proof {
        let rest = path@.skip(n as int);
        lemma_leading_separators_is(rest, start - n);
        assert(rest.skip(start - n) =~= path@.subrange(start as int, p.len() as int));
    }
    Some(path.substring_char(start, p.len()).to_owned())
}

} // verus!
