//! Paths as text: joining a relative path onto a directory, and reading the last
//! component, its stem and its extension.
//!
//! Both `/` and `\` separate components; joining writes `/`.
use vstd::prelude::*;
use crate::text::{count_back_until, rfind_char, string_of, chars_of};

verus! {

/// Whether `c` separates path components.
pub open spec fn is_separator(c: char) -> bool {
    c == '/' || c == '\\'
}

/// `base` with `rel` appended as a further component.
pub open spec fn joined(base: Seq<char>, rel: Seq<char>) -> Seq<char> {
    if base.len() == 0 {
        rel
    } else if is_separator(base.last()) {
        base + rel
    } else {
        base + seq!['/'] + rel
    }
}

/// `p` without the separators at its end.
pub open spec fn trim_trailing_separators(p: Seq<char>) -> Seq<char>
    decreases p.len(),
{
    if p.len() > 0 && is_separator(p.last()) {
        trim_trailing_separators(p.drop_last())
    } else {
        p
    }
}

/// What follows the last separator of `p` (all of `p` where there is none).
pub open spec fn last_component(p: Seq<char>) -> Seq<char>
    decreases p.len(),
{
    if p.len() == 0 || is_separator(p.last()) {
        seq![]
    } else {
        last_component(p.drop_last()).push(p.last())
    }
}

/// The name of the file or directory that `p` points at: its last component,
/// separators at the end set aside.
pub open spec fn base_name(p: Seq<char>) -> Seq<char> {
    last_component(trim_trailing_separators(p))
}

/// Whether `name` has an extension: a `.` that is not its first character.
pub open spec fn has_extension(name: Seq<char>) -> bool {
    count_back_until(name, '.') + 1 < name.len()
}

/// `name` without its extension.
pub open spec fn file_stem(name: Seq<char>) -> Seq<char> {
    if has_extension(name) {
        name.take(name.len() - count_back_until(name, '.') - 1)
    } else {
        name
    }
}

/// The extension of `name`, without its dot.
pub open spec fn extension(name: Seq<char>) -> Option<Seq<char>> {
    if has_extension(name) {
        Some(name.skip(name.len() - count_back_until(name, '.')))
    } else {
        None
    }
}

/// `base` with `rel` appended as a further component, joined by `/` unless
/// `base` is empty or already ends with a separator.
pub fn join_path(base: &str, rel: &str) -> (r: String)
    ensures
        r@ == joined(base@, rel@),
{
    let b = chars_of(base);
    let mut r = string_of(&b, 0, b.len());
    assert(b@.subrange(0, b.len() as int) =~= b@);
    if b.len() > 0 && b[b.len() - 1] != '/' && b[b.len() - 1] != '\\' {
        r.append("/");
        proof {
            reveal_strlit("/");
        }
    }
    r.append(rel);
    r
}

/// The name of the file or directory that `p` points at.
pub fn base_name_of(p: &str) -> (r: String)
    ensures
        r@ == base_name(p@),
{
    let v = chars_of(p);
    let mut e: usize = v.len();
    assert(v@.subrange(0, v.len() as int) =~= v@);
    while e > 0 && (v[e - 1] == '/' || v[e - 1] == '\\')
        invariant
            e <= v.len(),
            base_name(p@) == last_component(trim_trailing_separators(v@.subrange(0, e as int))),
        decreases e,
    {
        assert(v@.subrange(0, e as int).drop_last() =~= v@.subrange(0, e - 1));
        e = e - 1;
    }
    assert(v@.subrange(0, v.len() as int) =~= v@);
    let ghost t = v@.subrange(0, e as int);
    assert(trim_trailing_separators(t) == t);
    let mut s: usize = e;
    while s > 0 && v[s - 1] != '/' && v[s - 1] != '\\'
        invariant
            s <= e <= v.len(),
            base_name(p@) == last_component(v@.subrange(0, s as int)) + v@.subrange(s as int, e as int),
        decreases s,
    {
        let ghost pre = v@.subrange(0, s as int);
        assert(pre.drop_last() =~= v@.subrange(0, s - 1));
        assert(v@.subrange(s - 1, e as int) =~= seq![pre.last()] + v@.subrange(s as int, e as int));
        assert(last_component(pre) == last_component(pre.drop_last()).push(pre.last()));
        assert(last_component(pre.drop_last()).push(pre.last()) + v@.subrange(s as int, e as int)
            =~= last_component(pre.drop_last()) + v@.subrange(s - 1, e as int));
        s = s - 1;
    }
    assert(last_component(v@.subrange(0, s as int)) == Seq::<char>::empty());
    assert(Seq::<char>::empty() + v@.subrange(s as int, e as int) =~= v@.subrange(s as int, e as int));
    string_of(&v, s, e)
}

/// `name` without its extension, as `Path::file_stem` gives it for a plain file name.
pub fn file_stem_of(name: &str) -> (r: String)
    ensures
        r@ == file_stem(name@),
{
    let v = chars_of(name);
    let d = rfind_char(&v, '.', 0, v.len());
    assert(v@.subrange(0, v.len() as int) =~= v@);
    if d > 1 {
        assert(v@.subrange(0, d - 1) =~= v@.take(d - 1));
        string_of(&v, 0, d - 1)
    } else {
        string_of(&v, 0, v.len())
    }
}

/// Whether `name` has the extension `ext`.
pub fn has_extension_of(name: &str, ext: &str) -> (r: bool)
    ensures
        r == (extension(name@) == Some(ext@)),
{
    let v = chars_of(name);
    let x = chars_of(ext);
    let d = rfind_char(&v, '.', 0, v.len());
    assert(v@.subrange(0, v.len() as int) =~= v@);
    if d <= 1 {
        return false;
    }
    assert(extension(v@) == Some(v@.skip(d as int)));
    if v.len() - d != x.len() {
        assert(v@.skip(d as int).len() != x@.len());
        return false;
    }
    let mut k: usize = 0;
    while k < x.len()
        invariant
            1 < d <= v.len(),
            v.len() - d == x.len(),
            v@ == name@,
            x@ == ext@,
            extension(name@) == Some(v@.skip(d as int)),
            k <= x.len(),
            forall|i: int| 0 <= i < k ==> v@[d + i] == x@[i],
        decreases x.len() - k,
    {
        if v[d + k] != x[k] {
            assert(v@.skip(d as int)[k as int] != x@[k as int]);
            return false;
        }
        k = k + 1;
    }
    assert(v@.skip(d as int) =~= x@);
    true
}

/// Whether no character of `s` separates components.
pub open spec fn separator_free(s: Seq<char>) -> bool {
    forall|i: int| 0 <= i < s.len() ==> !is_separator(#[trigger] s[i])
}

proof fn lemma_last_component_free(p: Seq<char>)
    ensures
        separator_free(last_component(p)),
    decreases p.len(),
{
    if p.len() > 0 && !is_separator(p.last()) {
        lemma_last_component_free(p.drop_last());
        let prev = last_component(p.drop_last());
        assert forall|i: int| 0 <= i < prev.push(p.last()).len() implies !is_separator(
            #[trigger] prev.push(p.last())[i],
        ) by {
            if i < prev.len() {
                assert(prev.push(p.last())[i] == prev[i]);
            }
        }
    }
}

proof fn lemma_last_component_append(x: Seq<char>, b: Seq<char>)
    requires
        separator_free(b),
        x.len() == 0 || is_separator(x.last()),
    ensures
        last_component(x + b) == b,
    decreases b.len(),
{
    if b.len() == 0 {
        assert(x + b =~= x);
    } else {
        assert((x + b).drop_last() =~= x + b.drop_last());
        assert((x + b).last() == b.last());
        assert(!is_separator(b[b.len() - 1]));
        lemma_last_component_append(x, b.drop_last());
        assert(b.drop_last().push(b.last()) =~= b);
    }
}

/// A name is never a path of more than one component: the base name of a path has
/// no separator.
pub proof fn lemma_base_name_separator_free(p: Seq<char>)
    ensures
        separator_free(base_name(p)),
{
    lemma_last_component_free(trim_trailing_separators(p));
}

/// Joining a non-empty name onto a directory gives a path whose base name is that name.
pub proof fn lemma_base_name_of_joined(dir: Seq<char>, name: Seq<char>)
    requires
        name.len() > 0,
        separator_free(name),
    ensures
        base_name(joined(dir, name)) == name,
{
    let j = joined(dir, name);
    assert(j.last() == name.last());
    assert(!is_separator(name[name.len() - 1]));
    assert(trim_trailing_separators(j) == j);
    if dir.len() == 0 {
        lemma_last_component_append(seq![], name);
        assert(Seq::<char>::empty() + name =~= name);
    } else if is_separator(dir.last()) {
        lemma_last_component_append(dir, name);
    } else {
        let x = dir + seq!['/'];
        assert(x.last() == '/');
        assert(j =~= x + name);
        lemma_last_component_append(x, name);
    }
}

} // verus!
