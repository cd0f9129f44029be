//! Character-level helpers over `String` and `&str`, stated on `Seq<char>` views.
use vstd::prelude::*;

verus! {

/// What `char::is_whitespace` answers for a character (the Unicode `White_Space` property).
pub uninterp spec fn white_space(c: char) -> bool;

/// Relies on `char::is_whitespace`: the answer depends on the character alone;
/// the ASCII space, tab, line feed and carriage return are whitespace.
#[verifier::external_body]
pub(crate) fn is_whitespace(c: char) -> (r: bool)
    ensures
        r == white_space(c),
        (c == ' ' || c == '\t' || c == '\n' || c == '\r') ==> r,
{
    c.is_whitespace()
}

/// Relies on `String::push`: appends one character.
#[verifier::external_body]
pub(crate) fn push_char(s: &mut String, c: char)
    ensures
        final(s)@ == old(s)@.push(c),
{
    s.push(c)
}

/// The characters of `s`, in order.
pub fn chars_of(s: &str) -> (r: Vec<char>)
    ensures
        r@ == s@,
{
    let mut r: Vec<char> = Vec::new();
    for c in it: s.chars()
        invariant
            r@ == it.seq().take(it.index() as int),
            it.seq() == s@,
    {
        r.push(c);
    }
    r
}

/// `pat` stands in `s` from index `i` on.
pub open spec fn occurs_at(s: Seq<char>, pat: Seq<char>, i: int) -> bool {
    0 <= i && i + pat.len() <= s.len() && s.subrange(i, i + pat.len()) == pat
}

/// `pat` stands somewhere in `s`.
pub open spec fn contains_seq(s: Seq<char>, pat: Seq<char>) -> bool {
    exists|i: int| occurs_at(s, pat, i)
}

/// Whether `pat` stands in `s` from index `i` on.
fn occurs_at_exec(s: &Vec<char>, pat: &Vec<char>, i: usize) -> (r: bool)
    ensures
        r == occurs_at(s@, pat@, i as int),
{
    if pat.len() > s.len() || i > s.len() - pat.len() {
        return false;
    }
    let mut k: usize = 0;
    while k < pat.len()
        invariant
            k <= pat.len(),
            i + pat.len() <= s.len(),
            s@.subrange(i as int, i + k) == pat@.subrange(0, k as int),
        decreases pat.len() - k,
    {
        if s[i + k] != pat[k] {
            assert(s@.subrange(i as int, i + pat.len())[k as int] != pat@[k as int]);
            return false;
        }
        assert(s@.subrange(i as int, i + k + 1) =~= s@.subrange(i as int, i + k).push(s@[i + k]));
        assert(pat@.subrange(0, k + 1) =~= pat@.subrange(0, k as int).push(pat@[k as int]));
        k = k + 1;
    }
    assert(pat@.subrange(0, pat.len() as int) =~= pat@);
    true
}

/// Whether `pat` stands anywhere in `s`.
pub fn contains_chars(s: &Vec<char>, pat: &Vec<char>) -> (r: bool)
    ensures
        r == contains_seq(s@, pat@),
{
    if pat.len() > s.len() {
        assert forall|j: int| !occurs_at(s@, pat@, j) by {}
        return false;
    }
    let last: usize = s.len() - pat.len();
    let mut i: usize = 0;
    while i < last
        invariant
            i <= last,
            last == s.len() - pat.len(),
            forall|j: int| 0 <= j < i ==> !occurs_at(s@, pat@, j),
        decreases last - i,
    {
        if occurs_at_exec(s, pat, i) {
            return true;
        }
        i = i + 1;
    }
    if occurs_at_exec(s, pat, last) {
        return true;
    }
    assert forall|j: int| !occurs_at(s@, pat@, j) by {
        if 0 <= j <= i {
        }
    }
    false
}

/// The string made of `v[from..to]`.
pub fn string_of(v: &Vec<char>, from: usize, to: usize) -> (r: String)
    requires
        from <= to <= v.len(),
    ensures
        r@ == v@.subrange(from as int, to as int),
{
    let mut r = String::new();
    let mut k: usize = from;
    while k < to
        invariant
            from <= k <= to <= v.len(),
            r@ == v@.subrange(from as int, k as int),
        decreases to - k,
    {
        push_char(&mut r, v[k]);
        assert(v@.subrange(from as int, k + 1) =~= v@.subrange(from as int, k as int).push(v@[k as int]));
        k = k + 1;
    }
    r
}

/// The number of characters of `s` before the first `c`, or its length where there is none.
pub open spec fn count_until(s: Seq<char>, c: char) -> nat
    decreases s.len(),
{
    if s.len() == 0 || s[0] == c {
        0
    } else {
        1 + count_until(s.drop_first(), c)
    }
}

/// `s` without its leading whitespace.
pub open spec fn trim_start(s: Seq<char>) -> Seq<char>
    decreases s.len(),
{
    if s.len() > 0 && white_space(s[0]) {
        trim_start(s.drop_first())
    } else {
        s
    }
}

/// `s` without its trailing whitespace.
pub open spec fn trim_end(s: Seq<char>) -> Seq<char>
    decreases s.len(),
{
    if s.len() > 0 && white_space(s.last()) {
        trim_end(s.drop_last())
    } else {
        s
    }
}

/// `s` without whitespace at either end, as `str::trim` gives it.
pub open spec fn trimmed(s: Seq<char>) -> Seq<char> {
    trim_end(trim_start(s))
}

/// The index of the first `c` in `v[from..to]`, or `to` where there is none.
pub fn find_char(v: &Vec<char>, c: char, from: usize, to: usize) -> (r: usize)
    requires
        from <= to <= v.len(),
    ensures
        from <= r <= to,
        r - from == count_until(v@.subrange(from as int, to as int), c),
        forall|i: int| from <= i < r ==> v@[i] != c,
        r < to ==> v@[r as int] == c,
{
    let mut k: usize = from;
    while k < to && v[k] != c
        invariant
            from <= k <= to <= v.len(),
            forall|i: int| from <= i < k ==> v@[i] != c,
            count_until(v@.subrange(from as int, to as int), c)
                == (k - from) + count_until(v@.subrange(k as int, to as int), c),
        decreases to - k,
    {
        assert(v@.subrange(k as int, to as int).drop_first() =~= v@.subrange(k + 1, to as int));
        k = k + 1;
    }
    k
}

/// The bounds of `v[from..to]` once whitespace is taken off both ends.
pub fn trim_bounds(v: &Vec<char>, from: usize, to: usize) -> (r: (usize, usize))
    requires
        from <= to <= v.len(),
    ensures
        from <= r.0 <= r.1 <= to,
        v@.subrange(r.0 as int, r.1 as int) == trimmed(v@.subrange(from as int, to as int)),
{
    let mut a: usize = from;
    while a < to && is_whitespace(v[a])
        invariant
            from <= a <= to <= v.len(),
            trim_start(v@.subrange(from as int, to as int)) == trim_start(v@.subrange(a as int, to as int)),
        decreases to - a,
    {
        assert(v@.subrange(a as int, to as int).drop_first() =~= v@.subrange(a + 1, to as int));
        a = a + 1;
    }
    let mut b: usize = to;
    while b > a && is_whitespace(v[b - 1])
        invariant
            from <= a <= b <= to <= v.len(),
            trim_start(v@.subrange(from as int, to as int)) == v@.subrange(a as int, to as int),
            trimmed(v@.subrange(from as int, to as int)) == trim_end(v@.subrange(a as int, b as int)),
        decreases b - a,
    {
        assert(v@.subrange(a as int, b as int).drop_last() =~= v@.subrange(a as int, b - 1));
        b = b - 1;
    }
    (a, b)
}

/// The number of characters of `s` after its last `c`, or its length where there is none.
pub open spec fn count_back_until(s: Seq<char>, c: char) -> nat
    decreases s.len(),
{
    if s.len() == 0 || s.last() == c {
        0
    } else {
        1 + count_back_until(s.drop_last(), c)
    }
}

/// One past the index of the last `c` in `v[from..to]`, or `from` where there is none.
pub fn rfind_char(v: &Vec<char>, c: char, from: usize, to: usize) -> (r: usize)
    requires
        from <= to <= v.len(),
    ensures
        from <= r <= to,
        to - r == count_back_until(v@.subrange(from as int, to as int), c),
        forall|i: int| r <= i < to ==> v@[i] != c,
        r > from ==> v@[r - 1] == c,
{
    let mut k: usize = to;
    while k > from && v[k - 1] != c
        invariant
            from <= k <= to <= v.len(),
            forall|i: int| k <= i < to ==> v@[i] != c,
            count_back_until(v@.subrange(from as int, to as int), c)
                == (to - k) + count_back_until(v@.subrange(from as int, k as int), c),
        decreases k - from,
    {
        assert(v@.subrange(from as int, k as int).drop_last() =~= v@.subrange(from as int, k - 1));
        k = k - 1;
    }
    k
}

/// The pieces of `s` cut at each `sep`, where a `sep` at the very end closes the last
/// piece and opens no new one (as `str::split_terminator` cuts).
pub open spec fn split_terminated(s: Seq<char>, sep: char) -> Seq<Seq<char>>
    decreases s.len(),
{
    if s.len() == 0 {
        seq![]
    } else {
        let k = count_until(s, sep);
        if k < s.len() {
            seq![s.take(k as int)] + split_terminated(s.skip(k + 1 as int), sep)
        } else {
            seq![s]
        }
    }
}

/// Each of `parts` followed by `sep`, one after the other.
pub open spec fn terminated(parts: Seq<Seq<char>>, sep: char) -> Seq<char>
    decreases parts.len(),
{
    if parts.len() == 0 {
        seq![]
    } else {
        parts[0] + seq![sep] + terminated(parts.drop_first(), sep)
    }
}

/// `parts` with `sep` between each two of them.
pub open spec fn separated(parts: Seq<Seq<char>>, sep: char) -> Seq<char>
    decreases parts.len(),
{
    if parts.len() == 0 {
        seq![]
    } else if parts.len() == 1 {
        parts[0]
    } else {
        parts[0] + seq![sep] + separated(parts.drop_first(), sep)
    }
}

/// The views of a sequence of strings.
pub open spec fn views(v: Seq<String>) -> Seq<Seq<char>> {
    v.map_values(|s: String| s@)
}

/// Cuts `v[from..to]` as `split_terminated` does.
pub fn split_chars(v: &Vec<char>, sep: char, from: usize, to: usize) -> (r: Vec<String>)
    requires
        from <= to <= v.len(),
    ensures
        views(r@) == split_terminated(v@.subrange(from as int, to as int), sep),
{
    let mut r: Vec<String> = Vec::new();
    let mut k: usize = from;
    while k < to
        invariant
            from <= k <= to <= v.len(),
            split_terminated(v@.subrange(from as int, to as int), sep)
                == views(r@) + split_terminated(v@.subrange(k as int, to as int), sep),
        decreases to - k,
    {
        let e = find_char(v, sep, k, to);
        let piece = string_of(v, k, e);
        let ghost rest = v@.subrange(k as int, to as int);
        proof {
            assert(rest.take(e - k) =~= v@.subrange(k as int, e as int));
            if e < to {
                assert(rest.skip(e - k + 1) =~= v@.subrange(e + 1, to as int));
            } else {
                assert(rest =~= v@.subrange(k as int, e as int));
                assert(v@.subrange(e as int, to as int) =~= Seq::<char>::empty());
            }
        }
        let ghost before = r@;
        r.push(piece);
        assert(views(r@) =~= views(before) + seq![v@.subrange(k as int, e as int)]);
        k = if e < to { e + 1 } else { e };
    }
    assert(v@.subrange(k as int, to as int) =~= Seq::<char>::empty());
    assert(views(r@) + Seq::<Seq<char>>::empty() =~= views(r@));
    r
}

proof fn lemma_separated_push(p: Seq<Seq<char>>, x: Seq<char>, sep: char)
    requires
        p.len() > 0,
    ensures
        separated(p.push(x), sep) == separated(p, sep) + seq![sep] + x,
    decreases p.len(),
{
    if p.len() == 1 {
        assert(p.push(x).drop_first() =~= seq![x]);
        assert(separated(seq![x], sep) == x);
    } else {
        assert(p.push(x).drop_first() =~= p.drop_first().push(x));
        lemma_separated_push(p.drop_first(), x, sep);
    }
}

/// `parts` with `sep` between each two of them.
pub fn join_with(parts: &Vec<String>, sep: char) -> (r: String)
    ensures
        r@ == separated(views(parts@), sep),
{
    if parts.len() == 0 {
        return String::new();
    }
    let mut r = parts[0].clone();
    assert(views(parts@).take(1) =~= seq![parts@[0]@]);
    let mut k: usize = 1;
    while k < parts.len()
        invariant
            1 <= k <= parts.len(),
            r@ == separated(views(parts@).take(k as int), sep),
        decreases parts.len() - k,
    {
        proof {
            let all = views(parts@);
            assert(all.take(k + 1) =~= all.take(k as int).push(all[k as int]));
            lemma_separated_push(all.take(k as int), all[k as int], sep);
        }
        push_char(&mut r, sep);
        r.append(parts[k].as_str());
        k = k + 1;
    }
    assert(views(parts@).take(parts.len() as int) =~= views(parts@));
    r
}

} // verus!
