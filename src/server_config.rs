//! Reading the server password out of the text of the server's `.cfg` file.
//!
//! This is a line-oriented reading, not a parser of the configuration language: the
//! first line that starts with `password` and holds a `;` gives the password.
use vstd::prelude::*;
use crate::error::LaunchError;
use crate::text::{chars_of, count_until, find_char, string_of, trim_bounds, trimmed};

verus! {

/// The word that opens the password line.
pub open spec fn password_token() -> Seq<char> {
    "password"@
}

/// `s` without its first `=` (where `seen_eq` is false) and without any `"`.
pub open spec fn strip_marks(s: Seq<char>, seen_eq: bool) -> Seq<char>
    decreases s.len(),
{
    if s.len() == 0 {
        s
    } else if s[0] == '=' && !seen_eq {
        strip_marks(s.drop_first(), true)
    } else if s[0] == '"' {
        strip_marks(s.drop_first(), seen_eq)
    } else {
        seq![s[0]] + strip_marks(s.drop_first(), seen_eq)
    }
}

/// The password that `line` gives: where it starts with `password`, what follows,
/// with its first `=` and every `"` dropped, up to the first `;` and trimmed; nothing
/// where it does not start so or holds no `;` after that.
pub open spec fn password_on_line(line: Seq<char>) -> Option<Seq<char>> {
    let tok = password_token();
    if line.len() >= tok.len() && line.take(tok.len() as int) == tok {
        let t = strip_marks(line.skip(tok.len() as int), false);
        let k = count_until(t, ';');
        if k < t.len() {
            Some(trimmed(t.take(k as int)))
        } else {
            None
        }
    } else {
        None
    }
}

/// `line` without the carriage return before its line feed.
pub open spec fn strip_cr(line: Seq<char>) -> Seq<char> {
    if line.len() > 0 && line.last() == '\r' {
        line.drop_last()
    } else {
        line
    }
}

/// The first password given by a line of `line + s`, where `line` is the start of
/// the current line; lines end at a line feed (`\r\n` too), the last one at the end.
pub open spec fn password_scan(s: Seq<char>, line: Seq<char>) -> Option<Seq<char>>
    decreases s.len(),
{
    if s.len() == 0 {
        password_on_line(line)
    } else if s[0] == '\n' {
        match password_on_line(strip_cr(line)) {
            Some(p) => Some(p),
            None => password_scan(s.drop_first(), seq![]),
        }
    } else {
        password_scan(s.drop_first(), line.push(s[0]))
    }
}

/// The password that the configuration text `text` gives: that of its first line
/// that gives one.
pub open spec fn config_password(text: Seq<char>) -> Option<Seq<char>> {
    password_scan(text, seq![])
}

/// The password that the line `v[from..to]` gives, where `tok` is the word `password`.
fn password_on_line_exec(v: &Vec<char>, tok: &Vec<char>, from: usize, to: usize) -> (r: Option<String>)
    requires
        from <= to <= v.len(),
        tok@ == password_token(),
    ensures
        match r {
            Some(p) => password_on_line(v@.subrange(from as int, to as int)) == Some(p@),
            None => password_on_line(v@.subrange(from as int, to as int)) is None,
        },
{
    let ghost line = v@.subrange(from as int, to as int);
    if to - from < tok.len() {
        return None;
    }
    let mut k: usize = 0;
    while k < tok.len()
        invariant
            k <= tok.len(),
            from + tok.len() <= to <= v.len(),
            line == v@.subrange(from as int, to as int),
            tok@ == password_token(),
            forall|i: int| 0 <= i < k ==> v@[from + i] == tok@[i],
        decreases tok.len() - k,
    {
        if v[from + k] != tok[k] {
            assert(line.take(tok.len() as int)[k as int] != tok@[k as int]);
            return None;
        }
        k = k + 1;
    }
    assert(line.take(tok.len() as int) =~= tok@);
    let start: usize = from + tok.len();
    let mut t: Vec<char> = Vec::new();
    let mut seen_eq = false;
    let mut i: usize = start;
    assert(t@ + strip_marks(v@.subrange(i as int, to as int), seen_eq) =~= strip_marks(
        v@.subrange(start as int, to as int),
        false,
    ));
    while i < to
        invariant
            start <= i <= to <= v.len(),
            t@ + strip_marks(v@.subrange(i as int, to as int), seen_eq) == strip_marks(
                v@.subrange(start as int, to as int),
                false,
            ),
        decreases to - i,
    {
        let ghost rest = v@.subrange(i as int, to as int);
        assert(rest.drop_first() =~= v@.subrange(i + 1, to as int));
        let c = v[i];
        if c == '=' && !seen_eq {
            seen_eq = true;
        } else if c == '"' {
        } else {
            let ghost before = t@;
            t.push(c);
            assert(t@ + strip_marks(rest.drop_first(), seen_eq) =~= before + (seq![c] + strip_marks(
                rest.drop_first(),
                seen_eq,
            )));
        }
        i = i + 1;
    }
    assert(v@.subrange(to as int, to as int) =~= Seq::<char>::empty());
    assert(t@ + Seq::<char>::empty() =~= t@);
    assert(line.skip(tok.len() as int) =~= v@.subrange(start as int, to as int));
    let e = find_char(&t, ';', 0, t.len());
    assert(t@.subrange(0, t.len() as int) =~= t@);
    if e == t.len() {
        return None;
    }
    let (a, b) = trim_bounds(&t, 0, e);
    assert(t@.subrange(0, e as int) =~= t@.take(e as int));
    Some(string_of(&t, a, b))
}

/// The server password that the configuration text `text` gives: that of its first
/// line that starts with `password` and holds a `;`, or `PasswordNotFound` where no
/// line does.
pub fn get_server_password_from_config(text: &str) -> (r: Result<String, LaunchError>)
    ensures
        match r {
            Ok(p) => config_password(text@) == Some(p@),
            Err(LaunchError::PasswordNotFound) => config_password(text@) is None,
            Err(_) => false,
        },
{
    let v = chars_of(text);
    let tok = chars_of("password");
    let mut ls: usize = 0;
    let mut i: usize = 0;
    assert(v@.skip(0) =~= v@);
    assert(v@.subrange(0, 0) =~= Seq::<char>::empty());
    while i < v.len()
        invariant
            ls <= i <= v.len(),
            tok@ == password_token(),
            v@ == text@,
            config_password(text@) == password_scan(v@.skip(i as int), v@.subrange(ls as int, i as int)),
        decreases v.len() - i,
    {
        let ghost rest = v@.skip(i as int);
        assert(rest.drop_first() =~= v@.skip(i + 1));
        if v[i] == '\n' {
            let e: usize = if i > ls && v[i - 1] == '\r' { i - 1 } else { i };
            assert(strip_cr(v@.subrange(ls as int, i as int)) =~= v@.subrange(ls as int, e as int));
            match password_on_line_exec(&v, &tok, ls, e) {
                Some(p) => {
                    return Ok(p);
                },
                None => {},
            }
            ls = i + 1;
            assert(v@.subrange(ls as int, ls as int) =~= Seq::<char>::empty());
        } else {
            assert(v@.subrange(ls as int, i as int).push(v@[i as int]) =~= v@.subrange(ls as int, i + 1));
        }
        i = i + 1;
    }
    assert(v@.skip(i as int) =~= Seq::<char>::empty());
    match password_on_line_exec(&v, &tok, ls, v.len()) {
        Some(p) => Ok(p),
        None => Err(LaunchError::PasswordNotFound),
    }
}

} // verus!
