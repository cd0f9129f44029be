//! Finding the license-key files of a mod directory.
use vstd::prelude::*;
use crate::error::LaunchError;
use crate::paths::{base_name, base_name_of};
use crate::text::{chars_of, contains_chars, contains_seq, views};

verus! {

/// Key files under a directory of this name are never used.
pub open spec fn excluded_segment() -> Seq<char> {
    "optionals"@
}

/// Whether the key file at `p` may be used.
pub open spec fn usable_key(p: Seq<char>) -> bool {
    !contains_seq(p, excluded_segment())
}

/// The usable key files among `found`, in order.
pub open spec fn kept_keys(found: Seq<Seq<char>>) -> Seq<Seq<char>> {
    found.filter(|p: Seq<char>| usable_key(p))
}

/// `s` with each of the characters `?`, `*`, `[` and `]` put in brackets, so that a
/// glob pattern matches it literally.
pub open spec fn glob_escaped(s: Seq<char>) -> Seq<char>
    decreases s.len(),
{
    if s.len() == 0 {
        seq![]
    } else {
        let c = s[0];
        (if c == '?' || c == '*' || c == '[' || c == ']' {
            seq!['[', c, ']']
        } else {
            seq![c]
        }) + glob_escaped(s.drop_first())
    }
}

/// The glob pattern that finds the key files anywhere under `dir`.
pub open spec fn key_pattern(dir: Seq<char>) -> Seq<char> {
    glob_escaped(dir) + "/**/*.bikey"@
}

#[verifier::external_type_specification]
#[verifier::external_body]
pub struct ExPathBuf(std::path::PathBuf);

#[verifier::external_type_specification]
#[verifier::external_body]
pub struct ExPaths(glob::Paths);

#[verifier::external_type_specification]
#[verifier::external_body]
pub struct ExPatternError(glob::PatternError);

#[verifier::external_type_specification]
#[verifier::external_body]
pub struct ExGlobError(glob::GlobError);

/// Relies on `glob::Pattern::escape`: brackets each `?`, `*`, `[` and `]`, keeps
/// every other character.
#[verifier::external_body]
fn escape_glob(s: &str) -> (r: String)
    ensures
        r@ == glob_escaped(s@),
{
    glob::Pattern::escape(s)
}

/// Relies on `glob::glob_with`: starts a search of the file system for `pattern`,
/// matching letters regardless of case.
#[verifier::external_body]
fn glob_case_insensitive(pattern: &str) -> (r: Result<glob::Paths, glob::PatternError>) {
    glob::glob_with(
        pattern,
        glob::MatchOptions {
            case_sensitive: false,
            require_literal_separator: false,
            require_literal_leading_dot: false,
        },
    )
}

/// Relies on the `Iterator` impl of `glob::Paths`: runs the search to its end and
/// gives each path found as text, or the first error met.
#[verifier::external_body]
fn collect_paths(paths: glob::Paths) -> (r: Result<Vec<String>, glob::GlobError>) {
    paths.map(|entry| entry.map(|p| p.to_string_lossy().into_owned())).collect()
}

/// Relies on the `Display` impl of `glob::PatternError`, for its text.
#[verifier::external_body]
fn pattern_error_text(e: &glob::PatternError) -> (r: String) {
    e.to_string()
}

/// Relies on the `Display` impl of `glob::GlobError`, for its text.
#[verifier::external_body]
fn glob_error_text(e: &glob::GlobError) -> (r: String) {
    e.to_string()
}

/// The glob pattern that finds the key files anywhere under `dir`, with the
/// pattern characters of `dir` itself escaped.
pub fn key_search_pattern(dir: &str) -> (r: String)
    ensures
        r@ == key_pattern(dir@),
{
    let mut r = escape_glob(dir);
    r.append("/**/*.bikey");
    r
}

/// The usable keys among the paths `found` under the mod directory `dir`, or
/// `NoKeyFound` with the directory's name where none is usable.
pub fn select_keys(dir: &str, found: Vec<String>) -> (r: Result<Vec<String>, LaunchError>)
    ensures
        match r {
            Ok(keys) => views(keys@) == kept_keys(views(found@)) && keys.len() > 0,
            Err(LaunchError::NoKeyFound(name)) => {
                kept_keys(views(found@)).len() == 0 && name@ == base_name(dir@)
            },
            Err(_) => false,
        },
{
    let excluded = chars_of("optionals");
    let mut keys: Vec<String> = Vec::new();
    let mut k: usize = 0;
    while k < found.len()
        invariant
            k <= found.len(),
            excluded@ == excluded_segment(),
            views(keys@) == kept_keys(views(found@).take(k as int)),
        decreases found.len() - k,
    {
        let p = chars_of(found[k].as_str());
        let skip = contains_chars(&p, &excluded);
        let ghost pred = |s: Seq<char>| usable_key(s);
        proof {
            let all = views(found@);
            assert(all.take(k + 1) =~= all.take(k as int).push(all[k as int]));
            all.take(k as int).lemma_filter_push(all[k as int], pred);
        }
        if !skip {
            let ghost before = keys@;
            keys.push(found[k].clone());
            assert(views(keys@) =~= views(before).push(found@[k as int]@));
        }
        k = k + 1;
    }
    assert(views(found@).take(found.len() as int) =~= views(found@));
    if keys.len() == 0 {
        Err(LaunchError::NoKeyFound(base_name_of(dir)))
    } else {
        Ok(keys)
    }
}

/// The usable key files anywhere under the mod directory `dir`.
///
/// Fails with `NoKeyFound` where the search finds none, or with `KeySearch` where the
/// search itself fails.
pub fn find_bikey(dir: &str) -> (r: Result<Vec<String>, LaunchError>)
    ensures
        match r {
            Ok(keys) => keys.len() > 0 && forall|i: int| 0 <= i < keys.len() ==> usable_key(#[trigger] keys[i]@),
            Err(LaunchError::NoKeyFound(name)) => name@ == base_name(dir@),
            Err(LaunchError::KeySearch(_)) => true,
            Err(_) => false,
        },
{
    let pattern = key_search_pattern(dir);
    let paths = match glob_case_insensitive(pattern.as_str()) {
        Ok(paths) => paths,
        Err(e) => return Err(LaunchError::KeySearch(pattern_error_text(&e))),
    };
    let found = match collect_paths(paths) {
        Ok(found) => found,
        Err(e) => return Err(LaunchError::KeySearch(glob_error_text(&e))),
    };
    let r = select_keys(dir, found);
    if let Ok(keys) = &r {
        assert forall|i: int| 0 <= i < keys.len() implies usable_key(#[trigger] keys[i]@) by {
            assert(views(keys@)[i] == keys[i]@);
        }
    }
    r
}

/// Where the search under a mod directory finds a key file outside every `optionals`
/// directory, the mod's keys are a non-empty list; where every key file found lies
/// under `optionals`, the mod has none. No kept key lies under `optionals`.
pub proof fn lemma_key_selection(found: Seq<Seq<char>>)
    ensures
        (exists|i: int| 0 <= i < found.len() && usable_key(#[trigger] found[i]))
            ==> kept_keys(found).len() > 0,
        (forall|i: int| 0 <= i < found.len() ==> !usable_key(#[trigger] found[i]))
            ==> kept_keys(found).len() == 0,
        forall|i: int| 0 <= i < kept_keys(found).len() ==> usable_key(#[trigger] kept_keys(found)[i]),
{
    let pred = |p: Seq<char>| usable_key(p);
    assert forall|i: int| 0 <= i < kept_keys(found).len() implies usable_key(#[trigger] kept_keys(found)[i]) by {
        found.lemma_filter_pred(pred, i);
    }
    if exists|i: int| 0 <= i < found.len() && usable_key(#[trigger] found[i]) {
        let i = choose|i: int| 0 <= i < found.len() && usable_key(#[trigger] found[i]);
        found.lemma_filter_contains(pred, i);
    }
    if forall|i: int| 0 <= i < found.len() ==> !usable_key(#[trigger] found[i]) {
        if kept_keys(found).len() > 0 {
            found.lemma_filter_pred(pred, 0);
            let kept = kept_keys(found);
            assert(kept.contains(kept[0]));
            found.lemma_filter_contains_rev(pred, kept[0]);
        }
    }
}

} // verus!
