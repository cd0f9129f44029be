//! Staging keys for a launch: which files leave the key directory, which key files of
//! the selected mods come in, and the all-or-nothing gate between the two.
use vstd::prelude::*;
use crate::error::{LaunchError, error_message};
use crate::keys::{find_bikey, usable_key};
use crate::paths::{
    base_name, base_name_of, joined, join_path, lemma_base_name_of_joined,
    lemma_base_name_separator_free,
};
use crate::text::{contains_seq, join_with, occurs_at, separated, views};

verus! {

/// The name of the key file that always stays in the key directory.
pub open spec fn sentinel_key() -> Seq<char> {
    "a3.bikey"@
}

/// The entries of the key directory that clearing it removes: all but the sentinel key.
pub open spec fn stale_entries(names: Seq<Seq<char>>) -> Seq<Seq<char>> {
    names.filter(|n: Seq<char>| n != sentinel_key())
}

/// The names under which the key files `keys` are copied into the key directory.
pub open spec fn key_names(keys: Seq<Seq<char>>) -> Set<Seq<char>> {
    keys.map_values(|k: Seq<char>| base_name(k)).to_set()
}

/// The names in the key directory once the entries `present` were cleared as
/// `stale_entries` says and the key files `keys` were copied in.
pub open spec fn after_staging(present: Set<Seq<char>>, keys: Seq<Seq<char>>) -> Set<Seq<char>> {
    present.filter(|n: Seq<char>| !(n != sentinel_key())).union(key_names(keys))
}

/// The messages of the failed outcomes among `o`, in order.
pub open spec fn failure_messages(o: Seq<Result<Vec<String>, LaunchError>>) -> Seq<Seq<char>>
    decreases o.len(),
{
    if o.len() == 0 {
        seq![]
    } else {
        let prev = failure_messages(o.drop_last());
        match o.last() {
            Ok(_) => prev,
            Err(e) => prev.push(error_message(e)),
        }
    }
}

/// The key files of the successful outcomes among `o`, in order.
pub open spec fn found_keys(o: Seq<Result<Vec<String>, LaunchError>>) -> Seq<Seq<char>>
    decreases o.len(),
{
    if o.len() == 0 {
        seq![]
    } else {
        let prev = found_keys(o.drop_last());
        match o.last() {
            Ok(keys) => prev + views(keys@),
            Err(_) => prev,
        }
    }
}

/// One copy of a key file into the key directory.
#[derive(Debug)]
pub struct KeyCopy {
    /// The key file found in a mod.
    pub from: String,
    /// Where it goes: the key directory, and the file's own name.
    pub to: String,
}

/// The entries of the key directory, by name, that clearing it removes: every one
/// but the sentinel key `a3.bikey`.
pub fn stale_key_files(names: &Vec<String>) -> (r: Vec<String>)
    ensures
        views(r@) == stale_entries(views(names@)),
{
    let sentinel = String::from_str("a3.bikey");
    let mut r: Vec<String> = Vec::new();
    let mut k: usize = 0;
    while k < names.len()
        invariant
            k <= names.len(),
            sentinel@ == sentinel_key(),
            views(r@) == stale_entries(views(names@).take(k as int)),
        decreases names.len() - k,
    {
        let ghost pred = |n: Seq<char>| n != sentinel_key();
        proof {
            let all = views(names@);
            assert(all.take(k + 1) =~= all.take(k as int).push(all[k as int]));
            all.take(k as int).lemma_filter_push(all[k as int], pred);
        }
        if !(names[k] == sentinel) {
            let ghost before = r@;
            r.push(names[k].clone());
            assert(views(r@) =~= views(before).push(names@[k as int]@));
        }
        k = k + 1;
    }
    assert(views(names@).take(names.len() as int) =~= views(names@));
    r
}

/// Joins the outcomes of the key search of each selected mod: every key file found
/// where all of them succeeded, else `MissingKeys` with each failure's message, one per line.
pub fn gather_keys(outcomes: &Vec<Result<Vec<String>, LaunchError>>) -> (r: Result<Vec<String>, LaunchError>)
    ensures
        match r {
            Ok(keys) => failure_messages(outcomes@).len() == 0 && views(keys@) == found_keys(outcomes@),
            Err(LaunchError::MissingKeys(m)) => {
                failure_messages(outcomes@).len() > 0
                    && m@ == separated(failure_messages(outcomes@), '\n')
            },
            Err(_) => false,
        },
{
    let mut keys: Vec<String> = Vec::new();
    let mut failures: Vec<String> = Vec::new();
    let mut k: usize = 0;
    while k < outcomes.len()
        invariant
            k <= outcomes.len(),
            views(keys@) == found_keys(outcomes@.take(k as int)),
            views(failures@) == failure_messages(outcomes@.take(k as int)),
        decreases outcomes.len() - k,
    {
        let ghost seen = outcomes@.take(k + 1);
        assert(seen.drop_last() =~= outcomes@.take(k as int));
        match &outcomes[k] {
            Ok(found) => {
                let mut j: usize = 0;
                while j < found.len()
                    invariant
                        j <= found.len(),
                        views(keys@) == found_keys(outcomes@.take(k as int)) + views(found@).take(j as int),
                    decreases found.len() - j,
                {
                    let ghost before = keys@;
                    keys.push(found[j].clone());
                    assert(views(keys@) =~= views(before).push(found@[j as int]@));
                    assert(views(found@).take(j + 1) =~= views(found@).take(j as int).push(found@[j as int]@));
                    j = j + 1;
                }
                assert(views(found@).take(found.len() as int) =~= views(found@));
            },
            Err(e) => {
                let ghost before = failures@;
                failures.push(e.message());
                assert(views(failures@) =~= views(before).push(error_message(*e)));
            },
        }
        k = k + 1;
    }
    assert(outcomes@.take(outcomes.len() as int) =~= outcomes@);
    if failures.len() > 0 {
        Err(LaunchError::MissingKeys(join_with(&failures, '\n')))
    } else {
        Ok(keys)
    }
}

/// Searches each mod directory of `mods`, relative to `root`, for its key files, and
/// joins the outcomes as `gather_keys` does: the key files of all of them, or
/// `MissingKeys` naming each mod that has none.
pub fn resolve_mod_keys(root: &str, mods: &Vec<String>) -> (r: Result<Vec<String>, LaunchError>)
    ensures
        match r {
            Ok(keys) => forall|i: int| 0 <= i < keys.len() ==> usable_key(#[trigger] keys[i]@),
            Err(LaunchError::MissingKeys(_)) => mods.len() > 0,
            Err(_) => false,
        },
        mods.len() == 0 ==> (r matches Ok(keys) && keys.len() == 0),
{
    let mut outcomes: Vec<Result<Vec<String>, LaunchError>> = Vec::new();
    let mut k: usize = 0;
    while k < mods.len()
        invariant
            k <= mods.len(),
            outcomes.len() == k,
            forall|i: int| 0 <= i < k ==> match #[trigger] outcomes@[i] {
                Ok(keys) => forall|j: int| 0 <= j < keys.len() ==> usable_key(#[trigger] keys[j]@),
                Err(_) => true,
            },
        decreases mods.len() - k,
    {
        let dir = join_path(root, mods[k].as_str());
        outcomes.push(find_bikey(dir.as_str()));
        k = k + 1;
    }
    let r = gather_keys(&outcomes);
    assert(mods.len() == 0 ==> outcomes@ =~= Seq::<Result<Vec<String>, LaunchError>>::empty());
    proof {
        lemma_found_keys_usable(outcomes@);
    }
    if let Ok(keys) = &r {
        assert forall|i: int| 0 <= i < keys.len() implies usable_key(#[trigger] keys[i]@) by {
            assert(views(keys@)[i] == keys[i]@);
        }
    }
    r
}

proof fn lemma_found_keys_usable(o: Seq<Result<Vec<String>, LaunchError>>)
    requires
        forall|i: int| 0 <= i < o.len() ==> match #[trigger] o[i] {
            Ok(keys) => forall|j: int| 0 <= j < keys.len() ==> usable_key(#[trigger] keys[j]@),
            Err(_) => true,
        },
    ensures
        forall|i: int| 0 <= i < found_keys(o).len() ==> usable_key(#[trigger] found_keys(o)[i]),
    decreases o.len(),
{
    if o.len() > 0 {
        let prev = o.drop_last();
        assert forall|i: int| 0 <= i < prev.len() implies match #[trigger] prev[i] {
            Ok(keys) => forall|j: int| 0 <= j < keys.len() ==> usable_key(#[trigger] keys[j]@),
            Err(_) => true,
        } by {
            assert(prev[i] == o[i]);
        }
        lemma_found_keys_usable(prev);
        let last = o[o.len() - 1];
        if let Ok(keys) = last {
            let fk = found_keys(o);
            let pl = found_keys(prev).len();
            assert(fk == found_keys(prev) + views(keys@));
            assert forall|i: int| 0 <= i < fk.len() implies usable_key(#[trigger] fk[i]) by {
                if i >= pl {
                    assert(fk[i] == views(keys@)[i - pl]);
                    assert(views(keys@)[i - pl] == keys[i - pl]@);
                }
            }
        }
    }
}

/// The directory the server reads keys from: `keys` under the server root.
pub fn key_directory(root: &str) -> (r: String)
    ensures
        r@ == joined(root@, "keys"@),
{
    join_path(root, "keys")
}

/// The copies that bring the key files `keys` into `keys_dir`, each under its own name.
pub fn key_copy_plan(keys_dir: &str, keys: &Vec<String>) -> (r: Vec<KeyCopy>)
    ensures
        r.len() == keys.len(),
        forall|i: int|
            0 <= i < r.len() ==> {
                &&& (#[trigger] r[i]).from@ == keys[i]@
                &&& r[i].to@ == joined(keys_dir@, base_name(keys[i]@))
                &&& base_name(keys[i]@).len() > 0 ==> base_name(r[i].to@) == base_name(keys[i]@)
            },
{
    let mut r: Vec<KeyCopy> = Vec::new();
    let mut k: usize = 0;
    while k < keys.len()
        invariant
            k <= keys.len(),
            r.len() == k,
            forall|i: int|
                0 <= i < k ==> {
                    &&& (#[trigger] r[i]).from@ == keys[i]@
                    &&& r[i].to@ == joined(keys_dir@, base_name(keys[i]@))
                    &&& base_name(keys[i]@).len() > 0 ==> base_name(r[i].to@) == base_name(keys[i]@)
                },
        decreases keys.len() - k,
    {
        let name = base_name_of(keys[k].as_str());
        proof {
            lemma_base_name_separator_free(keys[k as int]@);
            if name@.len() > 0 {
                lemma_base_name_of_joined(keys_dir@, name@);
            }
        }
        let to = join_path(keys_dir, name.as_str());
        r.push(KeyCopy { from: keys[k].clone(), to });
        k = k + 1;
    }
    r
}

/// The key copies for a launch: the key files of every mod of `mods` and of
/// `clientsides`, all relative to `root`, each bound for the key directory.
///
/// Fails with `MissingKeys` where any of those mods has no usable key file, and then
/// plans no copy at all.
pub fn plan_key_staging(root: &str, mods: &Vec<String>, clientsides: &Vec<String>) -> (r: Result<
    Vec<KeyCopy>,
    LaunchError,
>)
    ensures
        match r {
            Ok(plan) => forall|i: int|
                0 <= i < plan.len() ==> {
                    &&& usable_key((#[trigger] plan[i]).from@)
                    &&& plan[i].to@ == joined(joined(root@, "keys"@), base_name(plan[i].from@))
                },
            Err(LaunchError::MissingKeys(_)) => mods.len() + clientsides.len() > 0,
            Err(_) => false,
        },
        mods.len() + clientsides.len() == 0 ==> (r matches Ok(plan) && plan.len() == 0),
{
    let mut all: Vec<String> = Vec::new();
    let mut k: usize = 0;
    while k < mods.len()
        invariant
            k <= mods.len(),
            all.len() == k,
        decreases mods.len() - k,
    {
        all.push(mods[k].clone());
        k = k + 1;
    }
    k = 0;
    while k < clientsides.len()
        invariant
            k <= clientsides.len(),
            all.len() == mods.len() + k,
        decreases clientsides.len() - k,
    {
        all.push(clientsides[k].clone());
        k = k + 1;
    }
    let keys = match resolve_mod_keys(root, &all) {
        Ok(keys) => keys,
        Err(e) => return Err(e),
    };
    let dir = key_directory(root);
    Ok(key_copy_plan(dir.as_str(), &keys))
}

proof fn lemma_failure_listed(o: Seq<Result<Vec<String>, LaunchError>>, i: int) -> (j: int)
    requires
        0 <= i < o.len(),
        o[i] is Err,
    ensures
        0 <= j < failure_messages(o).len(),
        failure_messages(o)[j] == error_message(o[i]->Err_0),
    decreases o.len(),
{
    let prev = o.drop_last();
    if i == o.len() - 1 {
        failure_messages(prev).len() as int
    } else {
        assert(prev[i] == o[i]);
        lemma_failure_listed(prev, i)
    }
}

proof fn lemma_separated_holds(p: Seq<Seq<char>>, j: int, sep: char)
    requires
        0 <= j < p.len(),
    ensures
        contains_seq(separated(p, sep), p[j]),
    decreases p.len(),
{
    let s = separated(p, sep);
    if j == 0 {
        if p.len() == 1 {
            assert(s.subrange(0, p[0].len() as int) =~= p[0]);
        } else {
            assert(s.subrange(0, p[0].len() as int) =~= p[0]);
        }
        assert(occurs_at(s, p[0], 0));
    } else {
        let rest = p.drop_first();
        assert(rest[j - 1] == p[j]);
        lemma_separated_holds(rest, j - 1, sep);
        let t = separated(rest, sep);
        let x = choose|x: int| occurs_at(t, p[j], x);
        let off = p[0].len() + 1;
        assert(s == p[0] + seq![sep] + t);
        assert(s.subrange(off + x, off + x + p[j].len()) =~= t.subrange(x, x + p[j].len()));
        assert(occurs_at(s, p[j], off + x));
    }
}

/// A mod without key files stops the whole staging: where the search for any
/// selected mod failed, the outcomes join into `MissingKeys`, so no key is copied
/// for any mod, and the message holds that mod's own failure text.
pub proof fn lemma_missing_key_blocks_staging(o: Seq<Result<Vec<String>, LaunchError>>, i: int)
    requires
        0 <= i < o.len(),
        o[i] is Err,
    ensures
        failure_messages(o).len() > 0,
        contains_seq(separated(failure_messages(o), '\n'), error_message(o[i]->Err_0)),
{
    let j = lemma_failure_listed(o, i);
    lemma_separated_holds(failure_messages(o), j, '\n');
}

/// Clearing the key directory removes every entry but the sentinel key: what stays
/// of the entries `names` is the sentinel key where it was there, and nothing else.
pub proof fn lemma_clearing_leaves_sentinel(names: Seq<Seq<char>>)
    ensures
        names.to_set().difference(stale_entries(names).to_set())
            == names.to_set().filter(|n: Seq<char>| !(n != sentinel_key())),
{
    let pred = |n: Seq<char>| n != sentinel_key();
    let stale = stale_entries(names);
    assert forall|n: Seq<char>| #[trigger] stale.to_set().contains(n) <==> (names.to_set().contains(n) && pred(n)) by {
        if stale.to_set().contains(n) {
            assert(stale.contains(n));
            let i = choose|i: int| 0 <= i < stale.len() && stale[i] == n;
            names.lemma_filter_pred(pred, i);
            names.lemma_filter_contains_rev(pred, n);
        }
        if names.to_set().contains(n) && pred(n) {
            let i = choose|i: int| 0 <= i < names.len() && names[i] == n;
            names.lemma_filter_contains(pred, i);
        }
    }
    assert(names.to_set().difference(stale.to_set()) =~= names.to_set().filter(
        |n: Seq<char>| !(n != sentinel_key()),
    ));
}

/// Staging twice leaves only what the second staging brought, besides the sentinel
/// key: every key file of the second set is there, and nothing else but `a3.bikey`,
/// whatever the directory held before or the first staging copied.
pub proof fn lemma_staging_forgets_earlier_keys(
    present: Set<Seq<char>>,
    first: Seq<Seq<char>>,
    second: Seq<Seq<char>>,
)
    ensures
        key_names(second).subset_of(after_staging(after_staging(present, first), second)),
        after_staging(after_staging(present, first), second).remove(sentinel_key())
            == key_names(second).remove(sentinel_key()),
        after_staging(after_staging(present, first), second)
            == after_staging(after_staging(present, first).filter(|n: Seq<char>| n == sentinel_key()), second),
{
    let once = after_staging(present, first);
    let twice = after_staging(once, second);
    assert(twice.remove(sentinel_key()) =~= key_names(second).remove(sentinel_key()));
    assert(twice =~= after_staging(once.filter(|n: Seq<char>| n == sentinel_key()), second));
}

} // verus!
