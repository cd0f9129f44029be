//! Mod lists: named, ordered lists of mod directories, each relative to the server root.
use vstd::prelude::*;
use crate::text::{
    chars_of, count_until, separated, split_chars, split_terminated, terminated, views,
};
use crate::paths::{base_name, base_name_of, file_stem, file_stem_of};

verus! {

/// Whether no character of `s` is `c`.
pub open spec fn free_of(s: Seq<char>, c: char) -> bool {
    forall|i: int| 0 <= i < s.len() ==> s[i] != c
}

/// The mod paths that a mod-list file with the text `contents` names.
pub open spec fn mod_entries(contents: Seq<char>) -> Seq<Seq<char>> {
    split_terminated(contents, ';')
}

/// A mod list, read from one file.
#[derive(Debug)]
pub struct ServerModList {
    /// Shown to the operator: the file's name without its extension.
    pub name: String,
    /// The file that the list was read from.
    pub path: String,
    /// Whether the operator picked this list for the next launch.
    pub selected: bool,
    /// The mod directories, relative to the server root, in file order.
    pub mods: Vec<String>,
}

/// The mod paths named by the text of a mod-list file: the pieces between `;`,
/// where a `;` at the end closes the last piece.
pub fn parse_mod_list(contents: &str) -> (r: Vec<String>)
    ensures
        views(r@) == mod_entries(contents@),
{
    let v = chars_of(contents);
    assert(v@.subrange(0, v.len() as int) =~= v@);
    split_chars(&v, ';', 0, v.len())
}

impl ServerModList {
    /// The mod list read from the file at `path`, whose text is `contents`.
    pub fn new(name: String, path: String, selected: bool, contents: &str) -> (r: ServerModList)
        ensures
            r.name == name,
            r.path == path,
            r.selected == selected,
            views(r.mods@) == mod_entries(contents@),
    {
        let mods = parse_mod_list(contents);
        ServerModList { name, path, selected, mods }
    }
}

/// The mod lists read from the files of one directory, in the order given: each as
/// `(path, contents)`, named after the file's stem and not yet selected.
pub fn load_modlists(files: Vec<(String, String)>) -> (r: Vec<ServerModList>)
    ensures
        r.len() == files.len(),
        forall|i: int|
            0 <= i < r.len() ==> {
                &&& r[i].name@ == file_stem(base_name(files[i].0@))
                &&& r[i].path == files[i].0
                &&& !r[i].selected
                &&& views(r[i].mods@) == mod_entries(files[i].1@)
            },
{
    let mut r: Vec<ServerModList> = Vec::new();
    let mut k: usize = 0;
    while k < files.len()
        invariant
            k <= files.len(),
            r.len() == k,
            forall|i: int|
                0 <= i < k ==> {
                    &&& r[i].name@ == file_stem(base_name(files[i].0@))
                    &&& r[i].path == files[i].0
                    &&& !r[i].selected
                    &&& views(r[i].mods@) == mod_entries(files[i].1@)
                },
        decreases files.len() - k,
    {
        let path = files[k].0.clone();
        let file_name = base_name_of(path.as_str());
        let name = file_stem_of(file_name.as_str());
        let list = ServerModList::new(name, path, false, files[k].1.as_str());
        r.push(list);
        k = k + 1;
    }
    r
}

proof fn lemma_count_until_free(e: Seq<char>, c: char)
    requires
        free_of(e, c),
    ensures
        count_until(e, c) == e.len(),
    decreases e.len(),
{
    if e.len() > 0 {
        lemma_count_until_free(e.drop_first(), c);
    }
}

proof fn lemma_count_until_prefix(e: Seq<char>, rest: Seq<char>, c: char)
    requires
        free_of(e, c),
    ensures
        count_until(e + seq![c] + rest, c) == e.len(),
    decreases e.len(),
{
    let s = e + seq![c] + rest;
    if e.len() > 0 {
        assert(s.drop_first() =~= e.drop_first() + seq![c] + rest);
        lemma_count_until_prefix(e.drop_first(), rest, c);
    } else {
        assert(s[0] == c);
    }
}

proof fn lemma_split_piece(e: Seq<char>, rest: Seq<char>, c: char)
    requires
        free_of(e, c),
    ensures
        split_terminated(e + seq![c] + rest, c) == seq![e] + split_terminated(rest, c),
{
    let s = e + seq![c] + rest;
    lemma_count_until_prefix(e, rest, c);
    assert(s.take(e.len() as int) =~= e);
    assert(s.skip(e.len() + 1 as int) =~= rest);
}

proof fn lemma_split_terminated(parts: Seq<Seq<char>>, c: char)
    requires
        forall|j: int| 0 <= j < parts.len() ==> free_of(#[trigger] parts[j], c),
    ensures
        split_terminated(terminated(parts, c), c) == parts,
    decreases parts.len(),
{
    if parts.len() > 0 {
        let rest = parts.drop_first();
        assert forall|j: int| 0 <= j < rest.len() implies free_of(#[trigger] rest[j], c) by {
            assert(rest[j] == parts[j + 1]);
        }
        lemma_split_terminated(rest, c);
        assert(free_of(parts[0], c));
        lemma_split_piece(parts[0], terminated(rest, c), c);
        assert(seq![parts[0]] + rest =~= parts);
    } else {
        assert(split_terminated(terminated(parts, c), c) =~= parts);
    }
}

proof fn lemma_split_separated(parts: Seq<Seq<char>>, c: char)
    requires
        forall|j: int| 0 <= j < parts.len() ==> free_of(#[trigger] parts[j], c),
        parts.len() == 0 || parts.last().len() > 0,
    ensures
        split_terminated(separated(parts, c), c) == parts,
    decreases parts.len(),
{
    if parts.len() == 1 {
        assert(free_of(parts[0], c));
        lemma_count_until_free(parts[0], c);
        assert(seq![parts[0]] =~= parts);
    } else if parts.len() > 1 {
        let rest = parts.drop_first();
        assert forall|j: int| 0 <= j < rest.len() implies free_of(#[trigger] rest[j], c) by {
            assert(rest[j] == parts[j + 1]);
        }
        assert(rest.last() == parts.last());
        lemma_split_separated(rest, c);
        assert(free_of(parts[0], c));
        lemma_split_piece(parts[0], separated(rest, c), c);
        assert(seq![parts[0]] + rest =~= parts);
    } else {
        assert(split_terminated(separated(parts, c), c) =~= parts);
    }
}

/// A mod-list file that names N mods, none holding a `;`, with `;` between them and
/// optionally after the last one, reads back as exactly those N mods in file order.
/// Without the closing `;` the last mod must not be empty, for an empty last piece
/// leaves no trace in the text.
pub proof fn lemma_mod_list_round_trip(mods: Seq<Seq<char>>, closed: bool)
    requires
        forall|j: int| 0 <= j < mods.len() ==> free_of(#[trigger] mods[j], ';'),
        closed || mods.len() == 0 || mods.last().len() > 0,
    ensures
        closed ==> mod_entries(terminated(mods, ';')) == mods,
        !closed ==> mod_entries(separated(mods, ';')) == mods,
        mod_entries(if closed { terminated(mods, ';') } else { separated(mods, ';') }).len()
            == mods.len(),
{
    if closed {
        lemma_split_terminated(mods, ';');
    } else {
        lemma_split_separated(mods, ';');
    }
}

} // verus!
