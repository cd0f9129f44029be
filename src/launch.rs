//! What a launch hands to the server: the parameter file with its mod list, the
//! configuration file it runs with, and the argument vectors of the server and of
//! each headless client.
use vstd::prelude::*;
use crate::error::LaunchError;
use crate::paths::{base_name, extension, has_extension_of, base_name_of, joined, join_path};
use crate::text::{join_with, push_char, separated, terminated, views};

verus! {

/// The parameter file's name, under the server root.
pub open spec fn launch_file_name() -> Seq<char> {
    "corvuslauncher_loaded_mods.txt"@
}

/// The text of the parameter file for `mods`: `-mod=`, then each mod followed by `;`.
pub open spec fn launch_file_text(mods: Seq<Seq<char>>) -> Seq<char> {
    "-mod="@ + terminated(mods, ';')
}

/// Whether the entry at `p` is a server configuration file: its name has the extension `cfg`.
pub open spec fn is_config_entry(p: Seq<char>) -> bool {
    extension(base_name(p)) == Some("cfg"@)
}

/// The digit that stands for `d`.
pub open spec fn digit(d: nat) -> char {
    if d == 0 { '0' }
    else if d == 1 { '1' }
    else if d == 2 { '2' }
    else if d == 3 { '3' }
    else if d == 4 { '4' }
    else if d == 5 { '5' }
    else if d == 6 { '6' }
    else if d == 7 { '7' }
    else if d == 8 { '8' }
    else { '9' }
}

/// `n` written in decimal, without leading zeros.
pub open spec fn decimal(n: nat) -> Seq<char>
    decreases n,
{
    if n < 10 {
        seq![digit(n)]
    } else {
        decimal(n / 10).push(digit(n % 10))
    }
}

/// The arguments that start the server.
pub open spec fn server_arguments(
    root: Seq<char>,
    port: Seq<char>,
    profile: Seq<char>,
    config: Seq<char>,
    server_mods: Seq<Seq<char>>,
) -> Seq<Seq<char>> {
    seq![
        "-port="@ + port,
        "-hugepages"@,
        "-maxMem=30000"@,
        "-maxFileCacheSize=8192"@,
        "-enableHT"@,
        "-bandwidthAlg=2"@,
        "-limitFPS=1000"@,
        "-loadMissionToMemory"@,
        "-name=server"@,
        "-world=empty"@,
        "-profiles="@ + joined(root, profile),
        "-config="@ + config,
        "-cfg="@ + joined(joined(joined(joined(root, profile), "Users"@), "server"@), "Arma3.cfg"@),
        "-serverMod="@ + separated(server_mods, ';'),
        "-par="@ + joined(root, launch_file_name()),
    ]
}

/// The arguments that start the headless client numbered `index`.
pub open spec fn headless_arguments(
    root: Seq<char>,
    port: Seq<char>,
    password: Seq<char>,
    index: nat,
) -> Seq<Seq<char>> {
    seq![
        "-port="@ + port,
        "-client"@,
        "-password="@ + password,
        "-profiles="@ + joined(root, "headlessProfile"@ + decimal(index)),
        "-name=hc"@ + decimal(index),
        "-par="@ + joined(root, launch_file_name()),
    ]
}

proof fn lemma_terminated_push(p: Seq<Seq<char>>, x: Seq<char>, sep: char)
    ensures
        terminated(p.push(x), sep) == terminated(p, sep) + x + seq![sep],
    decreases p.len(),
{
    if p.len() == 0 {
        assert(p.push(x).drop_first() =~= Seq::<Seq<char>>::empty());
        assert(p.push(x)[0] == x);
        assert(terminated(p.push(x).drop_first(), sep) == Seq::<char>::empty());
        assert(terminated(p, sep) == Seq::<char>::empty());
        assert(terminated(p.push(x), sep) =~= terminated(p, sep) + x + seq![sep]);
    } else {
        assert(p.push(x).drop_first() =~= p.drop_first().push(x));
        lemma_terminated_push(p.drop_first(), x, sep);
    }
}

/// The text of the parameter file that hands `mods` to the server: `-mod=`, then
/// each mod followed by `;`, the last one too.
pub fn build_mods_launch_file(mods: &Vec<String>) -> (r: String)
    ensures
        r@ == launch_file_text(views(mods@)),
{
    let mut r = String::from_str("-mod=");
    let mut k: usize = 0;
    assert(views(mods@).take(0) =~= Seq::<Seq<char>>::empty());
    while k < mods.len()
        invariant
            k <= mods.len(),
            r@ == launch_file_text(views(mods@).take(k as int)),
        decreases mods.len() - k,
    {
        proof {
            let all = views(mods@);
            assert(all.take(k + 1) =~= all.take(k as int).push(all[k as int]));
            lemma_terminated_push(all.take(k as int), all[k as int], ';');
        }
        r.append(mods[k].as_str());
        push_char(&mut r, ';');
        k = k + 1;
    }
    assert(views(mods@).take(mods.len() as int) =~= views(mods@));
    r
}

/// Where the parameter file lies: under the server root.
pub fn launch_file_path(root: &str) -> (r: String)
    ensures
        r@ == joined(root@, launch_file_name()),
{
    join_path(root, "corvuslauncher_loaded_mods.txt")
}

/// The first of `entries`, the paths in the server root, that is a `.cfg` file, or
/// `ConfigNotFound` where there is none.
pub fn find_config(entries: &Vec<String>) -> (r: Result<String, LaunchError>)
    ensures
        match r {
            Ok(p) => exists|i: int|
                0 <= i < entries.len() && entries[i]@ == p@ && is_config_entry(p@)
                    && forall|j: int| 0 <= j < i ==> !is_config_entry(#[trigger] entries[j]@),
            Err(LaunchError::ConfigNotFound) => forall|j: int|
                0 <= j < entries.len() ==> !is_config_entry(#[trigger] entries[j]@),
            Err(_) => false,
        },
{
    let mut k: usize = 0;
    while k < entries.len()
        invariant
            k <= entries.len(),
            forall|j: int| 0 <= j < k ==> !is_config_entry(#[trigger] entries[j]@),
        decreases entries.len() - k,
    {
        let name = base_name_of(entries[k].as_str());
        if has_extension_of(name.as_str(), "cfg") {
            let p = entries[k].clone();
            assert(entries[k as int]@ == p@);
            return Ok(p);
        }
        k = k + 1;
    }
    Err(LaunchError::ConfigNotFound)
}

/// The digit that stands for `d`.
fn digit_char(d: u64) -> (r: char)
    requires
        d < 10,
    ensures
        r == digit(d as nat),
{
    if d == 0 { '0' }
    else if d == 1 { '1' }
    else if d == 2 { '2' }
    else if d == 3 { '3' }
    else if d == 4 { '4' }
    else if d == 5 { '5' }
    else if d == 6 { '6' }
    else if d == 7 { '7' }
    else if d == 8 { '8' }
    else { '9' }
}

/// Appends `n` in decimal to `s`.
pub fn push_decimal(s: &mut String, n: u64)
    ensures
        final(s)@ == old(s)@ + decimal(n as nat),
    decreases n,
{
    if n >= 10 {
        push_decimal(s, n / 10);
    }
    push_char(s, digit_char(n % 10));
    assert(final(s)@ =~= old(s)@ + decimal(n as nat));
}

/// `prefix` followed by `rest`.
fn prefixed(prefix: &str, rest: &str) -> (r: String)
    ensures
        r@ == prefix@ + rest@,
{
    let mut r = String::from_str(prefix);
    r.append(rest);
    r
}

/// The arguments that start the server under `root` on `port`, with the profile
/// directory `profile`, the configuration file `config` and the server-side mods
/// `server_mods`.
pub fn server_args(root: &str, port: &str, profile: &str, config: &str, server_mods: &Vec<String>) -> (r: Vec<String>)
    ensures
        views(r@) == server_arguments(root@, port@, profile@, config@, views(server_mods@)),
{
    let mut r: Vec<String> = Vec::new();
    r.push(prefixed("-port=", port));
    r.push(String::from_str("-hugepages"));
    r.push(String::from_str("-maxMem=30000"));
    r.push(String::from_str("-maxFileCacheSize=8192"));
    r.push(String::from_str("-enableHT"));
    r.push(String::from_str("-bandwidthAlg=2"));
    r.push(String::from_str("-limitFPS=1000"));
    r.push(String::from_str("-loadMissionToMemory"));
    r.push(String::from_str("-name=server"));
    r.push(String::from_str("-world=empty"));
    let profile_dir = join_path(root, profile);
    r.push(prefixed("-profiles=", profile_dir.as_str()));
    r.push(prefixed("-config=", config));
    let users = join_path(profile_dir.as_str(), "Users");
    let user = join_path(users.as_str(), "server");
    let cfg = join_path(user.as_str(), "Arma3.cfg");
    r.push(prefixed("-cfg=", cfg.as_str()));
    let joined_mods = join_with(server_mods, ';');
    r.push(prefixed("-serverMod=", joined_mods.as_str()));
    let par = launch_file_path(root);
    r.push(prefixed("-par=", par.as_str()));
    assert(views(r@) =~= server_arguments(root@, port@, profile@, config@, views(server_mods@)));
    r
}

/// The arguments that start the headless client numbered `index` under `root` on
/// `port`, joining with `password`.
pub fn headless_args(root: &str, port: &str, password: &str, index: u64) -> (r: Vec<String>)
    ensures
        views(r@) == headless_arguments(root@, port@, password@, index as nat),
{
    let mut r: Vec<String> = Vec::new();
    r.push(prefixed("-port=", port));
    r.push(String::from_str("-client"));
    r.push(prefixed("-password=", password));
    let mut profile = String::from_str("headlessProfile");
    push_decimal(&mut profile, index);
    let profile_dir = join_path(root, profile.as_str());
    r.push(prefixed("-profiles=", profile_dir.as_str()));
    let mut name = String::from_str("-name=hc");
    push_decimal(&mut name, index);
    r.push(name);
    let par = launch_file_path(root);
    r.push(prefixed("-par=", par.as_str()));
    assert(views(r@) =~= headless_arguments(root@, port@, password@, index as nat));
    r
}

} // verus!
