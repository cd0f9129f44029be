use corvus_launcher::error::LaunchError;
use corvus_launcher::keys::{find_bikey, key_search_pattern, select_keys};
use corvus_launcher::launch::{build_mods_launch_file, find_config, headless_args, launch_file_path, server_args};
use corvus_launcher::modlist::{load_modlists, parse_mod_list};
use corvus_launcher::paths::{base_name_of, file_stem_of, has_extension_of, join_path};
use corvus_launcher::server_config::get_server_password_from_config;
use corvus_launcher::staging::{gather_keys, key_copy_plan, key_directory, plan_key_staging, stale_key_files};
use corvus_launcher::ServerModList;

fn strings(v: &[&str]) -> Vec<String> {
    v.iter().map(|s| s.to_string()).collect()
}

#[test]
fn test_config_parse() {
    let config = "hostname = \"Server\";\npassword = \"passwordcanbe=anything\";\npasswordAdmin = \"x\";\n";
    let server_password = get_server_password_from_config(config).unwrap();
    assert_eq!(server_password, "passwordcanbe=anything");
}

#[test]
fn password_without_line_is_parse_error() {
    let config = "hostname = \"Server\";\nmaxPlayers = 64;\n";
    assert!(matches!(get_server_password_from_config(config), Err(LaunchError::PasswordNotFound)));
    assert!(matches!(get_server_password_from_config(""), Err(LaunchError::PasswordNotFound)));
}

#[test]
fn password_line_needs_semicolon() {
    let config = "password = \"first\"\r\npassword = \"second\";\r\n";
    assert_eq!(get_server_password_from_config(config).unwrap(), "second");
}

#[test]
fn password_trims_and_drops_quotes() {
    let config = "  password = \"lead\";\npassword=  \"a\"b\"  ;tail";
    assert_eq!(get_server_password_from_config(config).unwrap(), "ab");
}

#[test]
fn mod_list_entries_in_file_order() {
    let mods = parse_mod_list("vn;mods\\ace;mods\\zen");
    assert_eq!(mods, strings(&["vn", "mods\\ace", "mods\\zen"]));
    let mods = parse_mod_list("vn;mods\\ace;mods\\zen;");
    assert_eq!(mods, strings(&["vn", "mods\\ace", "mods\\zen"]));
    assert_eq!(parse_mod_list("a;;b;"), strings(&["a", "", "b"]));
    assert!(parse_mod_list("").is_empty());
}

#[test]
fn mod_list_new_and_load() {
    let list = ServerModList::new("main".to_string(), "/lists/main.txt".to_string(), true, "@cba;@ace;");
    assert_eq!(list.name, "main");
    assert!(list.selected);
    assert_eq!(list.mods, strings(&["@cba", "@ace"]));
    let files = vec![
        ("/lists/Main Pack.txt".to_string(), "@a;@b".to_string()),
        ("/lists/.hidden".to_string(), "@c;".to_string()),
    ];
    let lists = load_modlists(files);
    assert_eq!(lists.len(), 2);
    assert_eq!(lists[0].name, "Main Pack");
    assert_eq!(lists[0].mods, strings(&["@a", "@b"]));
    assert!(!lists[0].selected);
    assert_eq!(lists[1].name, ".hidden");
    assert_eq!(lists[1].path, "/lists/.hidden");
}

#[test]
fn launch_file_text() {
    assert_eq!(build_mods_launch_file(&strings(&["a", "b"])), "-mod=a;b;");
    assert_eq!(build_mods_launch_file(&Vec::new()), "-mod=");
    assert_eq!(launch_file_path("/srv/a3"), "/srv/a3/corvuslauncher_loaded_mods.txt");
}

#[test]
fn key_pattern_escapes_glob_characters() {
    assert_eq!(key_search_pattern("/srv/mods/@ace[3]"), "/srv/mods/@ace[[]3[]]/**/*.bikey");
    assert_eq!(key_search_pattern("/srv/a?*"), "/srv/a[?][*]/**/*.bikey");
}

#[test]
fn keys_outside_optionals_are_kept() {
    let found = strings(&[
        "/srv/@ace/keys/ace.bikey",
        "/srv/@ace/optionals/extra/keys/x.bikey",
        "/srv/@ace/keys/ace2.bikey",
    ]);
    let keys = select_keys("/srv/@ace", found).unwrap();
    assert_eq!(keys, strings(&["/srv/@ace/keys/ace.bikey", "/srv/@ace/keys/ace2.bikey"]));
}

#[test]
fn keys_only_under_optionals_is_no_key_found() {
    let found = strings(&["/srv/@ace/optionals/keys/x.bikey"]);
    match select_keys("/srv/@ace/", found) {
        Err(LaunchError::NoKeyFound(name)) => assert_eq!(name, "@ace"),
        other => panic!("unexpected {:?}", other),
    }
    assert!(matches!(select_keys("/srv/@zen", Vec::new()), Err(LaunchError::NoKeyFound(_))));
}

#[test]
fn missing_mod_directory_has_no_key() {
    match find_bikey("/nonexistent-root-for-keys/@missing[1]") {
        Err(LaunchError::NoKeyFound(name)) => assert_eq!(name, "@missing[1]"),
        other => panic!("unexpected {:?}", other),
    }
}

#[test]
fn one_missing_key_fails_all() {
    let outcomes = vec![
        Err(LaunchError::NoKeyFound("X".to_string())),
        Ok(strings(&["/srv/Y/keys/y.bikey"])),
        Err(LaunchError::NoKeyFound("Z".to_string())),
    ];
    match gather_keys(&outcomes) {
        Err(LaunchError::MissingKeys(m)) => {
            assert_eq!(m, "No Bikey found in mod: X\nNo Bikey found in mod: Z")
        }
        other => panic!("unexpected {:?}", other),
    }
    let outcomes = vec![Ok(strings(&["a.bikey"])), Ok(strings(&["b.bikey", "c.bikey"]))];
    assert_eq!(gather_keys(&outcomes).unwrap(), strings(&["a.bikey", "b.bikey", "c.bikey"]));
}

#[test]
fn staging_without_keys_plans_no_copy() {
    let mods = strings(&["@X"]);
    let clientsides = strings(&["@Y"]);
    match plan_key_staging("/nonexistent-root-for-keys", &mods, &clientsides) {
        Err(LaunchError::MissingKeys(m)) => {
            assert!(m.contains("@X"));
            assert!(m.contains("@Y"));
        }
        other => panic!("unexpected {:?}", other),
    }
}

#[test]
fn clearing_keeps_only_sentinel() {
    let names = strings(&["a3.bikey", "old.bikey", "ace.bikey"]);
    assert_eq!(stale_key_files(&names), strings(&["old.bikey", "ace.bikey"]));
    assert!(stale_key_files(&strings(&["a3.bikey"])).is_empty());
}

#[test]
fn copies_go_to_key_directory() {
    let dir = key_directory("/srv/a3");
    assert_eq!(dir, "/srv/a3/keys");
    let plan = key_copy_plan(&dir, &strings(&["/srv/a3/@ace/keys/ace.bikey", "C:\\a3\\@cba\\keys\\cba.bikey"]));
    assert_eq!(plan.len(), 2);
    assert_eq!(plan[0].from, "/srv/a3/@ace/keys/ace.bikey");
    assert_eq!(plan[0].to, "/srv/a3/keys/ace.bikey");
    assert_eq!(plan[1].to, "/srv/a3/keys/cba.bikey");
}

#[test]
fn config_file_is_first_cfg() {
    let entries = strings(&["/srv/a3/keys", "/srv/a3/.cfg", "/srv/a3/server.cfg", "/srv/a3/other.cfg"]);
    assert_eq!(find_config(&entries).unwrap(), "/srv/a3/server.cfg");
    let entries = strings(&["/srv/a3/readme.txt", "/srv/a3/cfg"]);
    assert!(matches!(find_config(&entries), Err(LaunchError::ConfigNotFound)));
}

#[test]
fn server_argument_vector() {
    let args = server_args("/srv/a3", "2302", "ServerNormal", "/srv/a3/server.cfg", &strings(&["@ocap", "mods/@sling"]));
    let expected = strings(&[
        "-port=2302",
        "-hugepages",
        "-maxMem=30000",
        "-maxFileCacheSize=8192",
        "-enableHT",
        "-bandwidthAlg=2",
        "-limitFPS=1000",
        "-loadMissionToMemory",
        "-name=server",
        "-world=empty",
        "-profiles=/srv/a3/ServerNormal",
        "-config=/srv/a3/server.cfg",
        "-cfg=/srv/a3/ServerNormal/Users/server/Arma3.cfg",
        "-serverMod=@ocap;mods/@sling",
        "-par=/srv/a3/corvuslauncher_loaded_mods.txt",
    ]);
    assert_eq!(args, expected);
}

#[test]
fn headless_argument_vector() {
    let args = headless_args("/srv/a3/", "2302", "secret", 12);
    let expected = strings(&[
        "-port=2302",
        "-client",
        "-password=secret",
        "-profiles=/srv/a3/headlessProfile12",
        "-name=hc12",
        "-par=/srv/a3/corvuslauncher_loaded_mods.txt",
    ]);
    assert_eq!(args, expected);
    assert_eq!(headless_args("r", "1", "p", 0)[4], "-name=hc0");
}

#[test]
fn path_helpers() {
    assert_eq!(join_path("", "a"), "a");
    assert_eq!(join_path("C:\\a3\\", "keys"), "C:\\a3\\keys");
    assert_eq!(base_name_of("/a/b/c.txt"), "c.txt");
    assert_eq!(base_name_of("C:\\a\\mod\\\\"), "mod");
    assert_eq!(file_stem_of("list.v2.txt"), "list.v2");
    assert_eq!(file_stem_of(".profile"), ".profile");
    assert!(has_extension_of("server.CFG.cfg", "cfg"));
    assert!(!has_extension_of(".cfg", "cfg"));
}

#[test]
fn error_messages() {
    assert_eq!(LaunchError::NoKeyFound("@ace".to_string()).message(), "No Bikey found in mod: @ace");
    assert_eq!(LaunchError::ConfigNotFound.message(), "A3 Server Config not found in A3Root");
    assert_eq!(LaunchError::PasswordNotFound.message(), "Failed to parse config and find password...");
    assert_eq!(LaunchError::Io("disk".to_string()).message(), "disk");
    assert_eq!(LaunchError::KeySearch("bad".to_string()).message(), "bad");
    assert_eq!(LaunchError::MissingKeys("a\nb".to_string()).message(), "a\nb");
}
