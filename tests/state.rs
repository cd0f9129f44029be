use corvus_launcher::messages::Message;
use corvus_launcher::ui::app::Action;
use corvus_launcher::config::LocationPaths;
use corvus_launcher::ui::errors::{shown_errors, ErrorMessage, Errors};
use corvus_launcher::ui::number_input::{self, NumberInput};
use corvus_launcher::ui::profile_chooser::{self, ProfileChooser};
use corvus_launcher::ui::selection_listbox::{self, SelectionListbox};
use corvus_launcher::ui::welcome_message::{self, WelcomeView};
use corvus_launcher::{App, Cli, Config, ServerModList};

fn cli() -> Cli {
    Cli {
        config_file: "launcher.toml".to_string(),
        log_level: "error".to_string(),
        log_stderr: false,
        log_file: "launcher.log".to_string(),
        log_filter: None,
        debug: false,
    }
}

fn valid_config() -> Config {
    let mut c = Config::default();
    c.update_config("/srv/a3".to_string(), "/l/m".to_string(), "/l/c".to_string(), "/l/s".to_string(), "arma3server_x64");
    c
}

#[test]
fn default_config_is_invalid() {
    let c = Config::default();
    assert!(!c.is_config_valid());
    assert_eq!(c.server_profiles, vec!["ServerNormal".to_string()]);
}

#[test]
fn updated_config_is_valid() {
    let c = valid_config();
    assert!(c.is_config_valid());
    assert_eq!(c.a3_server_executable, "/srv/a3/arma3server_x64");
    assert_eq!(c.folder_servermods, "/l/s");
}

#[test]
fn profile_chooser_picks_first_then_selection() {
    let mut p = ProfileChooser::new(vec!["A".to_string(), "B".to_string()]);
    assert_eq!(p.get_selected_profile(), "A");
    p.update(profile_chooser::Message::ProfileSelected("B".to_string()));
    assert_eq!(p.get_selected_profile(), "B");
    assert!(ProfileChooser::new(Vec::new()).selected.is_none());
}

#[test]
fn selection_listbox_toggles_and_collects() {
    let lists = vec![
        ServerModList::new("a".to_string(), "a.txt".to_string(), false, "@1;@2"),
        ServerModList::new("b".to_string(), "b.txt".to_string(), false, "@3;"),
        ServerModList::new("c".to_string(), "c.txt".to_string(), false, "@4"),
    ];
    let mut lb = SelectionListbox::new(0, "Modpacks".to_string(), lists);
    lb.update(selection_listbox::Message::ToggleSelection(0, true));
    lb.update(selection_listbox::Message::ToggleSelection(2, true));
    lb.update(selection_listbox::Message::ToggleSelection(7, true));
    assert!(lb.elements[0].selected && !lb.elements[1].selected && lb.elements[2].selected);
    assert_eq!(lb.selected_mods(), vec!["@1".to_string(), "@2".to_string(), "@4".to_string()]);
    lb.update(selection_listbox::Message::ToggleSelection(0, false));
    assert_eq!(lb.selected_mods(), vec!["@4".to_string()]);
}

#[test]
fn number_input_steps() {
    let mut n = NumberInput::default();
    n.update(number_input::Message::ValueIncreased());
    n.update(number_input::Message::ValueIncreased());
    n.update(number_input::Message::ValueDecreased());
    assert_eq!(n.value, 1);
}

#[test]
fn errors_keep_order() {
    let mut e = Errors::default();
    e.push("first".to_string());
    e.push("second".to_string());
    assert_eq!(e.errors.len(), 2);
    assert_eq!(e.errors[1].message, "second");
    assert_eq!(ErrorMessage::new("x".to_string()).message, "x");
    e.clear();
    assert!(e.errors.is_empty());
}

#[test]
fn welcome_view_fields() {
    let c = valid_config();
    let mut w = WelcomeView::new(&c);
    assert_eq!(w.modlists, "/l/m");
    w.set_path(LocationPaths::Clientsides, "/new".to_string());
    assert_eq!(w.clientsides, "/new");
    assert_eq!(w.a3_root, "/srv/a3");
    match w.save_message() {
        welcome_message::Message::SaveUpdateConfig(a, _, c, _) => {
            assert_eq!(a, "/srv/a3");
            assert_eq!(c, "/new");
        }
        other => panic!("unexpected {:?}", other),
    }
}

#[test]
fn app_shows_lists_only_when_configured() {
    let lists = || vec![ServerModList::new("a".to_string(), "a.txt".to_string(), false, "@1")];
    let app = App::new(cli(), valid_config(), lists(), lists(), Vec::new());
    assert_eq!(app.port_num, "2302");
    assert_eq!(app.selection_listboxes.len(), 3);
    assert_eq!(app.selection_listboxes[1].title, "Clientside");
    assert_eq!(app.selection_listboxes[0].elements.len(), 1);
    let app = App::new(cli(), Config::default(), lists(), lists(), lists());
    assert!(app.selection_listboxes[0].elements.is_empty());
    assert_eq!(app.server_profile_chooser.get_selected_profile(), "ServerNormal");
}

#[test]
fn app_update_builds_server_launch() {
    let lists = |m: &str| vec![
        ServerModList::new("one".to_string(), "one.txt".to_string(), false, m),
        ServerModList::new("two".to_string(), "two.txt".to_string(), false, "@z"),
    ];
    let mut app = App::new(cli(), valid_config(), lists("@a;@b;"), lists("@c"), lists("@ocap"));
    app.update(Message::SelectionBoxUpdate(0, selection_listbox::Message::ToggleSelection(0, true)));
    app.update(Message::SelectionBoxUpdate(2, selection_listbox::Message::ToggleSelection(1, true)));
    app.update(Message::SelectionBoxUpdate(5, selection_listbox::Message::ToggleSelection(0, true)));
    app.update(Message::ChangePortNumber("2402".to_string()));
    match app.update(Message::LaunchServer()) {
        Action::LaunchServer { modlist, clientsides, server_mods, profile, port } => {
            assert_eq!(modlist, vec!["@a".to_string(), "@b".to_string()]);
            assert!(clientsides.is_empty());
            assert_eq!(server_mods, vec!["@z".to_string()]);
            assert_eq!(profile, "ServerNormal");
            assert_eq!(port, "2402");
        }
        other => panic!("unexpected {:?}", other),
    }
}

#[test]
fn app_update_counter_errors_and_headless() {
    let mut app = App::new(cli(), valid_config(), Vec::new(), Vec::new(), Vec::new());
    app.update(Message::HcInputChanged(number_input::Message::ValueDecreased()));
    assert_eq!(app.hc_launch_num.value, 0);
    app.update(Message::HcInputChanged(number_input::Message::ValueIncreased()));
    app.update(Message::HcInputChanged(number_input::Message::ValueIncreased()));
    match app.update(Message::LaunchHCs()) {
        Action::LaunchHeadless { count, port } => {
            assert_eq!(count, 2);
            assert_eq!(port, "2302");
        }
        other => panic!("unexpected {:?}", other),
    }
    app.update(Message::Error("boom".to_string()));
    assert_eq!(app.errors.errors[0].message, "boom");
    app.update(Message::ClearErrors());
    assert!(app.errors.errors.is_empty());
    assert!(matches!(
        app.update(Message::WelcomeViewMessage(welcome_message::Message::ReloadViews())),
        Action::ReloadLists
    ));
    assert!(matches!(
        app.update(Message::WelcomeViewMessage(welcome_message::Message::ConfigOpenFileDialog(LocationPaths::Modlists))),
        Action::PickFolder(LocationPaths::Modlists)
    ));
    app.set_lists(vec![ServerModList::new("n".to_string(), "n.txt".to_string(), false, "@n")], Vec::new(), Vec::new());
    assert_eq!(app.selection_listboxes[0].elements[0].mods, vec!["@n".to_string()]);
}

#[test]
fn app_launch_without_profile_is_an_error() {
    let mut config = valid_config();
    config.server_profiles.clear();
    let mut app = App::new(cli(), config, Vec::new(), Vec::new(), Vec::new());
    assert!(matches!(app.update(Message::LaunchServer()), Action::Nothing));
    assert_eq!(app.errors.errors.len(), 1);
}

#[test]
fn shown_errors_newest_three_recent() {
    let messages: Vec<String> = ["a", "b", "c", "d", "e"].iter().map(|s| s.to_string()).collect();
    let ages = vec![0, 0, 10, 5000, 2999];
    assert_eq!(shown_errors(&messages, &ages), vec!["e".to_string(), "c".to_string()]);
    assert_eq!(shown_errors(&Vec::new(), &Vec::new()), Vec::<String>::new());
    let mut e = Errors::default();
    e.push("x".to_string());
    e.push("y".to_string());
    assert_eq!(e.shown(), vec!["y".to_string(), "x".to_string()]);
}
