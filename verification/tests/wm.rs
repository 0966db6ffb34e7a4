use traybar::bus::Event;
use traybar::bus::EventValue;
use traybar::wm_util::Config;
use traybar::wm_util::ConfigGroup;
use traybar::wm_util::WMType;
use traybar::wm_util::WMUtil;
use traybar::wm_util::WmCommand;
use traybar::workspace::Workspace;

fn group(name: &str, monitor: usize) -> ConfigGroup {
    ConfigGroup { name: name.to_owned(), monitor }
}

fn config() -> Config {
    Config {
        bars: vec![group("top", 0), group("side", 1), group("bottom", 0), group("third", 2)],
        components: vec![group("clock", 0), group("cpu", 0)],
        theme: Some("/etc/traybar/theme.css".to_owned()),
        config_dir: "/home/user/.config/traybar".to_owned(),
    }
}

fn ws(name: &str, focused: bool, output: &str) -> Workspace {
    Workspace {
        number: 0,
        name: name.to_owned(),
        visible: focused,
        focused,
        urgent: false,
        output: output.to_owned(),
    }
}

#[test]
fn wm_type_names_are_lower_case() {
    assert_eq!(WMType::I3.name(), "i3");
    assert_eq!(WMType::Bsp.name(), "bsp");
    assert_eq!(WMType::Unknown.name(), "unknown");
}

#[test]
fn listeners_get_fresh_handles_in_order() {
    let mut util = WMUtil::new(WMType::I3, config());
    let a = util.add_listener(Event::Window);
    let b = util.add_listener(Event::Workspace);
    let c = util.add_listener(Event::Window);
    assert!(a != b && b != c && a != c);
    assert_eq!(util.emit(Event::Window), vec![a, c]);
    assert_eq!(util.emit(Event::Workspace), vec![b]);
    assert_eq!(util.emit(Event::Mode), Vec::<u64>::new());
}

#[test]
fn removed_listeners_are_no_longer_notified() {
    let mut util = WMUtil::new(WMType::I3, config());
    let a = util.add_listener(Event::Window);
    let b = util.add_listener(Event::Window);
    util.remove_listener(Event::Window, a);
    assert_eq!(util.emit(Event::Window), vec![b]);
    // Removing under the wrong event kind is a no-op.
    util.remove_listener(Event::Mode, b);
    assert_eq!(util.emit(Event::Window), vec![b]);
}

#[test]
fn emit_value_notifies_the_same_handles() {
    let mut util = WMUtil::new(WMType::Bsp, config());
    let a = util.add_listener(Event::Mode);
    let payload = EventValue::Text("resize".to_owned());
    assert_eq!(util.emit_value(Event::Mode, &payload), vec![a]);
}

#[test]
fn focus_workspace_builds_the_wm_command() {
    let name = "3".to_owned();
    let i3 = WMUtil::new(WMType::I3, config());
    assert_eq!(
        i3.focus_workspace(&name),
        Some(WmCommand::I3Command("workspace 3".to_owned()))
    );
    let bsp = WMUtil::new(WMType::Bsp, config());
    assert_eq!(
        bsp.focus_workspace(&name),
        Some(WmCommand::BspCommand("desktop -f 3".to_owned()))
    );
    let unknown = WMUtil::new(WMType::Unknown, config());
    assert_eq!(unknown.focus_workspace(&name), None);
}

#[test]
fn cycle_workspace_steps_forward_with_wraparound() {
    let util = WMUtil::new(WMType::I3, config());
    let list = vec![ws("a", false, "DP-1"), ws("b", true, "DP-1"), ws("c", false, "DP-1")];
    assert_eq!(
        util.cycle_workspace(true, 0, &list),
        Some(WmCommand::I3Command("workspace c".to_owned()))
    );
    assert_eq!(
        util.cycle_workspace(false, 0, &list),
        Some(WmCommand::I3Command("workspace a".to_owned()))
    );
    let last = vec![ws("a", false, "DP-1"), ws("b", false, "DP-1"), ws("c", true, "DP-1")];
    assert_eq!(
        util.cycle_workspace(true, 0, &last),
        Some(WmCommand::I3Command("workspace a".to_owned()))
    );
    let first = vec![ws("a", true, "DP-1"), ws("b", false, "DP-1")];
    assert_eq!(
        util.cycle_workspace(false, 0, &first),
        Some(WmCommand::I3Command("workspace b".to_owned()))
    );
}

#[test]
fn cycle_workspace_without_focus_or_wm_does_nothing() {
    let util = WMUtil::new(WMType::I3, config());
    let unfocused = vec![ws("a", false, "DP-1")];
    assert_eq!(util.cycle_workspace(true, 0, &unfocused), None);
    assert_eq!(util.cycle_workspace(true, 0, &Vec::new()), None);
    let unknown = WMUtil::new(WMType::Unknown, config());
    let list = vec![ws("a", true, "DP-1")];
    assert_eq!(unknown.cycle_workspace(true, 0, &list), None);
}

#[test]
fn set_padding_is_a_bspwm_config_command() {
    let bsp = WMUtil::new(WMType::Bsp, config());
    assert_eq!(
        bsp.set_padding(true, 28),
        Some(WmCommand::BspConfig { setting: "top_padding".to_owned(), value: 28 })
    );
    assert_eq!(
        bsp.set_padding(false, 0),
        Some(WmCommand::BspConfig { setting: "bottom_padding".to_owned(), value: 0 })
    );
    let i3 = WMUtil::new(WMType::I3, config());
    assert_eq!(i3.set_padding(true, 28), None);
}

#[test]
fn get_workspaces_passes_through_only_with_a_known_wm() {
    let fetched = vec![ws("a", true, "DP-1")];
    let i3 = WMUtil::new(WMType::I3, config());
    assert_eq!(i3.get_workspaces(Some(fetched.clone())), Some(fetched.clone()));
    assert_eq!(i3.get_workspaces(None), None);
    let unknown = WMUtil::new(WMType::Unknown, config());
    assert_eq!(unknown.get_workspaces(Some(fetched)), None);
}

#[test]
fn load_bars_keeps_only_bars_whose_monitor_exists() {
    let mut util = WMUtil::new(WMType::I3, config());
    assert_eq!(util.get_bar_names(), Vec::<String>::new());
    util.load_bars(2);
    assert_eq!(util.get_bar_names(), vec!["top", "side", "bottom"]);
    util.load_bars(1);
    assert_eq!(util.get_bar_names(), vec!["top", "bottom"]);
    util.load_bars(0);
    assert_eq!(util.get_bar_names(), Vec::<String>::new());
}

#[test]
fn unload_bars_forgets_everything() {
    let mut util = WMUtil::new(WMType::I3, config());
    util.load_bars(3);
    assert_eq!(util.get_bar_names().len(), 4);
    util.unload_bars();
    assert_eq!(util.get_bar_names(), Vec::<String>::new());
}

#[test]
fn hide_bars_selects_the_named_loaded_bars() {
    let mut util = WMUtil::new(WMType::I3, config());
    util.load_bars(2);
    let to_hide = util.hide_bars(vec!["side".to_owned(), "missing".to_owned(), "top".to_owned()]);
    assert_eq!(to_hide, vec!["top", "side"]);
    assert_eq!(util.hide_bars(Vec::new()), Vec::<String>::new());
}

#[test]
fn component_configs_are_found_by_name() {
    let util = WMUtil::new(WMType::I3, config());
    let found = util.get_component_config(&"cpu".to_owned());
    assert_eq!(found, Some(group("cpu", 0)));
    assert_eq!(util.get_component_config(&"missing".to_owned()), None);
}

#[test]
fn paths_resolve_inside_the_config_directory() {
    let util = WMUtil::new(WMType::I3, config());
    assert_eq!(util.get_path("config.toml"), "/home/user/.config/traybar/config.toml");
}

#[test]
fn load_theme_remembers_the_newest_path() {
    let mut util = WMUtil::new(WMType::I3, config());
    assert_eq!(util.get_theme(), Some("/etc/traybar/theme.css".to_owned()));
    util.load_theme(None);
    assert_eq!(util.get_theme(), Some("/etc/traybar/theme.css".to_owned()));
    util.load_theme(Some("/tmp/other.css".to_owned()));
    assert_eq!(util.get_theme(), Some("/tmp/other.css".to_owned()));
}

#[test]
fn get_wm_type_reports_the_detected_wm() {
    assert_eq!(WMUtil::new(WMType::Bsp, config()).get_wm_type(), WMType::Bsp);
}
