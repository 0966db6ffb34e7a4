use traybar::ipc::plan_command;
use traybar::ipc::IpcAction;
use traybar::ipc::IpcCommand;
use traybar::ipc::Selector;
use traybar::ipc::Selectors;
use traybar::ipc::get_bars_from_selectors;
use traybar::workspace::Workspace;
use traybar::workspace::filter_by_name;
use traybar::workspace::get_workspaces;

fn ws(number: i32, name: &str, focused: bool, output: &str) -> Workspace {
    Workspace {
        number,
        name: name.to_owned(),
        visible: focused,
        focused,
        urgent: false,
        output: output.to_owned(),
    }
}

#[test]
fn workspaces_are_grouped_by_monitor_and_renumbered() {
    // Desktop `a` and `c` sit on the second monitor, `b` on the first;
    // the grouping keeps desktop order within each monitor and numbers
    // the final list from one.
    let monitors = vec![(0, 0, "DP-1".to_owned()), (1920, 0, "HDMI-1".to_owned())];
    let names = vec!["a".to_owned(), "b".to_owned(), "c".to_owned()];
    let viewports = vec![(1920, 0), (0, 0), (1920, 0)];
    let r = get_workspaces(1, names, viewports, &monitors);
    assert_eq!(
        r,
        vec![
            ws(1, "b", true, "DP-1"),
            ws(2, "a", false, "HDMI-1"),
            ws(3, "c", false, "HDMI-1"),
        ]
    );
}

#[test]
fn desktops_without_viewport_or_monitor_fall_back() {
    // A desktop with no reported viewport counts as (0, 0); a viewport
    // matching no monitor falls back to the first monitor.
    let monitors = vec![(0, 0, "DP-1".to_owned())];
    let names = vec!["a".to_owned(), "b".to_owned()];
    let viewports = vec![(555, 555)];
    let r = get_workspaces(0, names, viewports, &monitors);
    assert_eq!(r, vec![ws(1, "a", true, "DP-1"), ws(2, "b", false, "DP-1")]);
}

#[test]
fn without_monitors_the_output_is_a_placeholder() {
    let monitors: Vec<(i32, i32, String)> = Vec::new();
    let names = vec!["a".to_owned(), "b".to_owned()];
    let viewports: Vec<(i32, i32)> = Vec::new();
    let r = get_workspaces(1, names, viewports, &monitors);
    assert_eq!(
        r,
        vec![ws(1, "a", false, "[unknown]"), ws(2, "b", true, "[unknown]")]
    );
}

#[test]
fn empty_desktop_list_yields_no_workspaces() {
    let monitors = vec![(0, 0, "DP-1".to_owned())];
    let r = get_workspaces(0, Vec::new(), Vec::new(), &monitors);
    assert_eq!(r, Vec::<Workspace>::new());
}

#[test]
fn filter_by_name_keeps_the_named_output() {
    let list = vec![ws(1, "a", true, "DP-1"), ws(2, "b", false, "HDMI-1"), ws(3, "c", false, "DP-1")];
    let filtered = filter_by_name(&list, false, &Some("DP-1".to_owned()));
    assert_eq!(filtered, vec![ws(1, "a", true, "DP-1"), ws(3, "c", false, "DP-1")]);
}

#[test]
fn filter_by_name_with_show_all_keeps_everything() {
    let list = vec![ws(1, "a", true, "DP-1"), ws(2, "b", false, "HDMI-1")];
    assert_eq!(filter_by_name(&list, true, &Some("DP-1".to_owned())), list);
    assert_eq!(filter_by_name(&list, false, &None), list);
}

#[test]
fn selectors_pick_only_existing_bar_ids() {
    let selectors = Selectors(vec![
        Selector::Id("top".to_owned()),
        Selector::Class("clock".to_owned()),
        Selector::Id("missing".to_owned()),
        Selector::Id("side".to_owned()),
    ]);
    let bar_names = vec!["top".to_owned(), "side".to_owned()];
    assert_eq!(get_bars_from_selectors(&selectors, bar_names), vec!["top", "side"]);
    let none = get_bars_from_selectors(&selectors, Vec::new());
    assert_eq!(none, Vec::<String>::new());
}

#[test]
fn show_with_only_bar_ids_addresses_whole_bars() {
    let selectors = Selectors(vec![Selector::Id("top".to_owned()), Selector::Id("side".to_owned())]);
    let bar_names = vec!["top".to_owned(), "side".to_owned()];
    let action = plan_command(IpcCommand::Show(selectors), bar_names);
    assert_eq!(action, IpcAction::ShowBars(vec!["top".to_owned(), "side".to_owned()]));
}

#[test]
fn hide_with_other_selectors_addresses_components() {
    let selectors = Selectors(vec![Selector::Id("top".to_owned()), Selector::Class("clock".to_owned())]);
    let bar_names = vec!["top".to_owned()];
    let action = plan_command(IpcCommand::Hide(selectors.clone()), bar_names);
    assert_eq!(action, IpcAction::HideComponents(vec!["top".to_owned()], selectors));
}

#[test]
fn reload_commands_pass_through() {
    assert_eq!(
        plan_command(IpcCommand::ReloadTheme(Some("/tmp/t.css".to_owned())), Vec::new()),
        IpcAction::ReloadTheme(Some("/tmp/t.css".to_owned()))
    );
    assert_eq!(
        plan_command(IpcCommand::ReloadConfig(None), Vec::new()),
        IpcAction::ReloadConfig(None)
    );
}
