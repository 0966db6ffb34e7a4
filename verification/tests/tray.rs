use traybar::atoms::Atoms;
use traybar::atoms::EVENT_MASK_NO_EVENT;
use traybar::atoms::EVENT_MASK_STRUCTURE_NOTIFY;
use traybar::manager::Manager;
use traybar::request::PropMode;
use traybar::request::PropPayload;
use traybar::request::XRequest;
use traybar::xevent::EventResponse;
use traybar::xevent::TrayEvent;
use traybar::EXIT_FAILED_CONNECT;
use traybar::EXIT_FAILED_SELECT;

fn atoms() -> Atoms {
    Atoms {
        net_system_tray_s0: 201,
        net_system_tray_opcode: 202,
        net_system_tray_orientation: 203,
        net_system_tray_visual: 204,
        net_wm_window_type: 205,
        net_wm_window_type_dock: 206,
        net_wm_state: 207,
        net_wm_state_skip_taskbar: 208,
        net_wm_state_sticky: 209,
        wm_protocols: 210,
        wm_delete_window: 211,
        wm_take_focus: 212,
        motif_wm_hints: 213,
        compton_shadow: 214,
        manager: 215,
    }
}

const TRAY: u32 = 900;
const ROOT: u32 = 1;
const VISUAL: u32 = 33;

fn manager_with_icon_size(icon_size: u16) -> Manager {
    Manager::new(atoms(), 0, icon_size, 0xff000000, TRAY, ROOT, VISUAL)
}

fn claimed_manager(icon_size: u16) -> Manager {
    let mut m = manager_with_icon_size(icon_size);
    assert!(m.take_selection(1000, TRAY));
    m.take_requests();
    m
}

#[test]
fn new_manager_is_idle() {
    let m = manager_with_icon_size(24);
    assert_eq!(m.timestamp, 0);
    assert!(!m.finishing);
    assert!(!m.mapped);
    assert!(m.children.is_empty());
    assert!(m.requests.is_empty());
}

#[test]
fn exit_codes_match_the_protocol() {
    assert_eq!(EXIT_FAILED_CONNECT, 10);
    assert_eq!(EXIT_FAILED_SELECT, 11);
}

#[test]
fn selection_availability_follows_the_queried_owner() {
    let m = manager_with_icon_size(24);
    assert!(m.is_selection_available(0));
    assert!(!m.is_selection_available(555));
}

#[test]
fn startup_race_is_detected_without_creating_a_window() {
    // A prior owner exists: the check fails, the caller exits with code
    // 11, and no request was ever issued (no window was created).
    let m = manager_with_icon_size(24);
    let prior_owner = 555;
    assert!(!m.is_selection_available(prior_owner));
    assert_eq!(EXIT_FAILED_SELECT, 11);
    assert!(m.requests.is_empty());
}

#[test]
fn successful_claim_broadcasts_the_manager_message() {
    let mut m = manager_with_icon_size(24);
    assert!(m.take_selection(77, TRAY));
    assert_eq!(m.timestamp, 77);
    let reqs = m.take_requests();
    assert_eq!(
        reqs,
        vec![
            XRequest::SendClientMessage {
                destination: ROOT,
                window: ROOT,
                message_type: atoms().manager,
                data: vec![77, atoms().net_system_tray_s0, TRAY, 0, 0],
            },
            XRequest::Flush,
        ]
    );
}

#[test]
fn failed_claim_changes_nothing() {
    let mut m = manager_with_icon_size(24);
    let rival = 444;
    assert!(!m.take_selection(77, rival));
    assert_eq!(m.timestamp, 0);
    assert!(m.requests.is_empty());
}

#[test]
fn competing_claims_cannot_both_win() {
    // Two managers with distinct tray windows observe the same final
    // owner: at most one of them sees itself as that owner.
    let mut a = Manager::new(atoms(), 0, 24, 0, 900, ROOT, VISUAL);
    let mut b = Manager::new(atoms(), 0, 24, 0, 901, ROOT, VISUAL);
    let final_owner = 901;
    let a_won = a.take_selection(10, final_owner);
    let b_won = b.take_selection(11, final_owner);
    assert!(!(a_won && b_won));
    assert!(b_won);
}

#[test]
fn create_publishes_the_tray_configuration() {
    let mut m = manager_with_icon_size(24);
    m.create();
    let reqs = m.take_requests();
    assert_eq!(reqs.len(), 13);
    assert_eq!(
        reqs[0],
        XRequest::CreateWindow {
            window: TRAY,
            parent: ROOT,
            x: 0,
            y: 0,
            width: 24,
            height: 24,
            back_pixel: 0xff000000,
            event_mask: 0x400000,
            override_redirect: true,
        }
    );
    assert_eq!(
        reqs[1],
        XRequest::ChangeProperty {
            mode: PropMode::Replace,
            window: TRAY,
            property: 39,
            property_type: 31,
            format: 8,
            payload: PropPayload::Text("System Tray".to_owned()),
        }
    );
    assert_eq!(
        reqs[2],
        XRequest::ChangeProperty {
            mode: PropMode::Replace,
            window: TRAY,
            property: 67,
            property_type: 31,
            format: 8,
            payload: PropPayload::Text("traybar\u{0}traybar".to_owned()),
        }
    );
    assert_eq!(
        reqs[4],
        XRequest::ChangeProperty {
            mode: PropMode::Replace,
            window: TRAY,
            property: atoms().net_wm_window_type,
            property_type: 4,
            format: 32,
            payload: PropPayload::Words(vec![atoms().net_wm_window_type_dock]),
        }
    );
    assert_eq!(
        reqs[8],
        XRequest::ChangeProperty {
            mode: PropMode::Append,
            window: TRAY,
            property: atoms().wm_protocols,
            property_type: 4,
            format: 32,
            payload: PropPayload::Words(vec![atoms().wm_take_focus]),
        }
    );
    assert_eq!(
        reqs[10],
        XRequest::ChangeProperty {
            mode: PropMode::Replace,
            window: TRAY,
            property: atoms().motif_wm_hints,
            property_type: 19,
            format: 32,
            payload: PropPayload::Words(vec![2, 0, 0, 0, 0]),
        }
    );
    assert_eq!(reqs[12], XRequest::Flush);
    assert!(!m.mapped);
}

#[test]
fn single_icon_dock_scenario() {
    // icon_size = 24: adopting W1 reparents it to slot (0, 0) and maps a
    // 24-wide tray; adopting W2 puts it at (24, 0) and widens the tray
    // to 48; forgetting W1 moves W2 back to (0, 0) and narrows to 24.
    let w1 = 501;
    let w2 = 502;
    let mut m = claimed_manager(24);

    m.adopt(w1, None);
    assert_eq!(m.children, vec![w1]);
    assert!(m.mapped);
    let reqs = m.take_requests();
    assert_eq!(
        reqs,
        vec![
            XRequest::SetEventMask { window: w1, mask: EVENT_MASK_STRUCTURE_NOTIFY },
            XRequest::Reparent { window: w1, parent: TRAY, x: 0, y: 0 },
            XRequest::MapWindow { window: w1 },
            XRequest::Flush,
            XRequest::ConfigureRect { window: TRAY, x: 140, y: 3, width: 24, height: 20 },
            XRequest::MapWindow { window: TRAY },
            XRequest::Flush,
        ]
    );

    m.adopt(w2, None);
    assert_eq!(m.children, vec![w1, w2]);
    let reqs = m.take_requests();
    assert!(reqs.contains(&XRequest::Reparent { window: w2, parent: TRAY, x: 24, y: 0 }));
    assert!(reqs.contains(&XRequest::ConfigureRect {
        window: TRAY,
        x: 140,
        y: 3,
        width: 48,
        height: 20,
    }));

    m.forget(w1);
    assert_eq!(m.children, vec![w2]);
    assert!(m.mapped);
    let reqs = m.take_requests();
    assert_eq!(
        reqs,
        vec![
            XRequest::ConfigureX { window: w2, x: 0 },
            XRequest::ConfigureRect { window: TRAY, x: 140, y: 3, width: 24, height: 20 },
            XRequest::MapWindow { window: TRAY },
            XRequest::Flush,
        ]
    );
}

#[test]
fn last_icon_removed_unmaps_the_tray() {
    let w1 = 501;
    let mut m = claimed_manager(24);
    m.adopt(w1, None);
    m.take_requests();
    assert!(m.mapped);
    m.forget(w1);
    assert!(m.children.is_empty());
    assert!(!m.mapped);
    let reqs = m.take_requests();
    assert_eq!(reqs, vec![XRequest::UnmapWindow { window: TRAY }, XRequest::Flush]);
}

#[test]
fn forgetting_an_unknown_window_still_relayouts() {
    let w1 = 501;
    let mut m = claimed_manager(24);
    m.adopt(w1, None);
    m.take_requests();
    m.forget(777);
    assert_eq!(m.children, vec![w1]);
    assert!(m.mapped);
    let reqs = m.take_requests();
    assert_eq!(
        reqs,
        vec![
            XRequest::ConfigureX { window: w1, x: 0 },
            XRequest::ConfigureRect { window: TRAY, x: 140, y: 3, width: 24, height: 20 },
            XRequest::MapWindow { window: TRAY },
            XRequest::Flush,
        ]
    );
}

#[test]
fn force_size_with_matching_geometry_issues_nothing() {
    // Idempotent sizing: a child already on the icon grid causes zero
    // configure requests.
    let mut m = claimed_manager(24);
    m.force_size(501, (24, 24));
    assert!(m.take_requests().is_empty());
}

#[test]
fn force_size_with_differing_geometry_resizes() {
    let mut m = claimed_manager(24);
    m.force_size(501, (30, 24));
    assert_eq!(
        m.take_requests(),
        vec![
            XRequest::ConfigureSize { window: 501, width: 24, height: 24 },
            XRequest::Flush,
        ]
    );
}

#[test]
fn adopt_forces_the_size_only_when_it_differs() {
    let mut m = claimed_manager(24);
    m.adopt(501, Some((24, 24)));
    let reqs = m.take_requests();
    assert!(!reqs.iter().any(|r| matches!(r, XRequest::ConfigureSize { .. })));
    m.adopt(502, Some((48, 48)));
    let reqs = m.take_requests();
    assert!(reqs.contains(&XRequest::ConfigureSize { window: 502, width: 24, height: 24 }));
}

#[test]
fn opcode_dispatch_docks_exactly_on_request_dock() {
    // Opcode 0 docks the named window; opcodes 1 and 2 (balloon
    // messages) mutate nothing.
    let w = 501;
    let mut m = claimed_manager(24);
    let r = m.handle_event(
        TrayEvent::ClientMessage { message_type: atoms().net_system_tray_opcode, opcode: 0, window: w },
        None,
    );
    assert_eq!(r, EventResponse::KeepGoing);
    assert_eq!(m.children, vec![w]);

    let before = m.children.clone();
    let reqs_before = m.requests.len();
    let r = m.handle_event(
        TrayEvent::ClientMessage { message_type: atoms().net_system_tray_opcode, opcode: 1, window: 700 },
        None,
    );
    assert_eq!(r, EventResponse::KeepGoing);
    let r = m.handle_event(
        TrayEvent::ClientMessage { message_type: atoms().net_system_tray_opcode, opcode: 2, window: 700 },
        None,
    );
    assert_eq!(r, EventResponse::KeepGoing);
    assert_eq!(m.children, before);
    assert_eq!(m.requests.len(), reqs_before);
}

#[test]
fn client_messages_of_other_types_are_ignored() {
    let mut m = claimed_manager(24);
    let r = m.handle_event(
        TrayEvent::ClientMessage { message_type: 9999, opcode: 0, window: 700 },
        None,
    );
    assert_eq!(r, EventResponse::KeepGoing);
    assert!(m.children.is_empty());
    assert!(m.requests.is_empty());
}

#[test]
fn property_notify_triggers_exactly_one_claim() {
    let mut m = manager_with_icon_size(24);
    let r = m.handle_event(TrayEvent::PropertyNotify { window: ROOT, atom: 7, time: 4321 }, None);
    assert_eq!(
        r,
        EventResponse::ClaimSelection {
            selection: atoms().net_system_tray_s0,
            owner: TRAY,
            timestamp: 4321,
        }
    );
    assert!(m.take_selection(4321, TRAY));
    let r = m.handle_event(TrayEvent::PropertyNotify { window: ROOT, atom: 7, time: 5555 }, None);
    assert_eq!(r, EventResponse::KeepGoing);
}

#[test]
fn reparent_away_forgets_the_child() {
    let w = 501;
    let mut m = claimed_manager(24);
    m.adopt(w, None);
    m.take_requests();
    let r = m.handle_event(TrayEvent::ReparentNotify { window: w, parent: ROOT }, None);
    assert_eq!(r, EventResponse::KeepGoing);
    assert!(m.children.is_empty());
    assert!(!m.mapped);
}

#[test]
fn reparent_into_the_tray_is_not_a_removal() {
    let w = 501;
    let mut m = claimed_manager(24);
    m.adopt(w, None);
    m.take_requests();
    let r = m.handle_event(TrayEvent::ReparentNotify { window: w, parent: TRAY }, None);
    assert_eq!(r, EventResponse::KeepGoing);
    assert_eq!(m.children, vec![w]);
    assert!(m.requests.is_empty());
}

#[test]
fn destroy_notify_forgets_the_child() {
    let w = 501;
    let mut m = claimed_manager(24);
    m.adopt(w, None);
    m.take_requests();
    let r = m.handle_event(TrayEvent::DestroyNotify { window: w }, None);
    assert_eq!(r, EventResponse::KeepGoing);
    assert!(m.children.is_empty());
}

#[test]
fn configure_notify_reapplies_the_icon_grid() {
    let w = 501;
    let mut m = claimed_manager(24);
    m.adopt(w, None);
    m.take_requests();
    let r = m.handle_event(TrayEvent::ConfigureNotify { window: w, width: 64, height: 64 }, None);
    assert_eq!(r, EventResponse::KeepGoing);
    assert_eq!(
        m.take_requests(),
        vec![
            XRequest::ConfigureSize { window: w, width: 24, height: 24 },
            XRequest::Flush,
        ]
    );
    let r = m.handle_event(TrayEvent::ConfigureNotify { window: w, width: 24, height: 24 }, None);
    assert_eq!(r, EventResponse::KeepGoing);
    assert!(m.requests.is_empty());
}

#[test]
fn finish_returns_every_icon_and_destroys_the_tray_once() {
    let w1 = 501;
    let w2 = 502;
    let mut m = claimed_manager(24);
    m.adopt(w1, None);
    m.adopt(w2, None);
    m.take_requests();
    m.finish();
    assert!(m.finishing);
    assert!(m.children.is_empty());
    assert!(!m.mapped);
    let reqs = m.take_requests();
    assert_eq!(
        reqs,
        vec![
            XRequest::SetEventMask { window: w1, mask: EVENT_MASK_NO_EVENT },
            XRequest::UnmapWindow { window: w1 },
            XRequest::Reparent { window: w1, parent: ROOT, x: 0, y: 0 },
            XRequest::SetEventMask { window: w2, mask: EVENT_MASK_NO_EVENT },
            XRequest::UnmapWindow { window: w2 },
            XRequest::Reparent { window: w2, parent: ROOT, x: 0, y: 0 },
            XRequest::SetEventMask { window: TRAY, mask: EVENT_MASK_STRUCTURE_NOTIFY },
            XRequest::DestroyWindow { window: TRAY },
            XRequest::Flush,
        ]
    );
    let destroys = reqs
        .iter()
        .filter(|r| matches!(r, XRequest::DestroyWindow { .. }))
        .count();
    assert_eq!(destroys, 1);
}

#[test]
fn selection_clear_starts_the_shutdown() {
    let mut m = claimed_manager(24);
    let r = m.handle_event(TrayEvent::SelectionClear, None);
    assert_eq!(r, EventResponse::KeepGoing);
    assert!(m.finishing);
}

#[test]
fn finishing_manager_exits_on_its_own_destruction() {
    let mut m = claimed_manager(24);
    m.finish();
    m.take_requests();
    let r = m.handle_event(TrayEvent::DestroyNotify { window: 777 }, None);
    assert_eq!(r, EventResponse::KeepGoing);
    let r = m.handle_event(TrayEvent::SelectionClear, None);
    assert_eq!(r, EventResponse::KeepGoing);
    assert!(m.requests.is_empty());
    let r = m.handle_event(TrayEvent::DestroyNotify { window: TRAY }, None);
    assert_eq!(r, EventResponse::Exit(0));
}

#[test]
fn other_events_are_ignored() {
    let mut m = claimed_manager(24);
    let r = m.handle_event(TrayEvent::Other, None);
    assert_eq!(r, EventResponse::KeepGoing);
    assert!(m.requests.is_empty());
}

#[test]
fn is_docked_tracks_the_children() {
    let mut m = claimed_manager(24);
    assert!(!m.is_docked(501));
    m.adopt(501, None);
    assert!(m.is_docked(501));
    assert!(!m.is_docked(502));
}

#[test]
fn set_anchor_moves_the_tray() {
    let mut m = claimed_manager(24);
    m.set_anchor(1600, 0, 24);
    m.adopt(501, None);
    let reqs = m.take_requests();
    assert!(reqs.contains(&XRequest::ConfigureRect {
        window: TRAY,
        x: 1600,
        y: 0,
        width: 24,
        height: 24,
    }));
}
