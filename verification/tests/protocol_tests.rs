use tray_icon::consts::{
    MFS_GRAYED, MFT_SEPARATOR, MFT_STRING, MIIM_ID, MIIM_STATE, MIIM_TYPE, NIF_GUID, NIF_ICON,
    NIF_MESSAGE, NIF_SHOWTIP, NIF_TIP, NIN_SELECT, NOTIFYICON_VERSION_4, WM_COMMAND,
    WM_CONTEXTMENU, WM_CREATE, WM_DESTROY, WM_TRAY_CALLBACK,
};
use tray_icon::error::{MenuError, TrayError, WinError};
use tray_icon::menu::{ActionId, MenuItem};
use tray_icon::notify::{notify_icon_data, tip_fits};
use tray_icon::popup::{popup_items, popup_protocol, PopupOutcomes};
use tray_icon::router::{command_action, route_message, run_loop_model, LoopEvent, TrayAction};
use tray_icon::service::{exit_shutdown, service_result};
use tray_icon::setup::{InstallNext, WinSetup};
use tray_icon::tray::Tray;

fn sample_tray() -> Tray {
    let mut tray = Tray::new(7, "Tip");
    tray.set_click(ActionId(100));
    tray.set_menu(vec![
        MenuItem::button("Open", ActionId(1)),
        MenuItem::label("Status"),
        MenuItem::separator(),
        MenuItem::button("Quit", ActionId(2)),
    ]);
    tray
}

fn no_error() -> WinError {
    WinError::new(0, String::new())
}

#[test]
fn selection_invokes_exactly_the_button_at_that_position() {
    let tray = sample_tray();
    assert_eq!(command_action(&tray, 0), Some(ActionId(1)));
    assert_eq!(command_action(&tray, 1), None); // a label never fires
    assert_eq!(command_action(&tray, 2), None); // a separator never fires
    assert_eq!(command_action(&tray, 3), Some(ActionId(2)));
    assert_eq!(command_action(&tray, 4), None); // out of range
    let no_menu = Tray::new(1, "t");
    assert_eq!(command_action(&no_menu, 0), None);
}

#[test]
fn routing_window_creation_registers_the_restart_handler() {
    let tray = sample_tray();
    assert_eq!(
        route_message(&tray, WM_CREATE, 0, 0, 0),
        TrayAction::RegisterRestartHandler
    );
}

#[test]
fn routing_a_click_invokes_the_click_action() {
    let tray = sample_tray();
    assert_eq!(
        route_message(&tray, WM_TRAY_CALLBACK, 0, NIN_SELECT as usize, 0),
        TrayAction::InvokeClick(ActionId(100))
    );
    let silent = Tray::new(1, "t");
    assert_eq!(
        route_message(&silent, WM_TRAY_CALLBACK, 0, NIN_SELECT as usize, 0),
        TrayAction::Nothing
    );
}

#[test]
fn routing_a_context_activation_opens_the_menu_at_the_cursor() {
    let tray = sample_tray();
    // x = 100, y = -1 packed into the word
    let wparam: usize = 0xFFFF_0064;
    assert_eq!(
        route_message(&tray, WM_TRAY_CALLBACK, wparam, WM_CONTEXTMENU as usize, 0),
        TrayAction::ShowMenu { x: 100, y: -1 }
    );
}

#[test]
fn routing_a_selection_message_dispatches_by_position() {
    let tray = sample_tray();
    assert_eq!(
        route_message(&tray, WM_COMMAND, 0, 0, 0),
        TrayAction::InvokeMenuAction(ActionId(1))
    );
    assert_eq!(
        route_message(&tray, WM_COMMAND, 1, 0, 0),
        TrayAction::Nothing
    );
    assert_eq!(
        route_message(&tray, WM_COMMAND, 3, 0, 0),
        TrayAction::InvokeMenuAction(ActionId(2))
    );
    // a non-menu command (high half set) is not a selection
    assert_eq!(
        route_message(&tray, WM_COMMAND, 0x0001_0003, 0, 0),
        TrayAction::Nothing
    );
}

#[test]
fn routing_destruction_quits_and_restart_recreates() {
    let tray = sample_tray();
    assert_eq!(route_message(&tray, WM_DESTROY, 0, 0, 0), TrayAction::Quit);
    let restart_msg = 0xC0DE;
    assert_eq!(
        route_message(&tray, 0xC0DE, 0, 0, restart_msg),
        TrayAction::RecreateIcon
    );
    assert_eq!(route_message(&tray, 0xC0DE, 0, 0, 0), TrayAction::Nothing);
}

#[test]
fn no_message_is_the_restart_broadcast_before_registration() {
    // While the broadcast is unregistered the id is 0; a message numbered 0
    // must not trigger recreation.
    let tray = sample_tray();
    assert_eq!(route_message(&tray, 0, 0, 0, 0), TrayAction::Nothing);
}

#[test]
fn the_loop_dispatches_until_the_quit_signal() {
    let tray = sample_tray();
    let events = vec![
        LoopEvent::Message { msg: WM_CREATE, wparam: 0, lparam: 0 },
        LoopEvent::Message { msg: WM_COMMAND, wparam: 0, lparam: 0 },
        LoopEvent::Quit,
        LoopEvent::Message { msg: WM_COMMAND, wparam: 3, lparam: 0 },
    ];
    let (actions, terminated) = run_loop_model(&tray, &events, 0);
    assert!(terminated);
    assert_eq!(
        actions,
        vec![
            TrayAction::RegisterRestartHandler,
            TrayAction::InvokeMenuAction(ActionId(1)),
        ]
    );
}

#[test]
fn the_loop_without_a_quit_signal_dispatches_everything() {
    let tray = sample_tray();
    let events = vec![
        LoopEvent::Message { msg: WM_DESTROY, wparam: 0, lparam: 0 },
        LoopEvent::Message { msg: 0x9999, wparam: 0, lparam: 0 },
    ];
    let (actions, terminated) = run_loop_model(&tray, &events, 0);
    assert!(!terminated);
    assert_eq!(actions, vec![TrayAction::Quit, TrayAction::Nothing]);
}

#[test]
fn display_then_exit_terminates_the_loop() {
    // The cross-thread exit posts a quit signal; the loop must end on it
    // and everything before it still dispatches.
    let tray = sample_tray();
    let events = vec![
        LoopEvent::Message { msg: WM_CREATE, wparam: 0, lparam: 0 },
        LoopEvent::Quit,
    ];
    let (actions, terminated) = run_loop_model(&tray, &events, 0);
    assert!(terminated);
    assert_eq!(actions.len(), 1);
}

#[test]
fn popup_descriptors_render_each_item_kind() {
    let tray = sample_tray();
    let items = popup_items(&tray).expect("the tray has a menu");
    assert_eq!(items.len(), 4);

    assert_eq!(items[0].mask, MIIM_TYPE | MIIM_ID);
    assert_eq!(items[0].item_type, MFT_STRING);
    assert_eq!(items[0].state, 0);
    assert_eq!(items[0].id, 0);
    let text = items[0].text.as_ref().expect("buttons carry text");
    assert_eq!(text.as_ptr(), &[0x4F_u16, 0x70, 0x65, 0x6E, 0][..]); // "Open\0"
    assert_eq!(items[0].char_count, 4); // the count excludes the terminator

    assert_eq!(items[1].mask, MIIM_TYPE | MIIM_STATE);
    assert_eq!(items[1].state, MFS_GRAYED);
    assert_eq!(items[1].id, 0);
    assert_eq!(items[1].char_count, 6);

    assert_eq!(items[2].mask, MIIM_TYPE);
    assert_eq!(items[2].item_type, MFT_SEPARATOR);
    assert!(items[2].text.is_none());
    assert_eq!(items[2].char_count, 0);

    assert_eq!(items[3].id, 3);
}

#[test]
fn popup_items_without_a_menu_is_a_silent_no_op() {
    let tray = Tray::new(1, "t");
    assert!(popup_items(&tray).is_none());
}

#[test]
fn every_popup_attempt_releases_what_it_created() {
    let tray = sample_tray();

    let (r, t) = popup_protocol(
        &tray,
        PopupOutcomes {
            create: Ok(()),
            insert_failure: None,
            foreground_ok: true,
            track: Ok(()),
        },
    );
    assert!(r.is_ok());
    assert_eq!(t.menus_created, 1);
    assert_eq!(t.menus_destroyed, 1);

    let (r, t) = popup_protocol(
        &tray,
        PopupOutcomes {
            create: Err(no_error()),
            insert_failure: None,
            foreground_ok: true,
            track: Ok(()),
        },
    );
    assert!(matches!(r, Err(MenuError::Create(_))));
    assert_eq!(t.menus_created, 0);
    assert_eq!(t.menus_destroyed, 0);

    let (r, t) = popup_protocol(
        &tray,
        PopupOutcomes {
            create: Ok(()),
            insert_failure: Some((1, no_error())),
            foreground_ok: true,
            track: Ok(()),
        },
    );
    assert!(matches!(r, Err(MenuError::AddItem(_))));
    assert_eq!(t.menus_created, 1);
    assert_eq!(t.menus_destroyed, 1);

    let (r, t) = popup_protocol(
        &tray,
        PopupOutcomes {
            create: Ok(()),
            insert_failure: None,
            foreground_ok: false,
            track: Ok(()),
        },
    );
    assert!(matches!(r, Err(MenuError::WindowForground)));
    assert_eq!(t.menus_created, 1);
    assert_eq!(t.menus_destroyed, 1);

    let (r, t) = popup_protocol(
        &tray,
        PopupOutcomes {
            create: Ok(()),
            insert_failure: None,
            foreground_ok: true,
            track: Err(no_error()),
        },
    );
    assert!(matches!(r, Err(MenuError::Display(_))));
    assert_eq!(t.menus_created, 1);
    assert_eq!(t.menus_destroyed, 1);
}

#[test]
fn popup_on_a_tray_without_a_menu_touches_nothing() {
    let tray = Tray::new(1, "t");
    let (r, t) = popup_protocol(
        &tray,
        PopupOutcomes {
            create: Ok(()),
            insert_failure: None,
            foreground_ok: true,
            track: Ok(()),
        },
    );
    assert!(r.is_ok());
    assert_eq!(t.menus_created, 0);
    assert_eq!(t.menus_destroyed, 0);
}

#[test]
fn the_notify_descriptor_carries_the_tray_data() {
    let tray = sample_tray();
    assert!(tip_fits(&tray));
    let d = notify_icon_data(&tray);
    assert_eq!(d.guid, 7);
    assert_eq!(d.callback_message, WM_TRAY_CALLBACK);
    assert_eq!(
        d.flags,
        NIF_GUID | NIF_SHOWTIP | NIF_TIP | NIF_ICON | NIF_MESSAGE
    );
    assert_eq!(d.version, NOTIFYICON_VERSION_4);
    assert_eq!(d.tip.len(), 128);
    assert_eq!(&d.tip[..4], &[0x54, 0x69, 0x70, 0]); // "Tip\0"
    assert!(d.tip[4..].iter().all(|u| *u == 0));
}

#[test]
fn recreation_builds_the_identical_descriptor() {
    let tray = sample_tray();
    let first = notify_icon_data(&tray);
    let again = notify_icon_data(&tray);
    assert_eq!(first.guid, again.guid);
    assert_eq!(first.callback_message, again.callback_message);
    assert_eq!(first.flags, again.flags);
    assert_eq!(first.version, again.version);
    assert_eq!(first.tip, again.tip);
    // and the unchanged tray still routes a click to the original action
    assert_eq!(
        route_message(&tray, WM_TRAY_CALLBACK, 0, NIN_SELECT as usize, 0),
        TrayAction::InvokeClick(ActionId(100))
    );
}

#[test]
fn a_long_title_does_not_fit_the_tip_field() {
    let title: String = std::iter::repeat('x').take(128).collect();
    let tray = Tray::new(1, &title);
    assert!(!tip_fits(&tray));
}

#[test]
fn setup_walks_to_the_loop_when_every_step_succeeds() {
    let mut s = WinSetup::new();
    assert!(s.on_instance(true, no_error()).result.is_ok());
    assert!(s.on_class_registered(true, no_error()).result.is_ok());
    assert!(s.on_window_created(true, no_error()).result.is_ok());
    assert!(s.on_icon_loaded(true, no_error()).result.is_ok());
    assert_eq!(s.on_icon_added(true), InstallNext::NegotiateVersion);
    let o = s.on_version_set(true);
    assert!(o.result.is_ok());
    assert!(o.release_icon); // the shell keeps its own copy
    assert!(!o.release_window);
    assert!(!o.release_class);
    s.enter_loop();
    s.on_quit();
}

#[test]
fn setup_falls_back_to_modify_when_the_add_fails() {
    let mut s = WinSetup::new();
    s.on_instance(true, no_error());
    s.on_class_registered(true, no_error());
    s.on_window_created(true, no_error());
    s.on_icon_loaded(true, no_error());
    assert_eq!(s.on_icon_added(false), InstallNext::TryModify);
    let o = s.on_icon_modified(true);
    assert!(o.result.is_ok());
    assert!(o.release_icon);
    assert!(!o.release_window);
    assert!(!o.release_class);
    s.enter_loop();
}

#[test]
fn each_fatal_setup_failure_reports_its_error_and_releases_everything() {
    let mut s = WinSetup::new();
    let o = s.on_instance(false, WinError::new(3, String::from("boom")));
    assert!(matches!(o.result, Err(TrayError::NoInstance(_))));
    assert!(!o.release_class && !o.release_window && !o.release_icon);

    let mut s = WinSetup::new();
    s.on_instance(true, no_error());
    let o = s.on_class_registered(false, no_error());
    assert!(matches!(o.result, Err(TrayError::WndClassRegister(_))));
    assert!(!o.release_class && !o.release_window && !o.release_icon);

    let mut s = WinSetup::new();
    s.on_instance(true, no_error());
    s.on_class_registered(true, no_error());
    let o = s.on_window_created(false, no_error());
    assert!(matches!(o.result, Err(TrayError::WindowCreate(_))));
    assert!(o.release_class); // the just-registered class is released
    assert!(!o.release_window && !o.release_icon);

    let mut s = WinSetup::new();
    s.on_instance(true, no_error());
    s.on_class_registered(true, no_error());
    s.on_window_created(true, no_error());
    let o = s.on_icon_loaded(false, no_error());
    assert!(matches!(o.result, Err(TrayError::IconLoad(_))));
    assert!(o.release_window); // the window acquired before is released
    assert!(o.release_class); // and so is the registered class
    assert!(!o.release_icon);

    let mut s = WinSetup::new();
    s.on_instance(true, no_error());
    s.on_class_registered(true, no_error());
    s.on_window_created(true, no_error());
    s.on_icon_loaded(true, no_error());
    s.on_icon_added(false);
    let o = s.on_icon_modified(false);
    assert!(matches!(o.result, Err(TrayError::Display)));
    assert!(o.release_class && o.release_window && o.release_icon);

    let mut s = WinSetup::new();
    s.on_instance(true, no_error());
    s.on_class_registered(true, no_error());
    s.on_window_created(true, no_error());
    s.on_icon_loaded(true, no_error());
    s.on_icon_added(true);
    let o = s.on_version_set(false);
    assert!(matches!(o.result, Err(TrayError::Version)));
    assert!(o.release_class && o.release_window && o.release_icon);
}

#[test]
fn recreation_failures_are_not_fatal_and_map_like_setup() {
    let mut s = WinSetup::new();
    s.on_instance(true, no_error());
    s.on_class_registered(true, no_error());
    s.on_window_created(true, no_error());
    s.on_icon_loaded(true, no_error());
    s.on_icon_added(true);
    s.on_version_set(true);
    s.enter_loop();

    assert!(s.recreate(true, no_error(), true, no_error(), true, false, true).is_ok());
    assert!(s.recreate(true, no_error(), true, no_error(), false, true, false).is_ok());
    assert!(matches!(
        s.recreate(false, no_error(), true, no_error(), true, true, true),
        Err(TrayError::NoInstance(_))
    ));
    assert!(matches!(
        s.recreate(true, no_error(), false, no_error(), true, true, true),
        Err(TrayError::IconLoad(_))
    ));
    assert!(matches!(
        s.recreate(true, no_error(), true, no_error(), false, false, true),
        Err(TrayError::Display)
    ));
    assert!(matches!(
        s.recreate(true, no_error(), true, no_error(), true, true, false),
        Err(TrayError::Version)
    ));
    // still running: a later quit is an orderly shutdown
    s.on_quit();
}

#[test]
fn exit_with_no_tray_displayed_is_a_no_op() {
    assert!(!exit_shutdown(false));
    assert!(exit_shutdown(true));
}

#[test]
fn a_service_run_maps_to_the_callers_result() {
    assert!(service_result(true).is_ok());
    assert!(matches!(service_result(false), Err(TrayError::Dbus)));
}
