use ftctui::app::{AppMode, ACTIVE_OPMODE_BLOCK_ID, AUTO_BLOCK_ID, GAMEPADS_BLOCK_ID, TELEOP_BLOCK_ID};
use ftctui::ftc_proto::time_packet::RobotOpmodeState;
use ftctui::input::{
    ActivePopup, KeyCode, KeyInput, RobotSnapshot, UiAction, UiState, MODIFIER_CONTROL,
    MODIFIER_SHIFT, QUICKMENU_OPTION_CONFIGURE_HARDWARE, QUICKMENU_OPTION_TOGGLE_MATCH,
};
use ftctui::popup::InfoPopup;

fn key(code: KeyCode) -> KeyInput {
    KeyInput { code, modifiers: 0 }
}

fn robot(state: Option<RobotOpmodeState>, active: &str, lines: usize) -> RobotSnapshot {
    RobotSnapshot {
        active_opmode_state: state,
        active_opmode: String::from(active),
        telemetry_lines: lines,
    }
}

fn press(ui: &mut UiState, code: KeyCode, r: &RobotSnapshot, sel: Option<&str>) -> Option<UiAction> {
    ui.on_normal_mode_key_event(key(code), r, sel.map(String::from))
}

#[test]
fn tab_and_shift_tab_move_between_blocks() {
    let r = robot(None, "$Stop$Robot$", 0);
    let mut ui = UiState::new();
    assert_eq!(ui.selected_block, TELEOP_BLOCK_ID);
    press(&mut ui, KeyCode::Tab, &r, None);
    assert_eq!(ui.selected_block, AUTO_BLOCK_ID);
    press(&mut ui, KeyCode::Right, &r, None);
    press(&mut ui, KeyCode::Right, &r, None);
    press(&mut ui, KeyCode::Right, &r, None);
    assert_eq!(ui.selected_block, GAMEPADS_BLOCK_ID);
    press(&mut ui, KeyCode::Tab, &r, None);
    assert_eq!(ui.selected_block, 0);
    ui.on_normal_mode_key_event(KeyInput { code: KeyCode::BackTab, modifiers: MODIFIER_SHIFT }, &r, None);
    assert_eq!(ui.selected_block, GAMEPADS_BLOCK_ID);
    press(&mut ui, KeyCode::Left, &r, None);
    assert_eq!(ui.selected_block, ACTIVE_OPMODE_BLOCK_ID);
}

#[test]
fn enter_initializes_starts_and_stops_the_selected_opmode() {
    let mut ui = UiState::new();
    let no_state = robot(None, "$Stop$Robot$", 0);
    assert_eq!(press(&mut ui, KeyCode::Enter, &no_state, Some("Drive")), None);
    let other = robot(Some(RobotOpmodeState::Running), "Auto", 0);
    assert_eq!(
        press(&mut ui, KeyCode::Enter, &other, Some("Drive")),
        Some(UiAction::InitOpMode(String::from("Drive")))
    );
    let initialized = robot(Some(RobotOpmodeState::Initialized), "Drive", 0);
    assert_eq!(
        press(&mut ui, KeyCode::Enter, &initialized, Some("Drive")),
        Some(UiAction::StartOpMode(String::from("Drive")))
    );
    let running = robot(Some(RobotOpmodeState::Running), "Drive", 0);
    assert_eq!(press(&mut ui, KeyCode::Enter, &running, Some("Drive")), Some(UiAction::StopOpMode));
    let stopped = robot(Some(RobotOpmodeState::Stopped), "Drive", 0);
    assert_eq!(
        press(&mut ui, KeyCode::Enter, &stopped, Some("Drive")),
        Some(UiAction::StartOpMode(String::from("Drive")))
    );
    ui.selected_block = ACTIVE_OPMODE_BLOCK_ID;
    assert_eq!(press(&mut ui, KeyCode::Enter, &running, Some("Drive")), None);
}

#[test]
fn space_runs_an_initialized_opmode_and_stops_a_running_one() {
    let mut ui = UiState::new();
    let initialized = robot(Some(RobotOpmodeState::Initialized), "Drive", 0);
    assert_eq!(
        press(&mut ui, KeyCode::Char(' '), &initialized, None),
        Some(UiAction::StartOpMode(String::from("Drive")))
    );
    let running = robot(Some(RobotOpmodeState::Running), "Drive", 0);
    assert_eq!(press(&mut ui, KeyCode::Char(' '), &running, None), Some(UiAction::StopOpMode));
    let idle = robot(Some(RobotOpmodeState::Running), "$Stop$Robot$", 0);
    assert_eq!(press(&mut ui, KeyCode::Char(' '), &idle, None), None);
    let unknown = robot(None, "Drive", 0);
    assert_eq!(press(&mut ui, KeyCode::Char(' '), &unknown, None), None);
    let with_ctrl = ui.on_normal_mode_key_event(
        KeyInput { code: KeyCode::Char(' '), modifiers: MODIFIER_CONTROL },
        &running,
        None,
    );
    assert_eq!(with_ctrl, None);
}

#[test]
fn up_and_down_move_in_lists_and_scroll_telemetry() {
    let r = robot(None, "$Stop$Robot$", 3);
    let mut ui = UiState::new();
    press(&mut ui, KeyCode::Down, &r, None);
    assert_eq!(ui.teleop_selected, Some(1));
    press(&mut ui, KeyCode::Char('k'), &r, None);
    press(&mut ui, KeyCode::Char('k'), &r, None);
    assert_eq!(ui.teleop_selected, Some(0));
    ui.selected_block = AUTO_BLOCK_ID;
    press(&mut ui, KeyCode::Char('j'), &r, None);
    assert_eq!(ui.auto_selected, Some(1));
    ui.selected_block = ACTIVE_OPMODE_BLOCK_ID;
    for _ in 0..5 {
        press(&mut ui, KeyCode::Down, &r, None);
    }
    assert_eq!(ui.telemetry_display_scroll, 2);
    press(&mut ui, KeyCode::Up, &r, None);
    assert_eq!(ui.telemetry_display_scroll, 1);
}

#[test]
fn universal_keys() {
    let r = robot(None, "$Stop$Robot$", 0);
    let mut ui = UiState::new();
    press(&mut ui, KeyCode::Char(':'), &r, None);
    assert_eq!(ui.mode, AppMode::InsertCommand);
    let mut ui = UiState::new();
    ui.on_normal_mode_key_event(KeyInput { code: KeyCode::Char('c'), modifiers: MODIFIER_CONTROL }, &r, None);
    assert!(!ui.running);
    let mut ui = UiState::new();
    press(&mut ui, KeyCode::Char('r'), &r, None);
    assert!(matches!(ui.active_popup, Some(ActivePopup::RestartRobot(p)) if !p.selected_yes));
}

#[test]
fn restart_popup_asks_before_restarting() {
    let r = robot(None, "$Stop$Robot$", 0);
    let mut ui = UiState::new();
    press(&mut ui, KeyCode::Char('r'), &r, None);
    assert_eq!(press(&mut ui, KeyCode::Enter, &r, None), None);
    assert!(ui.active_popup.is_none());
    press(&mut ui, KeyCode::Char('r'), &r, None);
    press(&mut ui, KeyCode::Tab, &r, None);
    assert_eq!(ui.selected_block, TELEOP_BLOCK_ID);
    assert_eq!(press(&mut ui, KeyCode::Enter, &r, None), Some(UiAction::RestartRobot));
}

#[test]
fn info_popups_scroll() {
    let r = robot(None, "$Stop$Robot$", 0);
    let mut ui = UiState::new();
    ui.show_toast(String::from("hello"));
    press(&mut ui, KeyCode::Down, &r, None);
    press(&mut ui, KeyCode::Down, &r, None);
    press(&mut ui, KeyCode::Up, &r, None);
    assert_eq!(
        ui.active_popup,
        Some(ActivePopup::Info(InfoPopup { text: String::from("hello"), scroll: 1 }))
    );
    press(&mut ui, KeyCode::Esc, &r, None);
    assert!(ui.active_popup.is_none());
}

#[test]
fn quick_menu() {
    let r = robot(None, "$Stop$Robot$", 0);
    let mut ui = UiState::new();
    press(&mut ui, KeyCode::Char('m'), &r, None);
    assert_eq!(ui.quickmenu, Some(Some(0)));
    assert!(ui.running);
    for _ in 0..QUICKMENU_OPTION_TOGGLE_MATCH {
        press(&mut ui, KeyCode::Down, &r, None);
    }
    assert_eq!(press(&mut ui, KeyCode::Enter, &r, None), Some(UiAction::StartMatch));
    assert!(ui.match_active);
    assert!(ui.quickmenu.is_none());
    press(&mut ui, KeyCode::Char('m'), &r, None);
    press(&mut ui, KeyCode::Char('j'), &r, None);
    press(&mut ui, KeyCode::Char('j'), &r, None);
    assert_eq!(press(&mut ui, KeyCode::Enter, &r, None), None);
    assert!(matches!(ui.active_popup, Some(ActivePopup::Info(_))));
    press(&mut ui, KeyCode::Esc, &r, None);
    press(&mut ui, KeyCode::Char('m'), &r, None);
    press(&mut ui, KeyCode::Esc, &r, None);
    assert!(ui.quickmenu.is_none());
}

#[test]
fn the_quick_menu_reaches_the_hardware_screen() {
    let r = robot(None, "$Stop$Robot$", 0);
    let mut ui = UiState::new();
    press(&mut ui, KeyCode::Char('m'), &r, None);
    for _ in 0..QUICKMENU_OPTION_CONFIGURE_HARDWARE {
        press(&mut ui, KeyCode::Down, &r, None);
    }
    assert_eq!(press(&mut ui, KeyCode::Enter, &r, None), Some(UiAction::RequestConfigurations));
    assert_eq!(ui.mode, AppMode::ConfigureHardware);
}

#[test]
fn q_quits() {
    let r = robot(None, "$Stop$Robot$", 0);
    let mut ui = UiState::new();
    press(&mut ui, KeyCode::Char('q'), &r, None);
    assert!(!ui.running);
    assert!(ui.quickmenu.is_none());
    let mut ui = UiState::new();
    press(&mut ui, KeyCode::Char('Q'), &r, None);
    assert!(!ui.running);
}

#[test]
fn command_bar_typing() {
    let mut ui = UiState::new();
    ui.mode = AppMode::InsertCommand;
    for c in "quix".chars() {
        ui.on_command_insert_mode_key_event(key(KeyCode::Char(c)));
    }
    assert_eq!(ui.on_command_insert_mode_key_event(key(KeyCode::Backspace)), None);
    ui.on_command_insert_mode_key_event(key(KeyCode::Char('t')));
    assert_eq!(ui.current_command.iter().collect::<String>(), "quit");
    assert_eq!(ui.on_command_insert_mode_key_event(key(KeyCode::Enter)), Some(String::from("quit")));
    assert_eq!(ui.mode, AppMode::Normal);
    ui.mode = AppMode::InsertCommand;
    assert_eq!(ui.on_command_insert_mode_key_event(key(KeyCode::Esc)), None);
    assert_eq!(ui.mode, AppMode::Normal);
}
