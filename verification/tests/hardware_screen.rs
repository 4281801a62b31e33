use ftctui::app::AppMode;
use ftctui::hardware_configuration::{
    EntryStyle, HardwareConfigurationUI, HardwareConfigurationUIState, InMenuData,
};
use ftctui::input::{clamp_selection, KeyCode, KeyInput, UiState, MODIFIER_CONTROL};

fn key(code: KeyCode) -> KeyInput {
    KeyInput { code, modifiers: 0 }
}

fn configurations() -> Option<Vec<String>> {
    Some(vec![String::from("Competition"), String::from("Test bench")])
}

fn in_menu(config: &str, selected: Option<usize>) -> HardwareConfigurationUIState {
    HardwareConfigurationUIState::InMenu(InMenuData { config: String::from(config), selected })
}

#[test]
fn the_screen_opens_on_the_list() {
    let hw = HardwareConfigurationUI::default();
    assert_eq!(hw.state, HardwareConfigurationUIState::Choosing(Some(0)));
}

#[test]
fn choosing_a_configuration_opens_its_menu_and_requests_it() {
    let mut ui = UiState::new();
    ui.mode = AppMode::ConfigureHardware;
    let mut hw = HardwareConfigurationUI::default();
    for _ in 0..4 {
        assert_eq!(hw.on_key_event(&mut ui, key(KeyCode::Down), &configurations()), None);
    }
    assert_eq!(hw.state, HardwareConfigurationUIState::Choosing(Some(4)));
    let requested = hw.on_key_event(&mut ui, key(KeyCode::Enter), &configurations());
    assert_eq!(requested, Some(String::from("Test bench")));
    assert_eq!(hw.state, in_menu("Test bench", Some(0)));
    assert_eq!(ui.mode, AppMode::ConfigureHardware);
    // "Back" returns to the list
    hw.on_key_event(&mut ui, key(KeyCode::Char('j')), &configurations());
    assert_eq!(hw.on_key_event(&mut ui, key(KeyCode::Enter), &configurations()), None);
    assert_eq!(hw.state, HardwareConfigurationUIState::Choosing(Some(0)));
}

#[test]
fn back_and_escape_leave_the_screen() {
    let mut ui = UiState::new();
    ui.mode = AppMode::ConfigureHardware;
    let mut hw = HardwareConfigurationUI::default();
    hw.on_key_event(&mut ui, key(KeyCode::Enter), &None);
    assert_eq!(ui.mode, AppMode::Normal);
    ui.mode = AppMode::ConfigureHardware;
    hw.state = in_menu("Competition", Some(3));
    hw.on_key_event(&mut ui, key(KeyCode::Esc), &None);
    assert_eq!(ui.mode, AppMode::Normal);
    assert_eq!(hw.state, in_menu("Competition", Some(3)));
    hw.on_key_event(&mut ui, KeyInput { code: KeyCode::Char('c'), modifiers: MODIFIER_CONTROL }, &None);
    assert!(!ui.running);
}

#[test]
fn fixed_entries_and_missing_configurations_do_nothing() {
    let mut ui = UiState::new();
    ui.mode = AppMode::ConfigureHardware;
    let mut hw = HardwareConfigurationUI { state: HardwareConfigurationUIState::Choosing(Some(1)) };
    assert_eq!(hw.on_key_event(&mut ui, key(KeyCode::Enter), &configurations()), None);
    hw.state = HardwareConfigurationUIState::Choosing(Some(3));
    assert_eq!(hw.on_key_event(&mut ui, key(KeyCode::Enter), &None), None);
    assert_eq!(hw.state, HardwareConfigurationUIState::Choosing(Some(3)));
    assert_eq!(ui.mode, AppMode::ConfigureHardware);
}

#[test]
fn entries_mark_the_active_configuration() {
    let hw = HardwareConfigurationUI::default();
    let entries = hw.entries(&configurations(), &Some(String::from("Test bench")));
    assert_eq!(
        entries,
        vec![
            (String::from("Back"), EntryStyle::Muted),
            (String::from("Import from file"), EntryStyle::Muted),
            (String::from("New"), EntryStyle::Muted),
            (String::from("Competition"), EntryStyle::Text),
            (String::from(">Test bench"), EntryStyle::Active),
        ]
    );
    let menu = HardwareConfigurationUI { state: in_menu("Competition", None) };
    let names: Vec<String> = menu.entries(&None, &None).into_iter().map(|e| e.0).collect();
    assert_eq!(names, vec!["Competition", "Back", "Save", "Edit", "Export to file"]);
}

#[test]
fn drawing_keeps_selections_within_the_lists() {
    assert_eq!(clamp_selection(Some(9), 4), Some(3));
    assert_eq!(clamp_selection(Some(2), 4), Some(2));
    assert_eq!(clamp_selection(Some(2), 0), None);
    assert_eq!(clamp_selection(None, 4), None);
    let mut hw = HardwareConfigurationUI { state: in_menu("Competition", Some(usize::MAX)) };
    hw.clamp_selection(0);
    assert_eq!(hw.state, in_menu("Competition", Some(4)));
    let mut ui = UiState::new();
    ui.teleop_selected = Some(10);
    ui.quickmenu = Some(Some(7));
    ui.clamp_list_selections(3, 0);
    assert_eq!(ui.teleop_selected, Some(2));
    assert_eq!(ui.auto_selected, None);
    assert_eq!(ui.quickmenu, Some(Some(5)));
}

#[test]
fn screen_states_start_at_their_first_entry() {
    assert_eq!(HardwareConfigurationUIState::new_choosing(), HardwareConfigurationUIState::Choosing(Some(0)));
    assert_eq!(
        HardwareConfigurationUIState::new_in_menu(String::from("Competition")),
        in_menu("Competition", Some(0))
    );
}
