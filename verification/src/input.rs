//! Keyboard handling of the user interface: what each key does to the state of the
//! interface, and which requests to the robot it makes.

use vstd::prelude::*;

use crate::app::{AppMode, ACTIVE_OPMODE_BLOCK_ID, AUTO_BLOCK_ID, GAMEPADS_BLOCK_ID, TELEOP_BLOCK_ID};
use crate::ftc_proto::robot_command::OPMODE_STOP;
use crate::ftc_proto::time_packet::RobotOpmodeState;
use crate::popup::{InfoPopup, RestartRobotPopup};
use crate::ftc_proto::gamepad_packet::{
    spec_default_for_user, GamepadPacketData, BUTTON_A, BUTTON_B, BUTTON_BACK, BUTTON_DPAD_DOWN,
    BUTTON_DPAD_LEFT, BUTTON_DPAD_RIGHT, BUTTON_DPAD_UP, BUTTON_GUIDE, BUTTON_LEFT_BUMPER,
    BUTTON_LEFT_STICK_BUTTON, BUTTON_RIGHT_BUMPER, BUTTON_RIGHT_STICK_BUTTON, BUTTON_START,
    BUTTON_X, BUTTON_Y,
};
use crate::text::{chars_eq_str, chars_of, contains_str, has_substring, string_from_chars};

verus! {

/// The modifier bits of a key press (as the terminal reports them).
pub const MODIFIER_SHIFT: u8 = 1;

pub const MODIFIER_CONTROL: u8 = 2;

pub const MODIFIER_ALT: u8 = 4;

/// Entries of the quick menu, in the order they are listed.
pub const QUICKMENU_OPTION_CLOSE_QUICKMENU: usize = 0;

pub const QUICKMENU_OPTION_RESTART_ROBOT: usize = 1;

pub const QUICKMENU_OPTION_SETTINGS: usize = 2;

pub const QUICKMENU_OPTION_CONFIGURE_HARDWARE: usize = 3;

pub const QUICKMENU_OPTION_TOGGLE_MATCH: usize = 4;

pub const QUICKMENU_OPTION_EXIT_APP: usize = 5;

/// How many entries the quick menu has.
pub const QUICKMENU_OPTION_COUNT: usize = 6;

/// A key
#[derive(Clone, Copy, PartialEq, Eq, Structural, Debug)]
pub enum KeyCode {
    Char(char),
    Enter,
    Esc,
    Tab,
    BackTab,
    Up,
    Down,
    Left,
    Right,
    Backspace,
    /// Any key not listed
    Other,
}

/// A key press: the key and the modifier bits held with it.
#[derive(Clone, Copy, PartialEq, Eq, Structural, Debug)]
pub struct KeyInput {
    pub code: KeyCode,
    pub modifiers: u8,
}

/// The popup shown, if any
#[derive(Clone, PartialEq, Eq, Debug)]
pub enum ActivePopup {
    Info(InfoPopup),
    RestartRobot(RestartRobotPopup),
}

/// The mathematical value of an [ActivePopup].
pub enum ActivePopupView {
    Info { text: Seq<char>, scroll: u16 },
    RestartRobot { selected_yes: bool },
}

impl View for ActivePopup {
    type V = ActivePopupView;

    open spec fn view(&self) -> ActivePopupView {
        match self {
            ActivePopup::Info(p) => ActivePopupView::Info { text: p.text@, scroll: p.scroll },
            ActivePopup::RestartRobot(p) => ActivePopupView::RestartRobot {
                selected_yes: p.selected_yes,
            },
        }
    }
}

/// The state of the user interface that keys change
#[derive(Debug)]
pub struct UiState {
    /// Is the application running?
    pub running: bool,
    /// What "mode" we're in
    pub mode: AppMode,
    /// Our current command buffer, if in [AppMode::InsertCommand]
    pub current_command: Vec<char>,
    /// The main "block" the user has selected, going from the top left to the bottom right
    pub selected_block: u8,
    /// The teleop opmode the user currently has selected
    pub teleop_selected: Option<usize>,
    /// The auto opmode the user currently has selected
    pub auto_selected: Option<usize>,
    /// Number of lines scrolled in the telemetry display
    pub telemetry_display_scroll: u16,
    /// The selection in the quick menu, when it is open
    pub quickmenu: Option<Option<usize>>,
    /// Our active popup, if we have one
    pub active_popup: Option<ActivePopup>,
    /// Whether a match timer is running
    pub match_active: bool,
}

/// The mathematical value of a [UiState].
pub struct UiStateView {
    pub running: bool,
    pub mode: AppMode,
    pub current_command: Seq<char>,
    pub selected_block: u8,
    pub teleop_selected: Option<usize>,
    pub auto_selected: Option<usize>,
    pub telemetry_display_scroll: u16,
    pub quickmenu: Option<Option<usize>>,
    pub active_popup: Option<ActivePopupView>,
    pub match_active: bool,
}

impl View for UiState {
    type V = UiStateView;

    open spec fn view(&self) -> UiStateView {
        UiStateView {
            running: self.running,
            mode: self.mode,
            current_command: self.current_command@,
            selected_block: self.selected_block,
            teleop_selected: self.teleop_selected,
            auto_selected: self.auto_selected,
            telemetry_display_scroll: self.telemetry_display_scroll,
            quickmenu: self.quickmenu,
            active_popup: match self.active_popup {
                Some(p) => Some(p@),
                None => None,
            },
            match_active: self.match_active,
        }
    }
}

/// A request to the robot or the rest of the application that a key makes
#[derive(Clone, PartialEq, Eq, Debug)]
pub enum UiAction {
    /// Initialize the named opmode
    InitOpMode(String),
    /// Start the named opmode
    StartOpMode(String),
    /// Stop the running opmode
    StopOpMode,
    /// Restart the robot
    RestartRobot,
    /// Ask the robot for its configurations
    RequestConfigurations,
    /// Start a match timer
    StartMatch,
    /// Stop the match timer
    StopMatch,
}

/// The mathematical value of a [UiAction].
pub enum UiActionView {
    InitOpMode(Seq<char>),
    StartOpMode(Seq<char>),
    StopOpMode,
    RestartRobot,
    RequestConfigurations,
    StartMatch,
    StopMatch,
}

impl View for UiAction {
    type V = UiActionView;

    open spec fn view(&self) -> UiActionView {
        match self {
            UiAction::InitOpMode(s) => UiActionView::InitOpMode(s@),
            UiAction::StartOpMode(s) => UiActionView::StartOpMode(s@),
            UiAction::StopOpMode => UiActionView::StopOpMode,
            UiAction::RestartRobot => UiActionView::RestartRobot,
            UiAction::RequestConfigurations => UiActionView::RequestConfigurations,
            UiAction::StartMatch => UiActionView::StartMatch,
            UiAction::StopMatch => UiActionView::StopMatch,
        }
    }
}

/// The view of an optional action.
pub open spec fn action_view(a: Option<UiAction>) -> Option<UiActionView> {
    match a {
        Some(a) => Some(a@),
        None => None,
    }
}

/// What the robot last told us, as far as keys need it
pub struct RobotSnapshot {
    /// The last opmode state we got, if any
    pub active_opmode_state: Option<RobotOpmodeState>,
    /// The currently active opmode
    pub active_opmode: String,
    /// How many telemetry lines are shown
    pub telemetry_lines: usize,
}

/// A list selection moved to the next item, the first one if none is selected
/// (as a list widget's state moves it).
pub open spec fn select_next(s: Option<usize>) -> Option<usize> {
    match s {
        Some(i) => Some(if i == usize::MAX { usize::MAX } else { (i + 1) as usize }),
        None => Some(0),
    }
}

/// A list selection moved to the previous item, the last one if none is selected
/// (as a list widget's state moves it).
pub open spec fn select_previous(s: Option<usize>) -> Option<usize> {
    match s {
        Some(i) => Some(if i == 0 { 0 } else { (i - 1) as usize }),
        None => Some(usize::MAX),
    }
}

pub(crate) fn list_select_next(s: Option<usize>) -> (r: Option<usize>)
    ensures
        r == select_next(s),
{
    match s {
        Some(i) => Some(i.saturating_add(1)),
        None => Some(0),
    }
}

pub(crate) fn list_select_previous(s: Option<usize>) -> (r: Option<usize>)
    ensures
        r == select_previous(s),
{
    match s {
        Some(i) => Some(i.saturating_sub(1)),
        None => Some(usize::MAX),
    }
}

/// Whether a key is the quit chord: Ctrl + c.
pub open spec fn is_quit_key(key: KeyInput) -> bool {
    key.modifiers == MODIFIER_CONTROL && (key.code == KeyCode::Char('c') || key.code
        == KeyCode::Char('C'))
}

/// The keys active everywhere in normal mode: Ctrl + c and Q quit, `r` asks whether to
/// restart the robot, `:` opens the command bar with an empty command and `m` opens the
/// quick menu with its first entry selected.
pub open spec fn spec_universal_keys(s: UiStateView, key: KeyInput) -> UiStateView {
    if is_quit_key(key) || key.code == KeyCode::Char('q') || key.code == KeyCode::Char('Q') {
        UiStateView { running: false, ..s }
    } else if key.code == KeyCode::Char('r') {
        UiStateView {
            active_popup: Some(ActivePopupView::RestartRobot { selected_yes: false }),
            ..s
        }
    } else if key.code == KeyCode::Char(':') {
        UiStateView { mode: AppMode::InsertCommand, current_command: Seq::empty(), ..s }
    } else if key.code == KeyCode::Char('m') {
        UiStateView { quickmenu: Some(Some(0)), ..s }
    } else {
        s
    }
}

/// Whether a key moves a selection back: Shift + Tab, Up or `k`.
pub open spec fn is_back_key(code: KeyCode) -> bool {
    code == KeyCode::BackTab || code == KeyCode::Up || code == KeyCode::Char('k')
}

/// Whether a key moves a selection forward: Tab, Down or `j`.
pub open spec fn is_forward_key(code: KeyCode) -> bool {
    code == KeyCode::Tab || code == KeyCode::Down || code == KeyCode::Char('j')
}

/// The text shown for the settings entry of the quick menu.
pub open spec fn settings_toast() -> Seq<char> {
    "Sorry, settings are not implemented yet!"@
}

/// Keys while the quick menu is open: Escape closes it; Enter takes the selected entry
/// (the first when none is) and closes it; Shift + Tab, Up and `k` select the previous
/// entry; Tab, Down and `j` select the next one.
pub open spec fn spec_quickmenu_key(s: UiStateView, key: KeyInput) -> (UiStateView, Option<
    UiActionView,
>) {
    let sel = s.quickmenu->0;
    if key.code == KeyCode::Esc {
        (UiStateView { quickmenu: None, ..s }, None)
    } else if key.code == KeyCode::Enter {
        let choice = match sel {
            Some(i) => i,
            None => 0,
        };
        let closed = UiStateView { quickmenu: None, ..s };
        if choice == QUICKMENU_OPTION_RESTART_ROBOT {
            (
                UiStateView {
                    active_popup: Some(ActivePopupView::RestartRobot { selected_yes: false }),
                    ..closed
                },
                None,
            )
        } else if choice == QUICKMENU_OPTION_SETTINGS {
            (
                UiStateView {
                    active_popup: Some(ActivePopupView::Info { text: settings_toast(), scroll: 0 }),
                    ..closed
                },
                None,
            )
        } else if choice == QUICKMENU_OPTION_CONFIGURE_HARDWARE {
            (
                UiStateView { mode: AppMode::ConfigureHardware, ..closed },
                Some(UiActionView::RequestConfigurations),
            )
        } else if choice == QUICKMENU_OPTION_TOGGLE_MATCH {
            if s.match_active {
                (UiStateView { match_active: false, ..closed }, Some(UiActionView::StopMatch))
            } else {
                (UiStateView { match_active: true, ..closed }, Some(UiActionView::StartMatch))
            }
        } else if choice == QUICKMENU_OPTION_EXIT_APP {
            (UiStateView { running: false, ..closed }, None)
        } else {
            (closed, None)
        }
    } else if is_back_key(key.code) {
        (UiStateView { quickmenu: Some(select_previous(sel)), ..s }, None)
    } else if is_forward_key(key.code) {
        (UiStateView { quickmenu: Some(select_next(sel)), ..s }, None)
    } else {
        (s, None)
    }
}

/// A popup after a key: Enter and Escape submit and close it; Tab, Right and `l` select
/// the next option; Shift + Tab, Left and `h` the previous one; Up and `k` scroll up;
/// Down and `j` scroll down.
pub open spec fn spec_popup_key(p: ActivePopupView, key: KeyInput) -> (Option<ActivePopupView>, Option<
    UiActionView,
>) {
    let code = key.code;
    if code == KeyCode::Enter || code == KeyCode::Esc {
        (
            None,
            match p {
                ActivePopupView::RestartRobot { selected_yes } => if selected_yes {
                    Some(UiActionView::RestartRobot)
                } else {
                    None
                },
                _ => None,
            },
        )
    } else if code == KeyCode::Tab || code == KeyCode::Right || code == KeyCode::Char('l') || code
        == KeyCode::BackTab || code == KeyCode::Left || code == KeyCode::Char('h') {
        (
            Some(
                match p {
                    ActivePopupView::RestartRobot { selected_yes } => ActivePopupView::RestartRobot {
                        selected_yes: !selected_yes,
                    },
                    _ => p,
                },
            ),
            None,
        )
    } else if code == KeyCode::Up || code == KeyCode::Char('k') {
        (
            Some(
                match p {
                    ActivePopupView::Info { text, scroll } => ActivePopupView::Info {
                        text,
                        scroll: if scroll == 0 { 0 } else { (scroll - 1) as u16 },
                    },
                    _ => p,
                },
            ),
            None,
        )
    } else if code == KeyCode::Down || code == KeyCode::Char('j') {
        (
            Some(
                match p {
                    ActivePopupView::Info { text, scroll } => ActivePopupView::Info {
                        text,
                        scroll: if scroll == u16::MAX { u16::MAX } else { (scroll + 1) as u16 },
                    },
                    _ => p,
                },
            ),
            None,
        )
    } else {
        (Some(p), None)
    }
}

/// The last index the telemetry display scrolls to.
pub open spec fn max_scroll_index(lines: usize) -> usize {
    if lines == 0 {
        0
    } else {
        (lines - 1) as usize
    }
}

/// Whether a key in normal mode, with no quick menu or popup open, is handled without the
/// scroll of the telemetry display running past its type's range.
pub open spec fn main_key_defined(s: UiStateView, key: KeyInput, robot: RobotSnapshot) -> bool {
    &&& (key.code == KeyCode::Tab || key.code == KeyCode::Right) && s.selected_block
        != GAMEPADS_BLOCK_ID ==> s.selected_block < u8::MAX
    &&& (key.code == KeyCode::Down || key.code == KeyCode::Char('j')) && s.selected_block
        == ACTIVE_OPMODE_BLOCK_ID && s.telemetry_display_scroll != (#[verifier::truncate] (
    max_scroll_index(robot.telemetry_lines) as u16)) ==> s.telemetry_display_scroll < u16::MAX
}

/// Whether a key in normal mode is handled within the ranges of the state's types: this
/// concerns only the main keys, which act when no quick menu or popup is open once the
/// keys active everywhere have been handled.
pub open spec fn normal_key_defined(s: UiStateView, key: KeyInput, robot: RobotSnapshot) -> bool {
    let u = spec_universal_keys(s, key);
    u.quickmenu is None && u.active_popup is None ==> main_key_defined(u, key, robot)
}

/// Keys in normal mode with no quick menu or popup open. Enter on an opmode list acts on
/// the selected opmode: the active one is started when initialized or stopped and stopped
/// when running, another one is initialized (nothing happens before the robot reported a
/// state). Space (without modifiers) acts on the active opmode: runs it when initialized,
/// stops it when running (nothing when no opmode is active). Tab and Right select the next
/// block, Shift + Tab and Left the previous one, wrapping around. Up / `k` and Down / `j`
/// move in the selected list or scroll the telemetry display, which stops at its last line.
pub open spec fn spec_main_key(
    s: UiStateView,
    key: KeyInput,
    robot: RobotSnapshot,
    selected_opmode: Option<Seq<char>>,
) -> (UiStateView, Option<UiActionView>) {
    let code = key.code;
    if code == KeyCode::Enter {
        if (s.selected_block == AUTO_BLOCK_ID || s.selected_block == TELEOP_BLOCK_ID)
            && selected_opmode is Some && robot.active_opmode_state is Some {
            let name = selected_opmode->0;
            if robot.active_opmode@ == name {
                match robot.active_opmode_state->0 {
                    RobotOpmodeState::Initialized | RobotOpmodeState::Stopped => (
                        s,
                        Some(UiActionView::StartOpMode(selected_opmode->0)),
                    ),
                    RobotOpmodeState::Running => (s, Some(UiActionView::StopOpMode)),
                    _ => (s, None),
                }
            } else {
                (s, Some(UiActionView::InitOpMode(name)))
            }
        } else {
            (s, None)
        }
    } else if key.modifiers == 0 && code == KeyCode::Char(' ') {
        if robot.active_opmode@ == OPMODE_STOP@ {
            (s, None)
        } else {
            match robot.active_opmode_state {
                Some(RobotOpmodeState::Initialized) => (
                    s,
                    Some(UiActionView::StartOpMode(robot.active_opmode@)),
                ),
                Some(RobotOpmodeState::Running) => (s, Some(UiActionView::StopOpMode)),
                _ => (s, None),
            }
        }
    } else if code == KeyCode::Tab || code == KeyCode::Right {
        (
            UiStateView {
                selected_block: if s.selected_block == GAMEPADS_BLOCK_ID {
                    0
                } else {
                    (s.selected_block + 1) as u8
                },
                ..s
            },
            None,
        )
    } else if code == KeyCode::BackTab || code == KeyCode::Left {
        (
            UiStateView {
                selected_block: if s.selected_block == 0 {
                    GAMEPADS_BLOCK_ID
                } else {
                    (s.selected_block - 1) as u8
                },
                ..s
            },
            None,
        )
    } else if code == KeyCode::Up || code == KeyCode::Char('k') {
        if s.selected_block == AUTO_BLOCK_ID {
            (UiStateView { auto_selected: select_previous(s.auto_selected), ..s }, None)
        } else if s.selected_block == TELEOP_BLOCK_ID {
            (UiStateView { teleop_selected: select_previous(s.teleop_selected), ..s }, None)
        } else if s.selected_block == ACTIVE_OPMODE_BLOCK_ID && s.telemetry_display_scroll != 0 {
            (
                UiStateView {
                    telemetry_display_scroll: (s.telemetry_display_scroll - 1) as u16,
                    ..s
                },
                None,
            )
        } else {
            (s, None)
        }
    } else if code == KeyCode::Down || code == KeyCode::Char('j') {
        if s.selected_block == AUTO_BLOCK_ID {
            (UiStateView { auto_selected: select_next(s.auto_selected), ..s }, None)
        } else if s.selected_block == TELEOP_BLOCK_ID {
            (UiStateView { teleop_selected: select_next(s.teleop_selected), ..s }, None)
        } else if s.selected_block == ACTIVE_OPMODE_BLOCK_ID && s.telemetry_display_scroll != (
        #[verifier::truncate] (max_scroll_index(robot.telemetry_lines) as u16)) {
            (
                UiStateView {
                    telemetry_display_scroll: (s.telemetry_display_scroll + 1) as u16,
                    ..s
                },
                None,
            )
        } else {
            (s, None)
        }
    } else {
        (s, None)
    }
}

/// A key in normal mode: first the keys active everywhere, then the quick menu's keys if
/// it is open, else the popup's keys if one is shown, else the main keys.
pub open spec fn spec_normal_key(
    s: UiStateView,
    key: KeyInput,
    robot: RobotSnapshot,
    selected_opmode: Option<Seq<char>>,
) -> (UiStateView, Option<UiActionView>) {
    let u = spec_universal_keys(s, key);
    if u.quickmenu is Some {
        spec_quickmenu_key(u, key)
    } else if u.active_popup is Some {
        let (p, a) = spec_popup_key(u.active_popup->0, key);
        (UiStateView { active_popup: p, ..u }, a)
    } else {
        spec_main_key(u, key, robot, selected_opmode)
    }
}

/// Keys in the command bar: Escape returns to normal mode, Enter returns to normal mode
/// and submits the typed command, Backspace deletes the last character, and any other
/// character is typed.
pub open spec fn spec_insert_key(s: UiStateView, key: KeyInput) -> UiStateView {
    match key.code {
        KeyCode::Esc => UiStateView { mode: AppMode::Normal, ..s },
        KeyCode::Enter => UiStateView { mode: AppMode::Normal, ..s },
        KeyCode::Backspace => UiStateView {
            current_command: if s.current_command.len() > 0 {
                s.current_command.drop_last()
            } else {
                s.current_command
            },
            ..s
        },
        KeyCode::Char(c) => UiStateView { current_command: s.current_command.push(c), ..s },
        _ => s,
    }
}

impl UiState {
    /// The state when the application starts: running, in normal mode, the teleop list
    /// selected with the first opmode of each list selected, and nothing open.
    pub fn new() -> (s: UiState)
        ensures
            s@ == (UiStateView {
                running: true,
                mode: AppMode::Normal,
                current_command: Seq::empty(),
                selected_block: 1,
                teleop_selected: Some(0),
                auto_selected: Some(0),
                telemetry_display_scroll: 0,
                quickmenu: None,
                active_popup: None,
                match_active: false,
            }),
    {
        let s = UiState {
            running: true,
            mode: AppMode::Normal,
            current_command: Vec::new(),
            selected_block: 1,
            teleop_selected: Some(0),
            auto_selected: Some(0),
            telemetry_display_scroll: 0,
            quickmenu: None,
            active_popup: None,
            match_active: false,
        };
        assert(s@.current_command =~= Seq::<char>::empty());
        s
    }

    /// Set running to false to quit the application.
    pub fn quit(&mut self)
        ensures
            final(self)@ == (UiStateView { running: false, ..old(self)@ }),
    {
        self.running = false;
    }

    /// Shows some text as a popup
    pub fn show_toast(&mut self, text: String)
        ensures
            final(self)@ == (UiStateView {
                active_popup: Some(ActivePopupView::Info { text: text@, scroll: 0 }),
                ..old(self)@
            }),
    {
        self.active_popup = Some(ActivePopup::Info(InfoPopup::new(text)));
    }

    fn universal_keys(&mut self, key: KeyInput)
        ensures
            final(self)@ == spec_universal_keys(old(self)@, key),
    {
        if (key.modifiers == MODIFIER_CONTROL && (key.code == KeyCode::Char('c') || key.code
            == KeyCode::Char('C'))) || key.code == KeyCode::Char('q') || key.code == KeyCode::Char(
            'Q',
        ) {
            self.quit();
        } else if key.code == KeyCode::Char('r') {
            self.active_popup = Some(
                ActivePopup::RestartRobot(RestartRobotPopup { selected_yes: false }),
            );
        } else if key.code == KeyCode::Char(':') {
            self.mode = AppMode::InsertCommand;
            self.current_command = Vec::new();
            assert(self@.current_command =~= Seq::<char>::empty());
        } else if key.code == KeyCode::Char('m') {
            self.quickmenu = Some(list_select_next(None));
        }
    }

    fn quickmenu_key(&mut self, key: KeyInput) -> (action: Option<UiAction>)
        requires
            old(self).quickmenu is Some,
        ensures
            (final(self)@, action_view(action)) == spec_quickmenu_key(old(self)@, key),
    {
        let sel = match self.quickmenu {
            Some(sel) => sel,
            None => None,
        };
        if key.code == KeyCode::Esc {
            self.quickmenu = None;
            None
        } else if key.code == KeyCode::Enter {
            let choice = match sel {
                Some(i) => i,
                None => 0,
            };
            self.quickmenu = None;
            if choice == QUICKMENU_OPTION_RESTART_ROBOT {
                self.active_popup = Some(
                    ActivePopup::RestartRobot(RestartRobotPopup { selected_yes: false }),
                );
                None
            } else if choice == QUICKMENU_OPTION_SETTINGS {
                self.show_toast(String::from_str("Sorry, settings are not implemented yet!"));
                None
            } else if choice == QUICKMENU_OPTION_CONFIGURE_HARDWARE {
                self.mode = AppMode::ConfigureHardware;
                Some(UiAction::RequestConfigurations)
            } else if choice == QUICKMENU_OPTION_TOGGLE_MATCH {
                if self.match_active {
                    self.match_active = false;
                    Some(UiAction::StopMatch)
                } else {
                    self.match_active = true;
                    Some(UiAction::StartMatch)
                }
            } else if choice == QUICKMENU_OPTION_EXIT_APP {
                self.quit();
                None
            } else {
                None
            }
        } else if key.code == KeyCode::BackTab || key.code == KeyCode::Up || key.code
            == KeyCode::Char('k') {
            self.quickmenu = Some(list_select_previous(sel));
            None
        } else if key.code == KeyCode::Tab || key.code == KeyCode::Down || key.code
            == KeyCode::Char('j') {
            self.quickmenu = Some(list_select_next(sel));
            None
        } else {
            None
        }
    }

    fn popup_key(&mut self, key: KeyInput) -> (action: Option<UiAction>)
        requires
            old(self).active_popup is Some,
        ensures
            ({
                let (p, a) = spec_popup_key(old(self)@.active_popup->0, key);
                final(self)@ == (UiStateView { active_popup: p, ..old(self)@ }) && action_view(
                    action,
                ) == a
            }),
    {
        let mut popup = match self.active_popup.take() {
            Some(p) => p,
            None => return None,
        };
        let code = key.code;
        if code == KeyCode::Enter || code == KeyCode::Esc {
            match &mut popup {
                ActivePopup::RestartRobot(p) => if p.submit() {
                    Some(UiAction::RestartRobot)
                } else {
                    None
                },
                ActivePopup::Info(p) => {
                    p.submit();
                    None
                },
            }
        } else {
            if code == KeyCode::Tab || code == KeyCode::Right || code == KeyCode::Char('l') {
                match &mut popup {
                    ActivePopup::RestartRobot(p) => p.select_next_option(),
                    ActivePopup::Info(p) => p.select_next_option(),
                }
            } else if code == KeyCode::BackTab || code == KeyCode::Left || code == KeyCode::Char(
                'h',
            ) {
                match &mut popup {
                    ActivePopup::RestartRobot(p) => p.select_previous_option(),
                    ActivePopup::Info(p) => p.select_previous_option(),
                }
            } else if code == KeyCode::Up || code == KeyCode::Char('k') {
                match &mut popup {
                    ActivePopup::RestartRobot(p) => p.scroll_up(),
                    ActivePopup::Info(p) => p.scroll_up(),
                }
            } else if code == KeyCode::Down || code == KeyCode::Char('j') {
                match &mut popup {
                    ActivePopup::RestartRobot(p) => p.scroll_down(),
                    ActivePopup::Info(p) => p.scroll_down(),
                }
            }
            self.active_popup = Some(popup);
            None
        }
    }

    fn main_key(
        &mut self,
        key: KeyInput,
        robot: &RobotSnapshot,
        selected_opmode: Option<String>,
    ) -> (action: Option<UiAction>)
        requires
            main_key_defined(old(self)@, key, *robot),
        ensures
            (final(self)@, action_view(action)) == spec_main_key(
                old(self)@,
                key,
                *robot,
                match selected_opmode {
                    Some(s) => Some(s@),
                    None => None,
                },
            ),
    {
        let code = key.code;
        if code == KeyCode::Enter {
            if self.selected_block == AUTO_BLOCK_ID || self.selected_block == TELEOP_BLOCK_ID {
                if let Some(name) = selected_opmode {
                    if let Some(status) = robot.active_opmode_state {
                        let active = chars_of(robot.active_opmode.as_str());
                        if chars_eq_str(&active, name.as_str()) {
                            return match status {
                                RobotOpmodeState::Initialized | RobotOpmodeState::Stopped => Some(
                                    UiAction::StartOpMode(name),
                                ),
                                RobotOpmodeState::Running => Some(UiAction::StopOpMode),
                                _ => None,
                            };
                        } else {
                            return Some(UiAction::InitOpMode(name));
                        }
                    }
                }
            }
            None
        } else if key.modifiers == 0 && code == KeyCode::Char(' ') {
            let active = chars_of(robot.active_opmode.as_str());
            if chars_eq_str(&active, OPMODE_STOP) {
                None
            } else {
                match robot.active_opmode_state {
                    Some(RobotOpmodeState::Initialized) => Some(
                        UiAction::StartOpMode(robot.active_opmode.clone()),
                    ),
                    Some(RobotOpmodeState::Running) => Some(UiAction::StopOpMode),
                    _ => None,
                }
            }
        } else if code == KeyCode::Tab || code == KeyCode::Right {
            if self.selected_block == GAMEPADS_BLOCK_ID {
                self.selected_block = 0;
            } else {
                self.selected_block = self.selected_block + 1;
            }
            None
        } else if code == KeyCode::BackTab || code == KeyCode::Left {
            if self.selected_block == 0 {
                self.selected_block = GAMEPADS_BLOCK_ID;
            } else {
                self.selected_block = self.selected_block - 1;
            }
            None
        } else if code == KeyCode::Up || code == KeyCode::Char('k') {
            if self.selected_block == AUTO_BLOCK_ID {
                self.auto_selected = list_select_previous(self.auto_selected);
            } else if self.selected_block == TELEOP_BLOCK_ID {
                self.teleop_selected = list_select_previous(self.teleop_selected);
            } else if self.selected_block == ACTIVE_OPMODE_BLOCK_ID {
                if self.telemetry_display_scroll != 0 {
                    self.telemetry_display_scroll = self.telemetry_display_scroll - 1;
                }
            }
            None
        } else if code == KeyCode::Down || code == KeyCode::Char('j') {
            if self.selected_block == AUTO_BLOCK_ID {
                self.auto_selected = list_select_next(self.auto_selected);
            } else if self.selected_block == TELEOP_BLOCK_ID {
                self.teleop_selected = list_select_next(self.teleop_selected);
            } else if self.selected_block == ACTIVE_OPMODE_BLOCK_ID {
                let max_index: usize = if robot.telemetry_lines != 0 {
                    robot.telemetry_lines - 1
                } else {
                    0
                };
                if self.telemetry_display_scroll != #[verifier::truncate] (max_index as u16) {
                    self.telemetry_display_scroll = self.telemetry_display_scroll + 1;
                }
            }
            None
        } else {
            None
        }
    }

    /// Handles a key in normal mode, the only mode which supports interacting with popups.
    /// Returns the request the key makes, if any.
    pub fn on_normal_mode_key_event(
        &mut self,
        key: KeyInput,
        robot: &RobotSnapshot,
        selected_opmode: Option<String>,
    ) -> (action: Option<UiAction>)
        requires
            normal_key_defined(old(self)@, key, *robot),
        ensures
            (final(self)@, action_view(action)) == spec_normal_key(
                old(self)@,
                key,
                *robot,
                match selected_opmode {
                    Some(s) => Some(s@),
                    None => None,
                },
            ),
    {
        self.universal_keys(key);
        if self.quickmenu.is_some() {
            self.quickmenu_key(key)
        } else if self.active_popup.is_some() {
            self.popup_key(key)
        } else {
            self.main_key(key, robot, selected_opmode)
        }
    }

    /// Handles a key in command insertion mode. Returns the command submitted, if the key
    /// submits it (Enter): the command buffer as typed.
    pub fn on_command_insert_mode_key_event(&mut self, key: KeyInput) -> (submitted: Option<
        String,
    >)
        ensures
            final(self)@ == spec_insert_key(old(self)@, key),
            match submitted {
                Some(c) => key.code == KeyCode::Enter && c@ == old(self)@.current_command,
                None => key.code != KeyCode::Enter,
            },
    {
        match key.code {
            KeyCode::Esc => {
                self.mode = AppMode::Normal;
                None
            },
            KeyCode::Enter => {
                self.mode = AppMode::Normal;
                Some(string_from_chars(&self.current_command))
            },
            KeyCode::Backspace => {
                let _ = self.current_command.pop();
                None
            },
            KeyCode::Char(c) => {
                self.current_command.push(c);
                None
            },
            _ => None,
        }
    }
}

// ---------------------------------------------------------------------------------------
// Gamepads
// ---------------------------------------------------------------------------------------

/// The buttons of a controller, as the gamepad library names them, and whether each is held.
#[derive(Debug, Clone, Copy, PartialEq, Eq, Structural, Default)]
pub struct PressedButtons {
    pub left_thumb: bool,
    pub right_thumb: bool,
    pub dpad_up: bool,
    pub dpad_down: bool,
    pub dpad_left: bool,
    pub dpad_right: bool,
    pub south: bool,
    pub east: bool,
    pub west: bool,
    pub north: bool,
    pub mode: bool,
    pub start: bool,
    pub select: bool,
    pub left_trigger: bool,
    pub right_trigger: bool,
    pub left_trigger_2: bool,
    pub right_trigger_2: bool,
}

/// What is read of a controller at one moment: its id, its buttons, and its stick axes
/// (each the bit pattern of an `f32`, up positive as the gamepad library reports it).
#[derive(Debug, Clone, Copy, PartialEq, Eq, Structural)]
pub struct GamepadReading {
    pub id: usize,
    pub buttons: PressedButtons,
    pub left_stick_x: u32,
    pub left_stick_y: u32,
    pub right_stick_x: u32,
    pub right_stick_y: u32,
}

/// A controller the gamepad library reports as connected.
#[derive(Debug, Clone, PartialEq, Eq)]
pub struct ConnectedGamepad {
    pub reading: GamepadReading,
    /// Whether the library has a mapping for it (its mapping source is not `None`)
    pub has_mapping: bool,
    pub name: String,
}

/// The mathematical value of a [ConnectedGamepad].
pub struct ConnectedGamepadView {
    pub reading: GamepadReading,
    pub has_mapping: bool,
    pub name: Seq<char>,
}

impl View for ConnectedGamepad {
    type V = ConnectedGamepadView;

    open spec fn view(&self) -> ConnectedGamepadView {
        ConnectedGamepadView {
            reading: self.reading,
            has_mapping: self.has_mapping,
            name: self.name@,
        }
    }
}

/// The views of the connected controllers.
pub open spec fn connected_view(cs: Seq<ConnectedGamepad>) -> Seq<ConnectedGamepadView> {
    cs.map_values(|c: ConnectedGamepad| c@)
}

/// A controller bound to a driver, with the state last read from it.
#[derive(Debug, Clone, Copy, PartialEq, Eq, Structural)]
pub struct Gamepad {
    pub id: usize,
    pub last_state: GamepadPacketData,
}

/// The flag bit of a button if it is held.
pub open spec fn flag_if(held: bool, flag: u32) -> u32 {
    if held {
        flag
    } else {
        0
    }
}

/// The button flags of a reading: each held button's `BUTTON_*` bit (South is A, East B,
/// West X, North Y, Mode the guide button, Select back, the triggers the bumpers).
pub open spec fn spec_button_flags(b: PressedButtons) -> u32 {
    flag_if(b.left_thumb, BUTTON_LEFT_STICK_BUTTON) | flag_if(b.right_thumb, BUTTON_RIGHT_STICK_BUTTON)
        | flag_if(b.dpad_up, BUTTON_DPAD_UP) | flag_if(b.dpad_down, BUTTON_DPAD_DOWN)
        | flag_if(b.dpad_left, BUTTON_DPAD_LEFT) | flag_if(b.dpad_right, BUTTON_DPAD_RIGHT)
        | flag_if(b.south, BUTTON_A) | flag_if(b.east, BUTTON_B) | flag_if(b.west, BUTTON_X)
        | flag_if(b.north, BUTTON_Y) | flag_if(b.mode, BUTTON_GUIDE) | flag_if(b.start, BUTTON_START)
        | flag_if(b.select, BUTTON_BACK) | flag_if(b.left_trigger, BUTTON_LEFT_BUMPER)
        | flag_if(b.right_trigger, BUTTON_RIGHT_BUMPER)
}

/// The bit pattern of the negation of an `f32`: negation flips the sign bit.
pub open spec fn negated_f32_bits(x: u32) -> u32 {
    x ^ 0x8000_0000u32
}

/// The bit pattern of `1.0f32`.
pub const F32_ONE_BITS: u32 = 0x3F80_0000;

/// A trigger held all the way (1.0) or released (0.0); the analog value is not read.
pub open spec fn trigger_bits(held: bool) -> u32 {
    if held {
        F32_ONE_BITS
    } else {
        0
    }
}

/// The packet a reading is sent as for `user`: its id (truncated to `i32`), the time,
/// the sticks with up negative (the robot's convention), the lower triggers as 0 or 1, the
/// button flags, and the rest as for a resting gamepad of that user.
pub open spec fn spec_map_reading(r: GamepadReading, user: u8, timestamp: u64) -> GamepadPacketData {
    GamepadPacketData {
        gamepad_id: r.id as i32,
        left_stick_x: r.left_stick_x,
        left_stick_y: negated_f32_bits(r.left_stick_y),
        right_stick_x: r.right_stick_x,
        right_stick_y: negated_f32_bits(r.right_stick_y),
        timestamp,
        left_trigger: trigger_bits(r.buttons.left_trigger_2),
        right_trigger: trigger_bits(r.buttons.right_trigger_2),
        button_flags: spec_button_flags(r.buttons),
        ..spec_default_for_user(user)
    }
}

fn flag_of(held: bool, flag: u32) -> (r: u32)
    ensures
        r == flag_if(held, flag),
{
    if held {
        flag
    } else {
        0
    }
}

impl Gamepad {
    /// The packet a reading of a controller is sent as for driver `user`, stamped with
    /// `timestamp` (milliseconds of uptime).
    pub fn map_to_gamepad_packet_data(reading: &GamepadReading, user: u8, timestamp: u64) -> (g:
        GamepadPacketData)
        ensures
            g == spec_map_reading(*reading, user, timestamp),
    {
        let b = reading.buttons;
        let flags: u32 = flag_of(b.left_thumb, BUTTON_LEFT_STICK_BUTTON) | flag_of(
            b.right_thumb,
            BUTTON_RIGHT_STICK_BUTTON,
        ) | flag_of(b.dpad_up, BUTTON_DPAD_UP) | flag_of(b.dpad_down, BUTTON_DPAD_DOWN) | flag_of(
            b.dpad_left,
            BUTTON_DPAD_LEFT,
        ) | flag_of(b.dpad_right, BUTTON_DPAD_RIGHT) | flag_of(b.south, BUTTON_A) | flag_of(
            b.east,
            BUTTON_B,
        ) | flag_of(b.west, BUTTON_X) | flag_of(b.north, BUTTON_Y) | flag_of(b.mode, BUTTON_GUIDE)
            | flag_of(b.start, BUTTON_START) | flag_of(b.select, BUTTON_BACK) | flag_of(
            b.left_trigger,
            BUTTON_LEFT_BUMPER,
        ) | flag_of(b.right_trigger, BUTTON_RIGHT_BUMPER);
        let base = GamepadPacketData::default_for_user(user);
        GamepadPacketData {
            gamepad_id: #[verifier::truncate] (reading.id as i32),
            left_stick_x: reading.left_stick_x,
            left_stick_y: reading.left_stick_y ^ 0x8000_0000u32,
            right_stick_x: reading.right_stick_x,
            right_stick_y: reading.right_stick_y ^ 0x8000_0000u32,
            timestamp,
            left_trigger: if b.left_trigger_2 {
                F32_ONE_BITS
            } else {
                0
            },
            right_trigger: if b.right_trigger_2 {
                F32_ONE_BITS
            } else {
                0
            },
            button_flags: flags,
            ..base
        }
    }
}

/// The reading of the first connected controller with this id, if any.
pub open spec fn reading_of(cs: Seq<ConnectedGamepadView>, id: usize) -> Option<GamepadReading>
    decreases cs.len(),
{
    if cs.len() == 0 {
        None
    } else if cs[0].reading.id == id {
        Some(cs[0].reading)
    } else {
        reading_of(cs.drop_first(), id)
    }
}

/// Finds the reading of the first connected controller with this id.
pub fn find_reading(cs: &Vec<ConnectedGamepad>, id: usize) -> (r: Option<GamepadReading>)
    ensures
        r == reading_of(connected_view(cs@), id),
{
    let ghost cv = connected_view(cs@);
    let mut i: usize = 0;
    assert(cv.skip(0) =~= cv);
    while i < cs.len()
        invariant
            i <= cs@.len(),
            cv == connected_view(cs@),
            reading_of(cv, id) == reading_of(cv.skip(i as int), id),
        decreases cs@.len() - i,
    {
        assert(cv.skip(i as int)[0] == cs@[i as int]@);
        if cs[i].reading.id == id {
            return Some(cs[i].reading);
        }
        assert(cv.skip(i as int).drop_first() =~= cv.skip(i + 1));
        i += 1;
    }
    None
}

/// A binding after its controller was looked for: dropped if the controller is gone, or if
/// Start and West (X) are held on it.
pub open spec fn kept_binding(b: Option<Gamepad>, cs: Seq<ConnectedGamepadView>) -> Option<Gamepad> {
    match b {
        Some(g) => match reading_of(cs, g.id) {
            Some(r) => if r.buttons.start && r.buttons.west {
                None
            } else {
                b
            },
            None => None,
        },
        None => None,
    }
}

/// The name part of a keyboard that reports itself as a controller.
pub const KEYBOARD_MODULE_NAME: &'static str = "Framework Laptop 16 Keyboard Module";

/// Whether a connected controller can be bound: it has a mapping and is not a keyboard.
pub open spec fn bindable(c: ConnectedGamepadView) -> bool {
    c.has_mapping && !has_substring(c.name, KEYBOARD_MODULE_NAME@)
}

/// The bindings after looking at one connected controller: Start and South (A) bind it to
/// driver one, else Start and East (B) to driver two, taking it from the other driver.
pub open spec fn bind_step(
    bindings: (Option<Gamepad>, Option<Gamepad>),
    c: ConnectedGamepadView,
    timestamp: u64,
) -> (Option<Gamepad>, Option<Gamepad>) {
    let (one, two) = bindings;
    let r = c.reading;
    if !bindable(c) {
        bindings
    } else if r.buttons.start && r.buttons.south {
        (
            Some(Gamepad { id: r.id, last_state: spec_map_reading(r, 1, timestamp) }),
            match two {
                Some(g) => if g.id == r.id {
                    None
                } else {
                    two
                },
                None => None,
            },
        )
    } else if r.buttons.start && r.buttons.east {
        (
            match one {
                Some(g) => if g.id == r.id {
                    None
                } else {
                    one
                },
                None => None,
            },
            Some(Gamepad { id: r.id, last_state: spec_map_reading(r, 2, timestamp) }),
        )
    } else {
        bindings
    }
}

/// The bindings after looking at each connected controller in turn.
pub open spec fn bind_all(
    bindings: (Option<Gamepad>, Option<Gamepad>),
    cs: Seq<ConnectedGamepadView>,
    timestamp: u64,
) -> (Option<Gamepad>, Option<Gamepad>)
    decreases cs.len(),
{
    if cs.len() == 0 {
        bindings
    } else {
        bind_step(bind_all(bindings, cs.drop_last(), timestamp), cs.last(), timestamp)
    }
}

/// A binding with its state read anew for `user`.
pub open spec fn refreshed(
    b: Option<Gamepad>,
    cs: Seq<ConnectedGamepadView>,
    user: u8,
    timestamp: u64,
) -> Option<Gamepad> {
    match b {
        Some(g) => Some(
            Gamepad {
                id: g.id,
                last_state: match reading_of(cs, g.id) {
                    Some(r) => spec_map_reading(r, user, timestamp),
                    None => g.last_state,
                },
            },
        ),
        None => None,
    }
}

/// The bindings of the two drivers after one look at the connected controllers: bindings
/// whose controller left or asked to be unbound are dropped, controllers whose binding
/// buttons are held are bound, then each bound controller's state is read anew.
pub open spec fn spec_update_gamepads(
    one: Option<Gamepad>,
    two: Option<Gamepad>,
    cs: Seq<ConnectedGamepadView>,
    timestamp: u64,
) -> (Option<Gamepad>, Option<Gamepad>) {
    let (a, b) = bind_all((kept_binding(one, cs), kept_binding(two, cs)), cs, timestamp);
    (refreshed(a, cs, 1, timestamp), refreshed(b, cs, 2, timestamp))
}

fn keep_binding(b: Option<Gamepad>, cs: &Vec<ConnectedGamepad>) -> (r: Option<Gamepad>)
    ensures
        r == kept_binding(b, connected_view(cs@)),
{
    match b {
        Some(g) => match find_reading(cs, g.id) {
            Some(r) => if r.buttons.start && r.buttons.west {
                None
            } else {
                b
            },
            None => None,
        },
        None => None,
    }
}

fn refresh(b: Option<Gamepad>, cs: &Vec<ConnectedGamepad>, user: u8, timestamp: u64) -> (r:
    Option<Gamepad>)
    ensures
        r == refreshed(b, connected_view(cs@), user, timestamp),
{
    match b {
        Some(g) => Some(
            Gamepad {
                id: g.id,
                last_state: match find_reading(cs, g.id) {
                    Some(r) => Gamepad::map_to_gamepad_packet_data(&r, user, timestamp),
                    None => g.last_state,
                },
            },
        ),
        None => None,
    }
}

/// Checks if there are any new gamepads / if any have disconnected and updates the two
/// drivers' bindings: see [spec_update_gamepads]. `connected` lists the controllers the
/// gamepad library reports, in its order; `timestamp` stamps the new states.
pub fn update_gamepads(
    gamepad_one: &mut Option<Gamepad>,
    gamepad_two: &mut Option<Gamepad>,
    connected: &Vec<ConnectedGamepad>,
    timestamp: u64,
)
    ensures
        (*final(gamepad_one), *final(gamepad_two)) == spec_update_gamepads(
            *old(gamepad_one),
            *old(gamepad_two),
            connected_view(connected@),
            timestamp,
        ),
{
    let ghost cv = connected_view(connected@);
    let mut one = keep_binding(*gamepad_one, connected);
    let mut two = keep_binding(*gamepad_two, connected);
    let ghost start = (one, two);
    let mut i: usize = 0;
    assert(cv.take(0) =~= Seq::<ConnectedGamepadView>::empty());
    while i < connected.len()
        invariant
            i <= connected@.len(),
            cv == connected_view(connected@),
            (one, two) == bind_all(start, cv.take(i as int), timestamp),
        decreases connected@.len() - i,
    {
        let c = &connected[i];
        assert(cv.take(i + 1).drop_last() =~= cv.take(i as int));
        assert(cv.take(i + 1).last() == c@);
        let r = c.reading;
        if c.has_mapping && !contains_str(c.name.as_str(), KEYBOARD_MODULE_NAME) {
            if r.buttons.start && r.buttons.south {
                let new_two = match two {
                    Some(g) => if g.id == r.id {
                        None
                    } else {
                        two
                    },
                    None => None,
                };
                one = Some(
                    Gamepad { id: r.id, last_state: Gamepad::map_to_gamepad_packet_data(&r, 1, timestamp) },
                );
                two = new_two;
            } else if r.buttons.start && r.buttons.east {
                let new_one = match one {
                    Some(g) => if g.id == r.id {
                        None
                    } else {
                        one
                    },
                    None => None,
                };
                two = Some(
                    Gamepad { id: r.id, last_state: Gamepad::map_to_gamepad_packet_data(&r, 2, timestamp) },
                );
                one = new_one;
            }
        }
        i += 1;
    }
    assert(cv.take(i as int) =~= cv);
    *gamepad_one = refresh(one, connected, 1, timestamp);
    *gamepad_two = refresh(two, connected, 2, timestamp);
}

// ---------------------------------------------------------------------------------------
// Laws of the key handling
// ---------------------------------------------------------------------------------------

/// With no quick menu or popup open, selecting the next block and then the previous one
/// (Tab then Shift + Tab, or Right then Left) comes back to the block selected before, and
/// the other way round.
pub proof fn lemma_block_selection_round_trip(
    s: UiStateView,
    robot: RobotSnapshot,
    selected_opmode: Option<Seq<char>>,
    forward: KeyInput,
    back: KeyInput,
)
    requires
        s.quickmenu is None,
        s.active_popup is None,
        s.selected_block <= GAMEPADS_BLOCK_ID,
        forward.code == KeyCode::Tab || forward.code == KeyCode::Right,
        back.code == KeyCode::BackTab || back.code == KeyCode::Left,
    ensures
        spec_normal_key(
            spec_normal_key(s, forward, robot, selected_opmode).0,
            back,
            robot,
            selected_opmode,
        ).0 == s,
        spec_normal_key(
            spec_normal_key(s, back, robot, selected_opmode).0,
            forward,
            robot,
            selected_opmode,
        ).0 == s,
        spec_normal_key(s, forward, robot, selected_opmode).0.selected_block <= GAMEPADS_BLOCK_ID,
        spec_normal_key(s, back, robot, selected_opmode).0.selected_block <= GAMEPADS_BLOCK_ID,
{
}

/// In the command bar, typing a character and then deleting it leaves the command as it
/// was.
pub proof fn lemma_type_then_delete(s: UiStateView, c: char, modifiers: u8, backspace_modifiers: u8)
    ensures
        spec_insert_key(
            spec_insert_key(s, KeyInput { code: KeyCode::Char(c), modifiers }),
            KeyInput { code: KeyCode::Backspace, modifiers: backspace_modifiers },
        ) == s,
{
    assert(s.current_command.push(c).drop_last() =~= s.current_command);
}

/// Enter acts alike on the autonomous and the driver-controlled opmode lists, with no
/// quick menu or popup open and once the robot has reported a state: an opmode other than
/// the active one is initialized; the active one is started when initialized or stopped,
/// stopped when running, and left alone otherwise. The interface itself is unchanged.
/// Before the robot has reported a state, or with no opmode selected, Enter does nothing.
pub proof fn lemma_enter_on_opmode_lists(
    s: UiStateView,
    key: KeyInput,
    robot: RobotSnapshot,
    selected_opmode: Option<Seq<char>>,
)
    requires
        s.quickmenu is None,
        s.active_popup is None,
        key.code == KeyCode::Enter,
        s.selected_block == AUTO_BLOCK_ID || s.selected_block == TELEOP_BLOCK_ID,
    ensures
        spec_normal_key(s, key, robot, selected_opmode).0 == s,
        robot.active_opmode_state is None || selected_opmode is None ==> spec_normal_key(
            s,
            key,
            robot,
            selected_opmode,
        ).1 is None,
        selected_opmode is Some && robot.active_opmode_state is Some
            && robot.active_opmode@ != selected_opmode->0 ==> spec_normal_key(s, key, robot, selected_opmode).1
            == Some(UiActionView::InitOpMode(selected_opmode->0)),
        selected_opmode is Some && robot.active_opmode@ == selected_opmode->0 && (
        robot.active_opmode_state == Some(RobotOpmodeState::Initialized)
            || robot.active_opmode_state == Some(RobotOpmodeState::Stopped)) ==> spec_normal_key(
            s,
            key,
            robot,
            selected_opmode,
        ).1 == Some(UiActionView::StartOpMode(selected_opmode->0)),
        selected_opmode is Some && robot.active_opmode@ == selected_opmode->0
            && robot.active_opmode_state == Some(RobotOpmodeState::Running) ==> spec_normal_key(
            s,
            key,
            robot,
            selected_opmode,
        ).1 == Some(UiActionView::StopOpMode),
        selected_opmode is Some && robot.active_opmode@ == selected_opmode->0 && (
        robot.active_opmode_state == Some(RobotOpmodeState::Unknown)
            || robot.active_opmode_state == Some(RobotOpmodeState::NotStarted)
            || robot.active_opmode_state == Some(RobotOpmodeState::EmergencyStopped))
            ==> spec_normal_key(s, key, robot, selected_opmode).1 is None,
        spec_normal_key(UiStateView { selected_block: AUTO_BLOCK_ID, ..s }, key, robot, selected_opmode).1
            == spec_normal_key(
            UiStateView { selected_block: TELEOP_BLOCK_ID, ..s },
            key,
            robot,
            selected_opmode,
        ).1,
{
}

/// Space (without modifiers), with no quick menu or popup open, acts on the active opmode
/// whichever block is selected: it runs it when initialized and stops it when running;
/// while the robot is stopped (the stop opmode is active), or in any other state, it does
/// nothing. The interface itself is unchanged.
pub proof fn lemma_space_acts_on_active_opmode(
    s: UiStateView,
    robot: RobotSnapshot,
    selected_opmode: Option<Seq<char>>,
)
    requires
        s.quickmenu is None,
        s.active_popup is None,
    ensures
        ({
            let (s2, a) = spec_normal_key(
                s,
                KeyInput { code: KeyCode::Char(' '), modifiers: 0 },
                robot,
                selected_opmode,
            );
            &&& s2 == s
            &&& robot.active_opmode@ == "$Stop$Robot$"@ ==> a is None
            &&& robot.active_opmode@ != "$Stop$Robot$"@ && robot.active_opmode_state == Some(
                RobotOpmodeState::Initialized,
            ) ==> a == Some(UiActionView::StartOpMode(robot.active_opmode@))
            &&& robot.active_opmode@ != "$Stop$Robot$"@ && robot.active_opmode_state == Some(
                RobotOpmodeState::Running,
            ) ==> a == Some(UiActionView::StopOpMode)
            &&& robot.active_opmode_state != Some(RobotOpmodeState::Initialized)
                && robot.active_opmode_state != Some(RobotOpmodeState::Running) ==> a is None
        }),
{
    reveal_strlit("$Stop$Robot$");
}

/// Each physical button sets its own flag of the packet, and no flag is set but those of
/// held buttons: South is A, East B, West X, North Y, Mode the guide button, Start start,
/// Select back, the upper triggers the bumpers, the thumbs the stick buttons, and the pad
/// its directions. No other flag (the touchpad's) is ever set.
pub proof fn lemma_each_button_sets_its_own_flag(r: GamepadReading, user: u8, timestamp: u64)
    ensures
        ({
            let f = spec_map_reading(r, user, timestamp).button_flags;
            let b = r.buttons;
            &&& (f & BUTTON_A != 0) == b.south
            &&& (f & BUTTON_B != 0) == b.east
            &&& (f & BUTTON_X != 0) == b.west
            &&& (f & BUTTON_Y != 0) == b.north
            &&& (f & BUTTON_GUIDE != 0) == b.mode
            &&& (f & BUTTON_START != 0) == b.start
            &&& (f & BUTTON_BACK != 0) == b.select
            &&& (f & BUTTON_LEFT_BUMPER != 0) == b.left_trigger
            &&& (f & BUTTON_RIGHT_BUMPER != 0) == b.right_trigger
            &&& (f & BUTTON_LEFT_STICK_BUTTON != 0) == b.left_thumb
            &&& (f & BUTTON_RIGHT_STICK_BUTTON != 0) == b.right_thumb
            &&& (f & BUTTON_DPAD_UP != 0) == b.dpad_up
            &&& (f & BUTTON_DPAD_DOWN != 0) == b.dpad_down
            &&& (f & BUTTON_DPAD_LEFT != 0) == b.dpad_left
            &&& (f & BUTTON_DPAD_RIGHT != 0) == b.dpad_right
            &&& f < 0x8000
        }),
{
    let b = r.buttons;
    let a0 = flag_if(b.left_thumb, BUTTON_LEFT_STICK_BUTTON);
    let a1 = flag_if(b.right_thumb, BUTTON_RIGHT_STICK_BUTTON);
    let a2 = flag_if(b.dpad_up, BUTTON_DPAD_UP);
    let a3 = flag_if(b.dpad_down, BUTTON_DPAD_DOWN);
    let a4 = flag_if(b.dpad_left, BUTTON_DPAD_LEFT);
    let a5 = flag_if(b.dpad_right, BUTTON_DPAD_RIGHT);
    let a6 = flag_if(b.south, BUTTON_A);
    let a7 = flag_if(b.east, BUTTON_B);
    let a8 = flag_if(b.west, BUTTON_X);
    let a9 = flag_if(b.north, BUTTON_Y);
    let a10 = flag_if(b.mode, BUTTON_GUIDE);
    let a11 = flag_if(b.start, BUTTON_START);
    let a12 = flag_if(b.select, BUTTON_BACK);
    let a13 = flag_if(b.left_trigger, BUTTON_LEFT_BUMPER);
    let a14 = flag_if(b.right_trigger, BUTTON_RIGHT_BUMPER);
    let f = spec_map_reading(r, user, timestamp).button_flags;
    assert(f == a0 | a1 | a2 | a3 | a4 | a5 | a6 | a7 | a8 | a9 | a10 | a11 | a12 | a13 | a14);
    assert({
        let g = a0 | a1 | a2 | a3 | a4 | a5 | a6 | a7 | a8 | a9 | a10 | a11 | a12 | a13 | a14;
        &&& (g & 256u32 != 0) == (a6 != 0)
        &&& (g & 128u32 != 0) == (a7 != 0)
        &&& (g & 64u32 != 0) == (a8 != 0)
        &&& (g & 32u32 != 0) == (a9 != 0)
        &&& (g & 16u32 != 0) == (a10 != 0)
        &&& (g & 8u32 != 0) == (a11 != 0)
        &&& (g & 4u32 != 0) == (a12 != 0)
        &&& (g & 2u32 != 0) == (a13 != 0)
        &&& (g & 1u32 != 0) == (a14 != 0)
        &&& (g & 16384u32 != 0) == (a0 != 0)
        &&& (g & 8192u32 != 0) == (a1 != 0)
        &&& (g & 4096u32 != 0) == (a2 != 0)
        &&& (g & 2048u32 != 0) == (a3 != 0)
        &&& (g & 1024u32 != 0) == (a4 != 0)
        &&& (g & 512u32 != 0) == (a5 != 0)
        &&& g < 0x8000u32
    }) by (bit_vector)
        requires
            a0 == 0u32 || a0 == 16384u32,
            a1 == 0u32 || a1 == 8192u32,
            a2 == 0u32 || a2 == 4096u32,
            a3 == 0u32 || a3 == 2048u32,
            a4 == 0u32 || a4 == 1024u32,
            a5 == 0u32 || a5 == 512u32,
            a6 == 0u32 || a6 == 256u32,
            a7 == 0u32 || a7 == 128u32,
            a8 == 0u32 || a8 == 64u32,
            a9 == 0u32 || a9 == 32u32,
            a10 == 0u32 || a10 == 16u32,
            a11 == 0u32 || a11 == 8u32,
            a12 == 0u32 || a12 == 4u32,
            a13 == 0u32 || a13 == 2u32,
            a14 == 0u32 || a14 == 1u32,
    ;
}

/// No controller is bound to both drivers.
pub open spec fn bindings_distinct(one: Option<Gamepad>, two: Option<Gamepad>) -> bool {
    match (one, two) {
        (Some(a), Some(b)) => a.id != b.id,
        _ => true,
    }
}

proof fn lemma_bind_all_distinct(
    bindings: (Option<Gamepad>, Option<Gamepad>),
    cs: Seq<ConnectedGamepadView>,
    timestamp: u64,
)
    requires
        bindings_distinct(bindings.0, bindings.1),
    ensures
        bindings_distinct(bind_all(bindings, cs, timestamp).0, bind_all(bindings, cs, timestamp).1),
    decreases cs.len(),
{
    if cs.len() > 0 {
        lemma_bind_all_distinct(bindings, cs.drop_last(), timestamp);
        let prev = bind_all(bindings, cs.drop_last(), timestamp);
        lemma_bind_step_distinct(prev, cs.last(), timestamp);
    }
}

proof fn lemma_bind_step_distinct(
    bindings: (Option<Gamepad>, Option<Gamepad>),
    c: ConnectedGamepadView,
    timestamp: u64,
)
    requires
        bindings_distinct(bindings.0, bindings.1),
    ensures
        bindings_distinct(bind_step(bindings, c, timestamp).0, bind_step(bindings, c, timestamp).1),
{
}

/// Updating the bindings never binds one controller to both drivers, if it was not so
/// before.
pub proof fn lemma_update_keeps_bindings_distinct(
    one: Option<Gamepad>,
    two: Option<Gamepad>,
    cs: Seq<ConnectedGamepadView>,
    timestamp: u64,
)
    requires
        bindings_distinct(one, two),
    ensures
        bindings_distinct(
            spec_update_gamepads(one, two, cs, timestamp).0,
            spec_update_gamepads(one, two, cs, timestamp).1,
        ),
{
    let k1 = kept_binding(one, cs);
    let k2 = kept_binding(two, cs);
    assert(k1 is None || k1 == one);
    assert(k2 is None || k2 == two);
    assert(bindings_distinct(k1, k2));
    lemma_bind_all_distinct((k1, k2), cs, timestamp);
}

/// Whether a controller asks to be bound: Start held with South (A) or East (B).
pub open spec fn asks_binding(c: ConnectedGamepadView) -> bool {
    bindable(c) && c.reading.buttons.start && (c.reading.buttons.south || c.reading.buttons.east)
}

proof fn lemma_bind_all_binds(
    bindings: (Option<Gamepad>, Option<Gamepad>),
    cs: Seq<ConnectedGamepadView>,
    timestamp: u64,
    k: int,
)
    requires
        0 <= k < cs.len(),
        asks_binding(cs[k]),
        forall|j: int| k < j < cs.len() ==> !asks_binding(#[trigger] cs[j]),
    ensures
        cs[k].reading.buttons.south ==> (bind_all(bindings, cs, timestamp).0 matches Some(g)
            && g.id == cs[k].reading.id),
        !cs[k].reading.buttons.south ==> (bind_all(bindings, cs, timestamp).1 matches Some(g)
            && g.id == cs[k].reading.id),
    decreases cs.len(),
{
    if k < cs.len() - 1 {
        let d = cs.drop_last();
        assert forall|j: int| k < j < d.len() implies !asks_binding(#[trigger] d[j]) by {
            assert(d[j] == cs[j]);
        }
        assert(d[k] == cs[k]);
        lemma_bind_all_binds(bindings, d, timestamp, k);
        assert(!asks_binding(cs[cs.len() - 1]));
    } else {
        assert(cs.last() == cs[k]);
    }
}

/// Holding Start and South (A) on a controller that can be bound binds it to driver one;
/// holding Start and East (B) (without South) binds it to driver two. This holds when no
/// controller that the library lists after it asks to be bound in the same look.
pub proof fn lemma_start_south_or_east_binds(
    one: Option<Gamepad>,
    two: Option<Gamepad>,
    cs: Seq<ConnectedGamepadView>,
    timestamp: u64,
    k: int,
)
    requires
        0 <= k < cs.len(),
        bindable(cs[k]),
        cs[k].reading.buttons.start,
        cs[k].reading.buttons.south || cs[k].reading.buttons.east,
        forall|j: int| k < j < cs.len() ==> !asks_binding(#[trigger] cs[j]),
    ensures
        cs[k].reading.buttons.south ==> (spec_update_gamepads(one, two, cs, timestamp).0 matches Some(
            g,
        ) && g.id == cs[k].reading.id),
        !cs[k].reading.buttons.south ==> (spec_update_gamepads(one, two, cs, timestamp).1 matches Some(
            g,
        ) && g.id == cs[k].reading.id),
{
    lemma_bind_all_binds((kept_binding(one, cs), kept_binding(two, cs)), cs, timestamp, k);
}

/// Holding Start and West (X) on a bound controller unbinds it, unless the same look at
/// the controllers binds it again (Start with South or East held too).
pub proof fn lemma_start_west_unbinds(
    one: Option<Gamepad>,
    two: Option<Gamepad>,
    cs: Seq<ConnectedGamepadView>,
    timestamp: u64,
)
    requires
        one matches Some(g) && reading_of(cs, g.id) matches Some(r) && r.buttons.start
            && r.buttons.west,
        forall|i: int|
            0 <= i < cs.len() ==> !((#[trigger] cs[i]).reading.buttons.start && (
            cs[i].reading.buttons.south || cs[i].reading.buttons.east)),
    ensures
        spec_update_gamepads(one, two, cs, timestamp).0 is None,
    decreases cs.len(),
{
    lemma_no_binding_keeps(kept_binding(one, cs), kept_binding(two, cs), cs, timestamp);
}

proof fn lemma_no_binding_keeps(
    one: Option<Gamepad>,
    two: Option<Gamepad>,
    cs: Seq<ConnectedGamepadView>,
    timestamp: u64,
)
    requires
        forall|i: int|
            0 <= i < cs.len() ==> !((#[trigger] cs[i]).reading.buttons.start && (
            cs[i].reading.buttons.south || cs[i].reading.buttons.east)),
    ensures
        bind_all((one, two), cs, timestamp) == (one, two),
    decreases cs.len(),
{
    if cs.len() > 0 {
        assert forall|i: int| 0 <= i < cs.drop_last().len() implies !((#[trigger] cs.drop_last()[
            i
        ]).reading.buttons.start && (cs.drop_last()[i].reading.buttons.south
            || cs.drop_last()[i].reading.buttons.east)) by {
            assert(cs.drop_last()[i] == cs[i]);
        }
        lemma_no_binding_keeps(one, two, cs.drop_last(), timestamp);
        assert(cs.last() == cs[cs.len() - 1]);
    }
}

/// A name, listed if its button is held.
pub open spec fn name_if(held: bool, name: Seq<char>) -> Seq<Seq<char>> {
    if held {
        seq![name]
    } else {
        Seq::empty()
    }
}

/// The names of the held directions of the pad, in the order up, left, right, down.
pub open spec fn spec_dpad_names(flags: u32) -> Seq<Seq<char>> {
    name_if(flags & BUTTON_DPAD_UP != 0, "up"@) + name_if(flags & BUTTON_DPAD_LEFT != 0, "left"@)
        + name_if(flags & BUTTON_DPAD_RIGHT != 0, "right"@) + name_if(
        flags & BUTTON_DPAD_DOWN != 0,
        "down"@,
    )
}

/// The names of the held face and menu buttons, in the order a, b, x, y, guide, start,
/// back.
pub open spec fn spec_button_names(flags: u32) -> Seq<Seq<char>> {
    name_if(flags & BUTTON_A != 0, "a"@) + name_if(flags & BUTTON_B != 0, "b"@) + name_if(
        flags & BUTTON_X != 0,
        "x"@,
    ) + name_if(flags & BUTTON_Y != 0, "y"@) + name_if(flags & BUTTON_GUIDE != 0, "guide"@)
        + name_if(flags & BUTTON_START != 0, "start"@) + name_if(
        flags & BUTTON_BACK != 0,
        "back"@,
    )
}

/// The texts of a list of names.
pub open spec fn names_view(v: Seq<&'static str>) -> Seq<Seq<char>> {
    v.map_values(|n: &'static str| n@)
}

fn push_if_held(names: &mut Vec<&'static str>, held: bool, name: &'static str)
    ensures
        names_view(final(names)@) == names_view(old(names)@) + name_if(held, name@),
{
    let ghost start = names@;
    if held {
        names.push(name);
        assert(names_view(names@) =~= names_view(start) + seq![name@]);
    } else {
        assert(names_view(names@) =~= names_view(start) + Seq::<Seq<char>>::empty());
    }
}

/// The names of the held directions of the pad, as the gamepad display lists them.
pub fn dpad_names(flags: u32) -> (names: Vec<&'static str>)
    ensures
        names_view(names@) == spec_dpad_names(flags),
{
    let mut names: Vec<&'static str> = Vec::new();
    assert(names_view(names@) =~= Seq::<Seq<char>>::empty());
    push_if_held(&mut names, flags & BUTTON_DPAD_UP != 0, "up");
    push_if_held(&mut names, flags & BUTTON_DPAD_LEFT != 0, "left");
    push_if_held(&mut names, flags & BUTTON_DPAD_RIGHT != 0, "right");
    push_if_held(&mut names, flags & BUTTON_DPAD_DOWN != 0, "down");
    assert(names_view(names@) =~= spec_dpad_names(flags));
    names
}

/// The names of the held face and menu buttons, as the gamepad display lists them.
pub fn button_names(flags: u32) -> (names: Vec<&'static str>)
    ensures
        names_view(names@) == spec_button_names(flags),
{
    let mut names: Vec<&'static str> = Vec::new();
    assert(names_view(names@) =~= Seq::<Seq<char>>::empty());
    push_if_held(&mut names, flags & BUTTON_A != 0, "a");
    push_if_held(&mut names, flags & BUTTON_B != 0, "b");
    push_if_held(&mut names, flags & BUTTON_X != 0, "x");
    push_if_held(&mut names, flags & BUTTON_Y != 0, "y");
    push_if_held(&mut names, flags & BUTTON_GUIDE != 0, "guide");
    push_if_held(&mut names, flags & BUTTON_START != 0, "start");
    push_if_held(&mut names, flags & BUTTON_BACK != 0, "back");
    assert(names_view(names@) =~= spec_button_names(flags));
    names
}

/// What drawing a list of `len` items does to its selection: an empty list selects
/// nothing, and a selection past the end moves to the last item.
pub open spec fn spec_clamp_selection(s: Option<usize>, len: usize) -> Option<usize> {
    if len == 0 {
        None
    } else {
        match s {
            Some(i) => if i >= len {
                Some((len - 1) as usize)
            } else {
                s
            },
            None => None,
        }
    }
}

/// A list's selection after the list is drawn with `len` items.
pub fn clamp_selection(s: Option<usize>, len: usize) -> (r: Option<usize>)
    ensures
        r == spec_clamp_selection(s, len),
{
    if len == 0 {
        None
    } else {
        match s {
            Some(i) => if i >= len {
                Some(len - 1)
            } else {
                s
            },
            None => None,
        }
    }
}

impl UiState {
    /// Brings the list selections within the lists as drawing them does: the opmode lists
    /// hold `teleop_len` and `auto_len` opmodes, the quick menu its fixed entries.
    pub fn clamp_list_selections(&mut self, teleop_len: usize, auto_len: usize)
        ensures
            final(self)@ == (UiStateView {
                teleop_selected: spec_clamp_selection(old(self)@.teleop_selected, teleop_len),
                auto_selected: spec_clamp_selection(old(self)@.auto_selected, auto_len),
                quickmenu: match old(self)@.quickmenu {
                    Some(q) => Some(spec_clamp_selection(q, QUICKMENU_OPTION_COUNT)),
                    None => None,
                },
                ..old(self)@
            }),
    {
        self.teleop_selected = clamp_selection(self.teleop_selected, teleop_len);
        self.auto_selected = clamp_selection(self.auto_selected, auto_len);
        if let Some(q) = self.quickmenu {
            self.quickmenu = Some(clamp_selection(q, QUICKMENU_OPTION_COUNT));
        }
    }
}

} // verus!
