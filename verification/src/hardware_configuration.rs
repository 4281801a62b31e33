//! The hardware configuration screen: choosing one of the robot's configurations and the
//! menu of one configuration, what each key does there, and the entries each list shows.

use vstd::prelude::*;

use crate::app::AppMode;
use crate::input::{
    clamp_selection, is_back_key, is_forward_key, is_quit_key, list_select_next,
    list_select_previous, select_next, select_previous, spec_clamp_selection, KeyCode, KeyInput,
    UiState, UiStateView,
};

verus! {

/// Entries of the list of configurations before the configurations themselves.
pub const CHOOSING_FIXED_ENTRIES: usize = 3;

/// Entries of the menu of one configuration.
pub const IN_MENU_ENTRIES: usize = 5;

/// Where the hardware configuration screen is
#[derive(Clone, PartialEq, Eq, Debug)]
pub enum HardwareConfigurationUIState {
    /// Choosing a configuration; the selected entry of the list
    Choosing(Option<usize>),
    /// In the menu of one configuration
    InMenu(InMenuData),
}

/// The menu of one configuration: its name and the selected entry
#[derive(Clone, PartialEq, Eq, Debug)]
pub struct InMenuData {
    pub config: String,
    pub selected: Option<usize>,
}

/// The mathematical value of a [HardwareConfigurationUIState].
pub enum HardwareConfigurationUIStateView {
    Choosing(Option<usize>),
    InMenu { config: Seq<char>, selected: Option<usize> },
}

impl View for HardwareConfigurationUIState {
    type V = HardwareConfigurationUIStateView;

    open spec fn view(&self) -> HardwareConfigurationUIStateView {
        match self {
            HardwareConfigurationUIState::Choosing(s) => HardwareConfigurationUIStateView::Choosing(
                *s,
            ),
            HardwareConfigurationUIState::InMenu(d) => HardwareConfigurationUIStateView::InMenu {
                config: d.config@,
                selected: d.selected,
            },
        }
    }
}

impl HardwareConfigurationUIState {
    /// The list of configurations with its first entry selected.
    pub fn new_choosing() -> (s: HardwareConfigurationUIState)
        ensures
            s@ == HardwareConfigurationUIStateView::Choosing(Some(0)),
    {
        HardwareConfigurationUIState::Choosing(Some(0))
    }

    /// The menu of the named configuration with its first entry selected.
    pub fn new_in_menu(config: String) -> (s: HardwareConfigurationUIState)
        ensures
            s@ == (HardwareConfigurationUIStateView::InMenu { config: config@, selected: Some(0) }),
    {
        HardwareConfigurationUIState::InMenu(InMenuData { config, selected: Some(0) })
    }
}

/// The hardware configuration screen
#[derive(Clone, PartialEq, Eq, Debug)]
pub struct HardwareConfigurationUI {
    pub state: HardwareConfigurationUIState,
}

impl Default for HardwareConfigurationUI {
    /// The screen opens on the list of configurations with its first entry selected.
    fn default() -> (u: HardwareConfigurationUI)
        ensures
            u.state@ == HardwareConfigurationUIStateView::Choosing(Some(0)),
    {
        HardwareConfigurationUI { state: HardwareConfigurationUIState::new_choosing() }
    }
}

/// The names of a list of configurations.
pub open spec fn names_of(v: Seq<String>) -> Seq<Seq<char>> {
    v.map_values(|s: String| s@)
}

/// The names of the configurations, if the robot sent them.
pub open spec fn opt_names(c: Option<Vec<String>>) -> Option<Seq<Seq<char>>> {
    match c {
        Some(v) => Some(names_of(v@)),
        None => None,
    }
}

/// A key that Enter on the list of configurations can act on without failing: an entry
/// past the fixed ones must name one of the configurations the robot sent.
pub open spec fn hardware_key_defined(
    s: HardwareConfigurationUIStateView,
    key: KeyInput,
    configurations: Option<Seq<Seq<char>>>,
) -> bool {
    match s {
        HardwareConfigurationUIStateView::Choosing(sel) => (!is_quit_key(key) && key.code
            == KeyCode::Enter && configurations is Some && sel.unwrap_or(0)
            >= CHOOSING_FIXED_ENTRIES) ==> sel.unwrap_or(0) - CHOOSING_FIXED_ENTRIES
            < configurations->0.len(),
        _ => true,
    }
}

/// What a key does on the hardware configuration screen, to the screen and to the rest of
/// the interface, and which configuration it asks the robot for. Ctrl + c quits and Escape
/// leaves the screen. On the list of configurations, Shift + Tab, Up and `k` select the
/// previous entry and Tab, Down and `j` the next one; Enter (on the first entry when none
/// is selected) leaves the screen on "Back", does nothing on "Import from file" and "New",
/// and on a configuration opens its menu with the first entry selected and asks the robot
/// for it (nothing when the robot sent no configurations). In the menu of a configuration
/// the same keys move the selection and Enter on "Back" returns to the list with its first
/// entry selected.
pub open spec fn spec_hardware_key(
    s: HardwareConfigurationUIStateView,
    ui: UiStateView,
    key: KeyInput,
    configurations: Option<Seq<Seq<char>>>,
) -> (HardwareConfigurationUIStateView, UiStateView, Option<Seq<char>>) {
    if is_quit_key(key) {
        (s, UiStateView { running: false, ..ui }, None)
    } else if key.code == KeyCode::Esc {
        (s, UiStateView { mode: AppMode::Normal, ..ui }, None)
    } else {
        match s {
            HardwareConfigurationUIStateView::Choosing(sel) => {
                if is_back_key(key.code) {
                    (HardwareConfigurationUIStateView::Choosing(select_previous(sel)), ui, None)
                } else if is_forward_key(key.code) {
                    (HardwareConfigurationUIStateView::Choosing(select_next(sel)), ui, None)
                } else if key.code == KeyCode::Enter {
                    let chosen = sel.unwrap_or(0);
                    if chosen == 0 {
                        (s, UiStateView { mode: AppMode::Normal, ..ui }, None)
                    } else if chosen < CHOOSING_FIXED_ENTRIES {
                        (s, ui, None)
                    } else {
                        match configurations {
                            Some(cs) => {
                                let name = cs[chosen - CHOOSING_FIXED_ENTRIES];
                                (
                                    HardwareConfigurationUIStateView::InMenu {
                                        config: name,
                                        selected: Some(0),
                                    },
                                    ui,
                                    Some(name),
                                )
                            },
                            None => (s, ui, None),
                        }
                    }
                } else {
                    (s, ui, None)
                }
            },
            HardwareConfigurationUIStateView::InMenu { config, selected } => {
                if is_back_key(key.code) {
                    (
                        HardwareConfigurationUIStateView::InMenu {
                            config,
                            selected: select_previous(selected),
                        },
                        ui,
                        None,
                    )
                } else if is_forward_key(key.code) {
                    (
                        HardwareConfigurationUIStateView::InMenu {
                            config,
                            selected: select_next(selected),
                        },
                        ui,
                        None,
                    )
                } else if key.code == KeyCode::Enter && selected.unwrap_or(0) == 1 {
                    (HardwareConfigurationUIStateView::Choosing(Some(0)), ui, None)
                } else {
                    (s, ui, None)
                }
            },
        }
    }
}

/// How an entry of a list on the screen is shown
#[derive(Clone, Copy, PartialEq, Eq, Structural, Debug)]
pub enum EntryStyle {
    /// An action of the screen
    Muted,
    /// A configuration, or the name of the one whose menu is open
    Text,
    /// The robot's active configuration
    Active,
}

/// The entries of the list of configurations: "Back", "Import from file" and "New", then
/// each configuration the robot sent, the active one marked with `>`.
pub open spec fn spec_choosing_entries(
    configurations: Option<Seq<Seq<char>>>,
    active: Option<Seq<char>>,
) -> Seq<(Seq<char>, EntryStyle)> {
    seq![
        ("Back"@, EntryStyle::Muted),
        ("Import from file"@, EntryStyle::Muted),
        ("New"@, EntryStyle::Muted),
    ] + match configurations {
        Some(cs) => cs.map_values(|n: Seq<char>| choosing_entry(active, n)),
        None => Seq::empty(),
    }
}

/// The entry of a configuration in the list: its name, marked with `>` if it is the
/// active one.
pub open spec fn choosing_entry(active: Option<Seq<char>>, n: Seq<char>) -> (Seq<char>, EntryStyle) {
    if active == Some(n) {
        (">"@ + n, EntryStyle::Active)
    } else {
        (n, EntryStyle::Text)
    }
}

/// The entries of the menu of a configuration: its name, then "Back", "Save", "Edit" and
/// "Export to file".
pub open spec fn spec_in_menu_entries(config: Seq<char>) -> Seq<(Seq<char>, EntryStyle)> {
    seq![
        (config, EntryStyle::Text),
        ("Back"@, EntryStyle::Muted),
        ("Save"@, EntryStyle::Muted),
        ("Edit"@, EntryStyle::Muted),
        ("Export to file"@, EntryStyle::Muted),
    ]
}

/// The texts and styles of a list of entries.
pub open spec fn entries_view(v: Seq<(String, EntryStyle)>) -> Seq<(Seq<char>, EntryStyle)> {
    v.map_values(|e: (String, EntryStyle)| (e.0@, e.1))
}

fn push_entry(entries: &mut Vec<(String, EntryStyle)>, text: String, style: EntryStyle)
    ensures
        entries_view(final(entries)@) == entries_view(old(entries)@).push((text@, style)),
{
    let ghost start = entries@;
    entries.push((text, style));
    assert(entries_view(entries@) =~= entries_view(start).push((text@, style)));
}

impl HardwareConfigurationUI {
    /// Handles a key on the screen. Returns the name of the configuration to ask the robot
    /// for, if the key opens the menu of one.
    pub fn on_key_event(
        &mut self,
        ui: &mut UiState,
        key: KeyInput,
        configurations: &Option<Vec<String>>,
    ) -> (requested: Option<String>)
        requires
            hardware_key_defined(old(self).state@, key, opt_names(*configurations)),
        ensures
            (final(self).state@, final(ui)@, match requested {
                Some(n) => Some(n@),
                None => None,
            }) == spec_hardware_key(old(self).state@, old(ui)@, key, opt_names(*configurations)),
    {
        if key.modifiers == crate::input::MODIFIER_CONTROL && (key.code == KeyCode::Char('c')
            || key.code == KeyCode::Char('C')) {
            ui.quit();
            return None;
        }
        if key.code == KeyCode::Esc {
            ui.mode = AppMode::Normal;
            return None;
        }
        let back = key.code == KeyCode::BackTab || key.code == KeyCode::Up || key.code
            == KeyCode::Char('k');
        let forward = key.code == KeyCode::Tab || key.code == KeyCode::Down || key.code
            == KeyCode::Char('j');
        match &self.state {
            HardwareConfigurationUIState::Choosing(sel) => {
                let sel = *sel;
                if back {
                    self.state = HardwareConfigurationUIState::Choosing(list_select_previous(sel));
                    None
                } else if forward {
                    self.state = HardwareConfigurationUIState::Choosing(list_select_next(sel));
                    None
                } else if key.code == KeyCode::Enter {
                    let chosen = match sel {
                        Some(i) => i,
                        None => 0,
                    };
                    if chosen == 0 {
                        ui.mode = AppMode::Normal;
                        None
                    } else if chosen < CHOOSING_FIXED_ENTRIES {
                        None
                    } else {
                        match configurations {
                            Some(cs) => {
                                let name = cs[chosen - CHOOSING_FIXED_ENTRIES].clone();
                                assert(name@ == names_of(cs@)[chosen - CHOOSING_FIXED_ENTRIES]);
                                self.state = HardwareConfigurationUIState::new_in_menu(name.clone());
                                Some(name)
                            },
                            None => None,
                        }
                    }
                } else {
                    None
                }
            },
            HardwareConfigurationUIState::InMenu(data) => {
                let selected = data.selected;
                if back {
                    self.state = HardwareConfigurationUIState::InMenu(
                        InMenuData {
                            config: data.config.clone(),
                            selected: list_select_previous(selected),
                        },
                    );
                    None
                } else if forward {
                    self.state = HardwareConfigurationUIState::InMenu(
                        InMenuData {
                            config: data.config.clone(),
                            selected: list_select_next(selected),
                        },
                    );
                    None
                } else if key.code == KeyCode::Enter && (match selected {
                    Some(i) => i,
                    None => 0,
                }) == 1 {
                    self.state = HardwareConfigurationUIState::new_choosing();
                    None
                } else {
                    None
                }
            },
        }
    }

    /// Brings the selection within the list shown, as drawing it does: the fixed entries
    /// and `configuration_count` configurations, or the entries of the menu.
    pub fn clamp_selection(&mut self, configuration_count: usize)
        requires
            configuration_count <= usize::MAX - CHOOSING_FIXED_ENTRIES,
        ensures
            final(self).state@ == match old(self).state@ {
                HardwareConfigurationUIStateView::Choosing(sel) => HardwareConfigurationUIStateView::Choosing(
                    spec_clamp_selection(sel, (CHOOSING_FIXED_ENTRIES + configuration_count) as usize),
                ),
                HardwareConfigurationUIStateView::InMenu { config, selected } => HardwareConfigurationUIStateView::InMenu {
                    config,
                    selected: spec_clamp_selection(selected, IN_MENU_ENTRIES),
                },
            },
    {
        match &self.state {
            HardwareConfigurationUIState::Choosing(sel) => {
                let s = clamp_selection(*sel, CHOOSING_FIXED_ENTRIES + configuration_count);
                self.state = HardwareConfigurationUIState::Choosing(s);
            },
            HardwareConfigurationUIState::InMenu(data) => {
                let s = clamp_selection(data.selected, IN_MENU_ENTRIES);
                self.state = HardwareConfigurationUIState::InMenu(
                    InMenuData { config: data.config.clone(), selected: s },
                );
            },
        }
    }

    /// The entries of the list shown: the configurations to choose from (`active` being
    /// the name of the robot's active configuration) or the menu of one.
    pub fn entries(&self, configurations: &Option<Vec<String>>, active: &Option<String>) -> (e: Vec<
        (String, EntryStyle),
    >)
        ensures
            entries_view(e@) == match self.state@ {
                HardwareConfigurationUIStateView::Choosing(_) => spec_choosing_entries(
                    opt_names(*configurations),
                    match active {
                        Some(a) => Some(a@),
                        None => None,
                    },
                ),
                HardwareConfigurationUIStateView::InMenu { config, .. } => spec_in_menu_entries(
                    config,
                ),
            },
    {
        let mut e: Vec<(String, EntryStyle)> = Vec::new();
        assert(entries_view(e@) =~= Seq::<(Seq<char>, EntryStyle)>::empty());
        match &self.state {
            HardwareConfigurationUIState::Choosing(_) => {
                push_entry(&mut e, String::from_str("Back"), EntryStyle::Muted);
                push_entry(&mut e, String::from_str("Import from file"), EntryStyle::Muted);
                push_entry(&mut e, String::from_str("New"), EntryStyle::Muted);
                let ghost fixed = entries_view(e@);
                let ghost act = match active {
                    Some(a) => Some(a@),
                    None => None,
                };
                if let Some(cs) = configurations {
                    let ghost names = names_of(cs@);
                    let mut i: usize = 0;
                    while i < cs.len()
                        invariant
                            i <= cs@.len(),
                            names == names_of(cs@),
                            act == match active {
                                Some(a) => Some(a@),
                                None => None,
                            },
                            entries_view(e@) == fixed + names.take(i as int).map_values(
                                |n: Seq<char>| choosing_entry(act, n),
                            ),
                        decreases cs@.len() - i,
                    {
                        let name = &cs[i];
                        let ghost before = entries_view(e@);
                        assert(names[i as int] == name@);
                        let is_active = match active {
                            Some(a) => crate::text::str_eq(a.as_str(), name.as_str()),
                            None => false,
                        };
                        if is_active {
                            let mut marked = String::from_str(">");
                            marked.append(name.as_str());
                            push_entry(&mut e, marked, EntryStyle::Active);
                        } else {
                            push_entry(&mut e, name.clone(), EntryStyle::Text);
                        }
                        assert(entries_view(e@) == before.push(choosing_entry(act, name@)));
                        i += 1;
                        assert(names.take(i as int) =~= names.take((i - 1) as int).push(names[i - 1]));
                        assert(names.take(i as int).map_values(|n: Seq<char>| choosing_entry(act, n))
                            =~= names.take((i - 1) as int).map_values(
                            |n: Seq<char>| choosing_entry(act, n),
                        ).push(choosing_entry(act, names[i - 1])));
                    }
                    assert(names.take(i as int) =~= names);
                }
            },
            HardwareConfigurationUIState::InMenu(data) => {
                push_entry(&mut e, data.config.clone(), EntryStyle::Text);
                push_entry(&mut e, String::from_str("Back"), EntryStyle::Muted);
                push_entry(&mut e, String::from_str("Save"), EntryStyle::Muted);
                push_entry(&mut e, String::from_str("Edit"), EntryStyle::Muted);
                push_entry(&mut e, String::from_str("Export to file"), EntryStyle::Muted);
            },
        }
        e
    }
}

} // verus!
