//! The theme picker: choose a theme family, then one of its flavors.
use vstd::prelude::*;
use crate::common::{Msg, ThemeActivityMsg};
use crate::input::{KeyCode, KeyInput};
use crate::keys::KeyBindingsConfig;
use crate::text::{concat2, contains, owned, str_contains, string_push};

verus! {

/// A flavor: its name, the icon of its theme, and its own icon.
pub type FlavorEntry = (String, String, String);

/// A theme family with its flavors.
pub type ThemeEntry = (String, Vec<FlavorEntry>);

/// Which list the picker shows.
#[derive(Debug, Clone, Copy, PartialEq, Eq, Structural)]
pub enum PickerMode {
    SelectingTheme,
    SelectingFlavor,
}

/// Two-level theme selection.
pub struct ThemePicker {
    pub themes: Vec<ThemeEntry>,
    pub theme_selected: usize,
    pub flavor_selected: usize,
    pub mode: PickerMode,
}

/// The theme offered when discovery fails.
pub open spec fn fallback_themes_view(themes: Seq<ThemeEntry>) -> bool {
    &&& themes.len() == 1
    &&& themes[0].0@ == "quetty"@
    &&& themes[0].1@.len() == 2
    &&& themes[0].1@[0].0@ == "dark"@
    &&& themes[0].1@[1].0@ == "light"@
    &&& forall|j: int|
        0 <= j < 2 ==> (#[trigger] themes[0].1@[j]).1@ == "🎨"@ && themes[0].1@[j].2@ == "🎭"@
}

impl ThemePicker {
    /// The theme currently highlighted, if any.
    pub open spec fn current_theme(&self) -> Option<Seq<char>> {
        if self.theme_selected < self.themes@.len() {
            Some(self.themes@[self.theme_selected as int].0@)
        } else {
            None
        }
    }

    /// The flavor currently highlighted, if any.
    pub open spec fn current_flavor(&self) -> Option<Seq<char>> {
        if self.theme_selected < self.themes@.len() && self.flavor_selected
            < self.themes@[self.theme_selected as int].1@.len() {
            Some(self.themes@[self.theme_selected as int].1@[self.flavor_selected as int].0@)
        } else {
            None
        }
    }

    /// The picker after moving the highlight down one entry.
    pub open spec fn after_down(self) -> Self {
        match self.mode {
            PickerMode::SelectingTheme => if self.theme_selected + 1 < self.themes@.len() {
                ThemePicker { theme_selected: (self.theme_selected + 1) as usize, flavor_selected: 0, ..self }
            } else {
                self
            },
            PickerMode::SelectingFlavor => if self.theme_selected < self.themes@.len()
                && self.flavor_selected + 1 < self.themes@[self.theme_selected as int].1@.len() {
                ThemePicker { flavor_selected: (self.flavor_selected + 1) as usize, ..self }
            } else {
                self
            },
        }
    }

    /// The picker after moving the highlight up one entry.
    pub open spec fn after_up(self) -> Self {
        match self.mode {
            PickerMode::SelectingTheme => if self.theme_selected > 0 {
                ThemePicker { theme_selected: (self.theme_selected - 1) as usize, flavor_selected: 0, ..self }
            } else {
                self
            },
            PickerMode::SelectingFlavor => if self.flavor_selected > 0 {
                ThemePicker { flavor_selected: (self.flavor_selected - 1) as usize, ..self }
            } else {
                self
            },
        }
    }

    /// A picker with nothing loaded yet.
    pub fn new() -> (r: Self)
        ensures
            r.themes@.len() == 0,
            r.theme_selected == 0,
            r.flavor_selected == 0,
            r.mode == PickerMode::SelectingTheme,
    {
        ThemePicker {
            themes: Vec::new(),
            theme_selected: 0,
            flavor_selected: 0,
            mode: PickerMode::SelectingTheme,
        }
    }

    /// Installs the discovered themes, or the built-in fallback when
    /// discovery failed. The highlight returns to the first entry when themes
    /// were found.
    pub fn load_themes(&mut self, discovered: Result<Vec<ThemeEntry>, String>)
        ensures
            final(self).mode == old(self).mode,
            discovered matches Ok(t) ==> final(self).themes == t,
            discovered matches Ok(t) && t@.len() > 0 ==> final(self).theme_selected == 0
                && final(self).flavor_selected == 0,
            discovered matches Ok(t) && t@.len() == 0 ==> final(self).theme_selected == old(self).theme_selected && final(self).flavor_selected == old(self).flavor_selected,
            discovered is Err ==> fallback_themes_view(final(self).themes@) && final(self).theme_selected == old(self).theme_selected && final(self).flavor_selected == old(self).flavor_selected,
    {
        match discovered {
            Ok(themes) => {
                self.themes = themes;
                if self.themes.len() > 0 {
                    self.theme_selected = 0;
                    self.flavor_selected = 0;
                }
            },
            Err(_) => {
                let mut flavors: Vec<FlavorEntry> = Vec::new();
                flavors.push((owned("dark"), owned("🎨"), owned("🎭")));
                flavors.push((owned("light"), owned("🎨"), owned("🎭")));
                let mut themes: Vec<ThemeEntry> = Vec::new();
                themes.push((owned("quetty"), flavors));
                self.themes = themes;
            },
        }
    }

    /// The highlighted theme's name.
    pub fn get_current_theme(&self) -> (r: Option<&String>)
        ensures
            match r {
                Some(t) => self.current_theme() == Some(t@),
                None => self.current_theme() is None,
            },
    {
        if self.theme_selected < self.themes.len() {
            Some(&self.themes[self.theme_selected].0)
        } else {
            None
        }
    }

    /// The highlighted flavor's name.
    pub fn get_current_flavor(&self) -> (r: Option<&String>)
        ensures
            match r {
                Some(f) => self.current_flavor() == Some(f@),
                None => self.current_flavor() is None,
            },
    {
        if self.theme_selected < self.themes.len() {
            let flavors = &self.themes[self.theme_selected].1;
            if self.flavor_selected < flavors.len() {
                return Some(&flavors[self.flavor_selected].0);
            }
        }
        None
    }

    /// The entries of the list shown: `"{icon} {theme}"` for each theme (the
    /// icon of its first flavor, `🎨` without flavors), or
    /// `"{flavor icon} {flavor} ({theme})"` for each flavor of the highlighted
    /// theme.
    pub fn get_display_items(&self) -> (r: Vec<String>)
        ensures
            self.mode == PickerMode::SelectingTheme ==> r@.len() == self.themes@.len() && forall|
                i: int,
            |
                0 <= i < r@.len() ==> (#[trigger] r@[i])@ == theme_item_text(self.themes@[i]),
            self.mode == PickerMode::SelectingFlavor && self.theme_selected < self.themes@.len()
                ==> r@.len() == self.themes@[self.theme_selected as int].1@.len() && forall|i: int|
                0 <= i < r@.len() ==> (#[trigger] r@[i])@ == flavor_item_text(
                    self.themes@[self.theme_selected as int].0@,
                    self.themes@[self.theme_selected as int].1@[i],
                ),
            self.mode == PickerMode::SelectingFlavor && self.theme_selected >= self.themes@.len()
                ==> r@.len() == 0,
    {
        let mut items: Vec<String> = Vec::new();
        match self.mode {
            PickerMode::SelectingTheme => {
                let mut i: usize = 0;
                while i < self.themes.len()
                    invariant
                        i <= self.themes@.len(),
                        items@.len() == i,
                        forall|k: int|
                            0 <= k < i ==> (#[trigger] items@[k])@ == theme_item_text(
                                self.themes@[k],
                            ),
                    decreases self.themes@.len() - i,
                {
                    let (name, flavors) = &self.themes[i];
                    let icon: &str = if flavors.len() > 0 {
                        flavors[0].1.as_str()
                    } else {
                        "🎨"
                    };
                    let mut text = owned(icon);
                    string_push(&mut text, ' ');
                    text.append(name.as_str());
                    items.push(text);
                    i = i + 1;
                }
            },
            PickerMode::SelectingFlavor => {
                if self.theme_selected < self.themes.len() {
                    let (theme_name, flavors) = &self.themes[self.theme_selected];
                    let mut i: usize = 0;
                    while i < flavors.len()
                        invariant
                            i <= flavors@.len(),
                            items@.len() == i,
                            forall|k: int|
                                0 <= k < i ==> (#[trigger] items@[k])@ == flavor_item_text(
                                    theme_name@,
                                    flavors@[k],
                                ),
                        decreases flavors@.len() - i,
                    {
                        let (flavor_name, _theme_icon, flavor_icon) = &flavors[i];
                        let mut text = owned(flavor_icon.as_str());
                        string_push(&mut text, ' ');
                        text.append(flavor_name.as_str());
                        text.append(" (");
                        text.append(theme_name.as_str());
                        string_push(&mut text, ')');
                        items.push(text);
                        i = i + 1;
                    }
                }
            },
        }
        items
    }

    fn move_down(&mut self)
        ensures
            *final(self) == old(self).after_down(),
    {
        match self.mode {
            PickerMode::SelectingTheme => {
                if self.themes.len() > 0 && self.theme_selected < self.themes.len() - 1 {
                    self.theme_selected = self.theme_selected + 1;
                    self.flavor_selected = 0;
                }
            },
            PickerMode::SelectingFlavor => {
                if self.theme_selected < self.themes.len() {
                    let count = self.themes[self.theme_selected].1.len();
                    if count > 0 && self.flavor_selected < count - 1 {
                        self.flavor_selected = self.flavor_selected + 1;
                    }
                }
            },
        }
    }

    fn move_up(&mut self)
        ensures
            *final(self) == old(self).after_up(),
    {
        match self.mode {
            PickerMode::SelectingTheme => {
                if self.theme_selected > 0 {
                    self.theme_selected = self.theme_selected - 1;
                    self.flavor_selected = 0;
                }
            },
            PickerMode::SelectingFlavor => {
                if self.flavor_selected > 0 {
                    self.flavor_selected = self.flavor_selected - 1;
                }
            },
        }
    }

    /// Reacts to a key. Up and down (or the configured up and down keys) move
    /// the highlight; Enter opens the flavors of the highlighted theme, then
    /// applies the highlighted flavor; Backspace and Esc go back from the
    /// flavors, and Esc closes the picker from the themes. Tab switches
    /// between theme and flavor selection: into the flavors of the highlighted
    /// theme from its first flavor, and back to the themes keeping the
    /// highlight.
    pub fn on(&mut self, key: KeyInput, keys: &KeyBindingsConfig) -> (r: Option<Msg>)
        ensures
            final(self).themes == old(self).themes,
            key.code == KeyCode::Down ==> *final(self) == old(self).after_down() && r == Some(
                Msg::ForceRedraw,
            ),
            key.code == KeyCode::Up ==> *final(self) == old(self).after_up() && r == Some(
                Msg::ForceRedraw,
            ),
            key.code == KeyCode::Char(keys.up()) ==> *final(self) == old(self).after_up() && r
                == Some(Msg::ForceRedraw),
            (key.code matches KeyCode::Char(c) && c != keys.up() && c == keys.down()) ==> *final(self) == old(self).after_down() && r == Some(Msg::ForceRedraw),
            (key.code matches KeyCode::Char(c) && c != keys.up() && c != keys.down()) ==> *final(self) == *old(self) && r == Some(Msg::ForceRedraw),
            key.code == KeyCode::Enter && old(self).mode == PickerMode::SelectingTheme ==> final(self).mode == PickerMode::SelectingFlavor && final(self).flavor_selected == 0 && final(self).theme_selected == old(self).theme_selected && r == Some(Msg::ForceRedraw),
            key.code == KeyCode::Enter && old(self).mode == PickerMode::SelectingFlavor ==> *final(self) == *old(self) && match (old(self).current_theme(), old(self).current_flavor()) {
                (Some(t), Some(f)) => if !contains(t, ":"@) && !contains(f, ":"@) {
                    r matches Some(Msg::ThemeActivity(ThemeActivityMsg::ThemeSelected(a, b))) && a@
                        == t && b@ == f
                } else {
                    r is None
                },
                _ => r == Some(Msg::ForceRedraw),
            },
            (key.code == KeyCode::Backspace || key.code == KeyCode::Esc) && old(self).mode
                == PickerMode::SelectingFlavor ==> final(self).mode == PickerMode::SelectingTheme
                && final(self).theme_selected == old(self).theme_selected && final(self).flavor_selected == old(self).flavor_selected && r == Some(Msg::ForceRedraw),
            key.code == KeyCode::Backspace && old(self).mode == PickerMode::SelectingTheme
                ==> *final(self) == *old(self) && r == Some(Msg::ForceRedraw),
            key.code == KeyCode::Esc && old(self).mode == PickerMode::SelectingTheme ==> *final(self) == *old(self) && r == Some(Msg::ThemeActivity(ThemeActivityMsg::ThemePickerClosed)),
            key.code == KeyCode::Tab && old(self).mode == PickerMode::SelectingTheme ==> *final(self) == (ThemePicker { mode: PickerMode::SelectingFlavor, flavor_selected: 0, ..*old(self) }) && r == Some(Msg::ForceRedraw),
            key.code == KeyCode::Tab && old(self).mode == PickerMode::SelectingFlavor ==> *final(self) == (ThemePicker { mode: PickerMode::SelectingTheme, ..*old(self) }) && r == Some(Msg::ForceRedraw),
            !(key.code is Down || key.code is Up || key.code is Char || key.code is Enter
                || key.code is Backspace || key.code is Esc || key.code is Tab) ==> *final(self) == *old(self) && r
                == Some(Msg::ForceRedraw),
    {
        match key.code {
            KeyCode::Down => {
                self.move_down();
                Some(Msg::ForceRedraw)
            },
            KeyCode::Up => {
                self.move_up();
                Some(Msg::ForceRedraw)
            },
            KeyCode::Enter => match self.mode {
                PickerMode::SelectingTheme => {
                    self.mode = PickerMode::SelectingFlavor;
                    self.flavor_selected = 0;
                    Some(Msg::ForceRedraw)
                },
                PickerMode::SelectingFlavor => {
                    let theme = self.get_current_theme();
                    let flavor = self.get_current_flavor();
                    match (theme, flavor) {
                        (Some(t), Some(f)) => {
                            if str_contains(t.as_str(), ":") || str_contains(f.as_str(), ":") {
                                None
                            } else {
                                Some(
                                    Msg::ThemeActivity(
                                        ThemeActivityMsg::ThemeSelected(
                                            owned(t.as_str()),
                                            owned(f.as_str()),
                                        ),
                                    ),
                                )
                            }
                        },
                        _ => Some(Msg::ForceRedraw),
                    }
                },
            },
            KeyCode::Backspace => {
                if self.mode == PickerMode::SelectingFlavor {
                    self.mode = PickerMode::SelectingTheme;
                }
                Some(Msg::ForceRedraw)
            },
            KeyCode::Esc => match self.mode {
                PickerMode::SelectingFlavor => {
                    self.mode = PickerMode::SelectingTheme;
                    Some(Msg::ForceRedraw)
                },
                PickerMode::SelectingTheme => Some(
                    Msg::ThemeActivity(ThemeActivityMsg::ThemePickerClosed),
                ),
            },
            KeyCode::Tab => {
                match self.mode {
                    PickerMode::SelectingTheme => {
                        self.mode = PickerMode::SelectingFlavor;
                        self.flavor_selected = 0;
                    },
                    PickerMode::SelectingFlavor => {
                        self.mode = PickerMode::SelectingTheme;
                    },
                }
                Some(Msg::ForceRedraw)
            },
            KeyCode::Char(c) => {
                if c == keys.up() {
                    self.move_up();
                } else if c == keys.down() {
                    self.move_down();
                }
                Some(Msg::ForceRedraw)
            },
            _ => Some(Msg::ForceRedraw),
        }
    }
}

impl ThemePicker {
    /// The title of the picker: the theme selection, or the flavors of the
    /// highlighted theme.
    pub fn title(&self) -> (r: String)
        ensures
            r@ == match self.mode {
                PickerMode::SelectingTheme => "  🎨 Select Theme  "@,
                PickerMode::SelectingFlavor => match self.current_theme() {
                    Some(t) => "  🎭 Select "@ + t + " Flavor  "@,
                    None => "  🎭 Select Flavor  "@,
                },
            },
    {
        match self.mode {
            PickerMode::SelectingTheme => owned("  🎨 Select Theme  "),
            PickerMode::SelectingFlavor => match self.get_current_theme() {
                Some(theme_name) => {
                    let mut t = owned("  🎭 Select ");
                    t.append(theme_name.as_str());
                    t.append(" Flavor  ");
                    t
                },
                None => owned("  🎭 Select Flavor  "),
            },
        }
    }

    /// The instructions shown under the list for the current mode.
    pub fn instructions(&self) -> (r: &'static str)
        ensures
            r@ == match self.mode {
                PickerMode::SelectingTheme => "↑/↓/j/k: Navigate, Enter: Select Theme, Esc: Close"@,
                PickerMode::SelectingFlavor => "↑/↓/j/k: Navigate, Enter: Apply, Backspace/Esc: Back"@,
            },
    {
        match self.mode {
            PickerMode::SelectingTheme => "↑/↓/j/k: Navigate, Enter: Select Theme, Esc: Close",
            PickerMode::SelectingFlavor => "↑/↓/j/k: Navigate, Enter: Apply, Backspace/Esc: Back",
        }
    }

    /// The position highlighted in the list shown.
    pub fn highlighted_index(&self) -> (r: usize)
        ensures
            r == match self.mode {
                PickerMode::SelectingTheme => self.theme_selected,
                PickerMode::SelectingFlavor => self.flavor_selected,
            },
    {
        match self.mode {
            PickerMode::SelectingTheme => self.theme_selected,
            PickerMode::SelectingFlavor => self.flavor_selected,
        }
    }
}

/// The list entry of a theme.
pub open spec fn theme_item_text(theme: ThemeEntry) -> Seq<char> {
    let icon = if theme.1@.len() > 0 {
        theme.1@[0].1@
    } else {
        "🎨"@
    };
    icon + seq![' '] + theme.0@
}

/// The list entry of a flavor of `theme_name`.
pub open spec fn flavor_item_text(theme_name: Seq<char>, flavor: FlavorEntry) -> Seq<char> {
    flavor.2@ + seq![' '] + flavor.0@ + " ("@ + theme_name + seq![')']
}

/// Down and up move the highlight one entry within the list shown, stopping
/// at its ends: among the themes (starting the flavors of a newly highlighted
/// theme from the first), or among the flavors of the highlighted theme. The
/// themes and the mode stay.
pub proof fn lemma_highlight_moves_one_entry(p: ThemePicker)
    ensures
        p.after_down().themes == p.themes && p.after_down().mode == p.mode,
        p.after_up().themes == p.themes && p.after_up().mode == p.mode,
        p.mode == PickerMode::SelectingTheme ==> {
            &&& p.after_down().theme_selected == (if p.theme_selected + 1 < p.themes@.len() {
                p.theme_selected + 1
            } else {
                p.theme_selected as int
            })
            &&& p.after_up().theme_selected == (if p.theme_selected > 0 {
                p.theme_selected - 1
            } else {
                0
            })
            &&& p.theme_selected + 1 < p.themes@.len() ==> p.after_down().flavor_selected == 0
            &&& p.theme_selected > 0 ==> p.after_up().flavor_selected == 0
        },
        p.mode == PickerMode::SelectingFlavor ==> {
            &&& p.after_down().theme_selected == p.theme_selected
            &&& p.after_up().theme_selected == p.theme_selected
            &&& p.after_down().flavor_selected == (if p.theme_selected < p.themes@.len()
                && p.flavor_selected + 1 < p.themes@[p.theme_selected as int].1@.len() {
                p.flavor_selected + 1
            } else {
                p.flavor_selected as int
            })
            &&& p.after_up().flavor_selected == (if p.flavor_selected > 0 {
                p.flavor_selected - 1
            } else {
                0
            })
        },
{
    assert(p.themes@.len() == p.themes.len());
    if p.theme_selected < p.themes@.len() {
        assert(p.themes@[p.theme_selected as int].1@.len() == p.themes@[p.theme_selected as int].1.len());
    }
}

} // verus!
