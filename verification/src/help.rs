//! The help screen's content, laid out in two columns, and the shortcuts of
//! the help bar for the component in focus.
use vstd::prelude::*;
use crate::common::{ComponentId, Msg, QueueType};
use crate::input::{KeyCode, KeyInput};
use crate::keys::KeyBindingsConfig;
use crate::messages::string_views;
use crate::text::{
    bracket_char, bracketed, join_strings, join_with, owned, repeat, repeat_char, spec_uppercase,
    string_push, uppercase_string,
};

verus! {

/// A keyboard shortcut: its keys and what it does.
#[derive(Debug, Clone)]
pub struct Shortcut {
    pub keys: Vec<String>,
    pub description: String,
}

/// The keys and description of a shortcut.
pub type ShortcutView = (Seq<Seq<char>>, Seq<char>);

/// The title, icon and shortcuts of a help section.
pub type SectionView = (Seq<char>, Seq<char>, Seq<ShortcutView>);

impl View for Shortcut {
    type V = ShortcutView;

    open spec fn view(&self) -> ShortcutView {
        (string_views(self.keys@), self.description@)
    }
}

impl Shortcut {
    /// A shortcut with the given keys.
    pub fn new(keys: Vec<String>, description: &str) -> (r: Self)
        ensures
            r.keys == keys,
            r.description@ == description@,
    {
        Shortcut { keys, description: owned(description) }
    }

    /// A shortcut with one key.
    pub fn single(key: String, description: &str) -> (r: Self)
        ensures
            r@ == (seq![key@], description@),
    {
        let r = Self::new(vec![key], description);
        proof {
            assert(string_views(r.keys@) =~= seq![key@]);
        }
        r
    }

    /// A shortcut with alternative keys.
    pub fn multiple(keys: Vec<String>, description: &str) -> (r: Self)
        ensures
            r@ == (string_views(keys@), description@),
    {
        Self::new(keys, description)
    }
}

/// A titled group of shortcuts.
#[derive(Debug, Clone)]
pub struct HelpSection {
    pub title: String,
    pub icon: String,
    pub shortcuts: Vec<Shortcut>,
}

impl View for HelpSection {
    type V = SectionView;

    open spec fn view(&self) -> SectionView {
        (self.title@, self.icon@, self.shortcuts@.map_values(|s: Shortcut| s@))
    }
}

impl HelpSection {
    /// An empty section.
    pub fn new(title: &str, icon: &str) -> (r: Self)
        ensures
            r@ == (title@, icon@, Seq::<ShortcutView>::empty()),
    {
        let r = HelpSection { title: owned(title), icon: owned(icon), shortcuts: Vec::new() };
        proof {
            assert(r.shortcuts@.map_values(|s: Shortcut| s@) =~= Seq::<ShortcutView>::empty());
        }
        r
    }

    /// The section with one more single-key shortcut.
    pub fn add_single_key(self, key: String, description: &str) -> (r: Self)
        ensures
            r@ == (self@.0, self@.1, self@.2.push((seq![key@], description@))),
    {
        let mut s = self;
        let shortcut = Shortcut::single(key, description);
        let ghost before = s.shortcuts@;
        s.shortcuts.push(shortcut);
        proof {
            assert(s.shortcuts@.map_values(|x: Shortcut| x@) =~= before.map_values(
                |x: Shortcut| x@,
            ).push((seq![key@], description@)));
        }
        s
    }

    /// The section with one more shortcut with alternative keys.
    pub fn add_multiple_keys(self, keys: Vec<String>, description: &str) -> (r: Self)
        ensures
            r@ == (self@.0, self@.1, self@.2.push((string_views(keys@), description@))),
    {
        let mut s = self;
        let ghost kv = string_views(keys@);
        let shortcut = Shortcut::multiple(keys, description);
        let ghost before = s.shortcuts@;
        s.shortcuts.push(shortcut);
        proof {
            assert(s.shortcuts@.map_values(|x: Shortcut| x@) =~= before.map_values(
                |x: Shortcut| x@,
            ).push((kv, description@)));
        }
        s
    }
}

/// The help screen's text.
#[derive(Debug, Clone)]
pub struct HelpContent {
    pub header_message: String,
    pub warning_message: String,
    pub sections: Vec<HelpSection>,
}

impl View for HelpContent {
    type V = (Seq<char>, Seq<char>, Seq<SectionView>);

    open spec fn view(&self) -> (Seq<char>, Seq<char>, Seq<SectionView>) {
        (
            self.header_message@,
            self.warning_message@,
            self.sections@.map_values(|s: HelpSection| s@),
        )
    }
}

/// `[c]`.
pub open spec fn key_label(c: char) -> Seq<char> {
    bracketed(seq![c])
}

/// `[Ctrl+c]`.
pub open spec fn ctrl_label(c: char) -> Seq<char> {
    "[Ctrl+"@ + seq![c] + "]"@
}

/// A shortcut with one key.
pub open spec fn one(key: Seq<char>, description: Seq<char>) -> ShortcutView {
    (seq![key], description)
}

/// A shortcut with two alternative keys.
pub open spec fn two(a: Seq<char>, b: Seq<char>, description: Seq<char>) -> ShortcutView {
    (seq![a, b], description)
}

/// The help section titled "GLOBAL ACTIONS".
pub open spec fn global_section(keys: KeyBindingsConfig) -> SectionView {
    (
        "GLOBAL ACTIONS"@,
        "🌐"@,
        seq![
            one(key_label(keys.quit()), "Quit application"@),
            one(key_label(keys.help()), "Toggle this help screen"@),
            one(key_label(keys.theme()), "Open theme picker"@),
            one("[Esc]"@, "Go back / Cancel operation"@),
        ],
    )
}

/// The help section titled "NAVIGATION".
pub open spec fn navigation_section(keys: KeyBindingsConfig) -> SectionView {
    (
        "NAVIGATION"@,
        "🧭"@,
        seq![
            two("[↑]"@, key_label(keys.up()), "Move up"@),
            two("[↓]"@, key_label(keys.down()), "Move down"@),
            two("[Enter]"@, key_label(keys.queue_select()), "Select / Open item"@),
            one("[PgUp] [PgDn]"@, "Scroll page up/down"@),
        ],
    )
}

/// The help section titled "QUEUE & MESSAGE MANAGEMENT".
pub open spec fn management_section(keys: KeyBindingsConfig) -> SectionView {
    (
        "QUEUE & MESSAGE MANAGEMENT"@,
        "📋"@,
        seq![
            two(key_label(keys.next_page()), key_label(keys.alt_next_page()), "Next page"@),
            two(key_label(keys.prev_page()), key_label(keys.alt_prev_page()), "Previous page"@),
            one(key_label(keys.toggle_dlq()), "Toggle Main ↔ Dead Letter Queue"@),
            one("[Enter]"@, "View message details"@),
        ],
    )
}

/// The help section titled "MESSAGE COMPOSITION".
pub open spec fn composition_section(keys: KeyBindingsConfig) -> SectionView {
    (
        "MESSAGE COMPOSITION"@,
        "✍️"@,
        seq![
            one(key_label(keys.compose_multiple()), "Compose multiple messages"@),
            one(ctrl_label(keys.compose_single()), "Compose single message"@),
        ],
    )
}

/// The help section titled "CONFIRMATIONS".
pub open spec fn confirmations_section(keys: KeyBindingsConfig) -> SectionView {
    (
        "CONFIRMATIONS"@,
        "✅"@,
        seq![
            one(key_label(keys.confirm_yes()), "Confirm Yes"@),
            one(key_label(keys.confirm_no()), "Confirm No"@),
        ],
    )
}

/// The help section titled "BULK SELECTION MODE".
pub open spec fn bulk_section(keys: KeyBindingsConfig) -> SectionView {
    (
        "BULK SELECTION MODE"@,
        "📦"@,
        seq![
            one("[ ]"@, "Toggle selection for current message"@),
            one("[Ctrl+a]"@, "Select all messages on current page"@),
            one("[Ctrl+Shift+A]"@, "Select all loaded messages (all pages)"@),
            one("[Esc]"@, "Clear selections / Exit bulk mode"@),
        ],
    )
}

/// The help section titled "MESSAGE OPERATIONS".
pub open spec fn operations_section(keys: KeyBindingsConfig) -> SectionView {
    (
        "MESSAGE OPERATIONS"@,
        "⚡"@,
        seq![
            two("[x]"@, "[Ctrl+x]"@, "Delete message(s) with confirmation"@),
            one("[S]"@, "Send message(s) to DLQ (⚠️ DEV)"@),
            one(key_label(keys.resend_from_dlq()), "Resend from DLQ to main queue (keep in DLQ)"@),
            one(
                key_label(keys.resend_and_delete_from_dlq()),
                "Resend and delete from DLQ (⚠️ DEV)"@,
            ),
        ],
    )
}

/// The help section titled "Note".
pub open spec fn note_section(keys: KeyBindingsConfig) -> SectionView {
    (
        "Note"@,
        "💡"@,
        seq![
            one("Operations work on selected messages in bulk mode,"@, ""@),
            one("or on current message when no selections exist."@, ""@),
        ],
    )
}

/// The help section titled "MESSAGE DETAILS VIEW".
pub open spec fn details_section(keys: KeyBindingsConfig) -> SectionView {
    (
        "MESSAGE DETAILS VIEW"@,
        "🔍"@,
        seq![
            one("[←] [→]"@, "Move cursor left/right"@),
            two(
                "[↑] [↓]"@,
                key_label(keys.up()) + " "@ + key_label(keys.down()),
                "Scroll content up/down"@,
            ),
            one("[PgUp] [PgDn]"@, "Scroll content page up/down"@),
            two(
                key_label(keys.yank_message()),
                ctrl_label(keys.copy_message()),
                "Copy message content to clipboard"@,
            ),
            one("[e] [i]"@, "Enter edit mode to modify message content"@),
            one("[Ctrl+s]"@, "Send edited content as new message (keep original)"@),
            one("[Ctrl+r]"@, "Replace original message with edited content"@),
            one("[Esc]"@, "Return to message list"@),
        ],
    )
}

/// The sections of the help screen for the configured keys.
pub open spec fn help_sections(keys: KeyBindingsConfig) -> Seq<SectionView> {
    seq![
        global_section(keys),
        navigation_section(keys),
        management_section(keys),
        composition_section(keys),
        confirmations_section(keys),
        bulk_section(keys),
        operations_section(keys),
        note_section(keys),
        details_section(keys),
    ]
}

/// `[Ctrl+c]` as a string.
fn ctrl_key(c: char) -> (r: String)
    ensures
        r@ == ctrl_label(c),
{
    let mut r = owned("[Ctrl+");
    string_push(&mut r, c);
    r.append("]");
    r
}

/// Two alternative keys.
fn pair(a: String, b: String) -> (r: Vec<String>)
    ensures
        string_views(r@) == seq![a@, b@],
{
    let r = vec![a, b];
    proof {
        assert(string_views(r@) =~= seq![a@, b@]);
    }
    r
}

/// Builds [`global_section`].
fn build_global_section(keys: &KeyBindingsConfig) -> (r: HelpSection)
    ensures
        r@.0 == global_section(*keys).0,
        r@.1 == global_section(*keys).1,
        r@.2 =~~= global_section(*keys).2,
{
    let r = HelpSection::new("GLOBAL ACTIONS", "🌐").add_single_key(
            bracket_char(keys.quit()),
            "Quit application",
        ).add_single_key(bracket_char(keys.help()), "Toggle this help screen").add_single_key(
            bracket_char(keys.theme()),
            "Open theme picker",
        ).add_single_key(owned("[Esc]"), "Go back / Cancel operation");
    r
}

/// Builds [`navigation_section`].
fn build_navigation_section(keys: &KeyBindingsConfig) -> (r: HelpSection)
    ensures
        r@.0 == navigation_section(*keys).0,
        r@.1 == navigation_section(*keys).1,
        r@.2 =~~= navigation_section(*keys).2,
{
    let r = HelpSection::new("NAVIGATION", "🧭").add_multiple_keys(
            pair(owned("[↑]"), bracket_char(keys.up())),
            "Move up",
        ).add_multiple_keys(pair(owned("[↓]"), bracket_char(keys.down())), "Move down").add_multiple_keys(
            pair(owned("[Enter]"), bracket_char(keys.queue_select())),
            "Select / Open item",
        ).add_single_key(owned("[PgUp] [PgDn]"), "Scroll page up/down");
    r
}

/// Builds [`management_section`].
fn build_management_section(keys: &KeyBindingsConfig) -> (r: HelpSection)
    ensures
        r@.0 == management_section(*keys).0,
        r@.1 == management_section(*keys).1,
        r@.2 =~~= management_section(*keys).2,
{
    let r = HelpSection::new("QUEUE & MESSAGE MANAGEMENT", "📋").add_multiple_keys(
            pair(bracket_char(keys.next_page()), bracket_char(keys.alt_next_page())),
            "Next page",
        ).add_multiple_keys(
            pair(bracket_char(keys.prev_page()), bracket_char(keys.alt_prev_page())),
            "Previous page",
        ).add_single_key(bracket_char(keys.toggle_dlq()), "Toggle Main ↔ Dead Letter Queue").add_single_key(
            owned("[Enter]"),
            "View message details",
        );
    r
}

/// Builds [`composition_section`].
fn build_composition_section(keys: &KeyBindingsConfig) -> (r: HelpSection)
    ensures
        r@.0 == composition_section(*keys).0,
        r@.1 == composition_section(*keys).1,
        r@.2 =~~= composition_section(*keys).2,
{
    let r = HelpSection::new("MESSAGE COMPOSITION", "✍️").add_single_key(
            bracket_char(keys.compose_multiple()),
            "Compose multiple messages",
        ).add_single_key(ctrl_key(keys.compose_single()), "Compose single message");
    r
}

/// Builds [`confirmations_section`].
fn build_confirmations_section(keys: &KeyBindingsConfig) -> (r: HelpSection)
    ensures
        r@.0 == confirmations_section(*keys).0,
        r@.1 == confirmations_section(*keys).1,
        r@.2 =~~= confirmations_section(*keys).2,
{
    let r = HelpSection::new("CONFIRMATIONS", "✅").add_single_key(
            bracket_char(keys.confirm_yes()),
            "Confirm Yes",
        ).add_single_key(bracket_char(keys.confirm_no()), "Confirm No");
    r
}

/// Builds [`bulk_section`].
fn build_bulk_section(keys: &KeyBindingsConfig) -> (r: HelpSection)
    ensures
        r@.0 == bulk_section(*keys).0,
        r@.1 == bulk_section(*keys).1,
        r@.2 =~~= bulk_section(*keys).2,
{
    let r = HelpSection::new("BULK SELECTION MODE", "📦").add_single_key(
            owned("[ ]"),
            "Toggle selection for current message",
        ).add_single_key(owned("[Ctrl+a]"), "Select all messages on current page").add_single_key(
            owned("[Ctrl+Shift+A]"),
            "Select all loaded messages (all pages)",
        ).add_single_key(owned("[Esc]"), "Clear selections / Exit bulk mode");
    r
}

/// Builds [`operations_section`].
fn build_operations_section(keys: &KeyBindingsConfig) -> (r: HelpSection)
    ensures
        r@.0 == operations_section(*keys).0,
        r@.1 == operations_section(*keys).1,
        r@.2 =~~= operations_section(*keys).2,
{
    let r = HelpSection::new("MESSAGE OPERATIONS", "⚡").add_multiple_keys(
            pair(owned("[x]"), owned("[Ctrl+x]")),
            "Delete message(s) with confirmation",
        ).add_single_key(owned("[S]"), "Send message(s) to DLQ (⚠️ DEV)").add_single_key(
            bracket_char(keys.resend_from_dlq()),
            "Resend from DLQ to main queue (keep in DLQ)",
        ).add_single_key(
            bracket_char(keys.resend_and_delete_from_dlq()),
            "Resend and delete from DLQ (⚠️ DEV)",
        );
    r
}

/// Builds [`note_section`].
fn build_note_section(keys: &KeyBindingsConfig) -> (r: HelpSection)
    ensures
        r@.0 == note_section(*keys).0,
        r@.1 == note_section(*keys).1,
        r@.2 =~~= note_section(*keys).2,
{
    let r = HelpSection::new("Note", "💡").add_single_key(
            owned("Operations work on selected messages in bulk mode,"),
            "",
        ).add_single_key(owned("or on current message when no selections exist."), "");
    r
}

/// Builds [`details_section`].
fn build_details_section(keys: &KeyBindingsConfig) -> (r: HelpSection)
    ensures
        r@.0 == details_section(*keys).0,
        r@.1 == details_section(*keys).1,
        r@.2 =~~= details_section(*keys).2,
{
    let mut up_down = bracket_char(keys.up());
    up_down.append(" ");
    let down = bracket_char(keys.down());
    up_down.append(down.as_str());
    let r = HelpSection::new("MESSAGE DETAILS VIEW", "🔍").add_single_key(
            owned("[←] [→]"),
            "Move cursor left/right",
        ).add_multiple_keys(pair(owned("[↑] [↓]"), up_down), "Scroll content up/down").add_single_key(
            owned("[PgUp] [PgDn]"),
            "Scroll content page up/down",
        ).add_multiple_keys(
            pair(bracket_char(keys.yank_message()), ctrl_key(keys.copy_message())),
            "Copy message content to clipboard",
        ).add_single_key(owned("[e] [i]"), "Enter edit mode to modify message content").add_single_key(
            owned("[Ctrl+s]"),
            "Send edited content as new message (keep original)",
        ).add_single_key(owned("[Ctrl+r]"), "Replace original message with edited content").add_single_key(
            owned("[Esc]"),
            "Return to message list",
        );
    r
}

impl HelpContent {
    /// The help screen for the configured keys: a header naming the keys
    /// that close it, a warning about dead letter queue operations, and the
    /// sections of [`help_sections`].
    pub fn from_config(keys: &KeyBindingsConfig) -> (r: Self)
        ensures
            r@.0 == "Press [Esc] or "@ + key_label(keys.help()) + " to close this help screen"@,
            r@.1 == "⚠️  DLQ operations are in development - use with caution"@,
            r@.2 == help_sections(*keys),
    {
        let global = build_global_section(keys);
        let navigation = build_navigation_section(keys);
        let management = build_management_section(keys);
        let composition = build_composition_section(keys);
        let confirmations = build_confirmations_section(keys);
        let bulk = build_bulk_section(keys);
        let operations = build_operations_section(keys);
        let note = build_note_section(keys);
        let details = build_details_section(keys);
        let sections = vec![
            global,
            navigation,
            management,
            composition,
            confirmations,
            bulk,
            operations,
            note,
            details,
        ];
        let mut header_message = owned("Press [Esc] or ");
        let help_key = bracket_char(keys.help());
        header_message.append(help_key.as_str());
        header_message.append(" to close this help screen");
        let r = HelpContent {
            header_message,
            warning_message: owned("⚠️  DLQ operations are in development - use with caution"),
            sections,
        };
        proof {
            assert(r@.2 =~= help_sections(*keys));
        }
        r
    }
}


// ---------------------------------------------------------------------------
// The help bar
// ---------------------------------------------------------------------------

/// A help bar entry: its text and whether it is a key (highlighted) or a
/// description.
pub type BarEntry = (Seq<char>, bool);

/// The texts and highlights of help bar entries.
pub open spec fn bar_views(v: Seq<(String, bool)>) -> Seq<BarEntry> {
    v.map_values(|e: (String, bool)| (e.0@, e.1))
}

/// `[a/b]`.
pub open spec fn slash_label(a: Seq<char>, b: Seq<char>) -> Seq<char> {
    "["@ + a + "/"@ + b + "]"@
}

/// The shortcuts shown whatever has the focus: help and quit.
pub open spec fn global_bar(keys: KeyBindingsConfig) -> Seq<BarEntry> {
    seq![
        (key_label(keys.help()), true),
        (" Help "@, false),
        (key_label(keys.quit()), true),
        (" Quit"@, false),
    ]
}

/// The shortcuts of the component in focus; for the message list they
/// depend on the kind of queue, bulk mode and the number of selected
/// messages.
pub open spec fn context_bar(
    component: ComponentId,
    queue_type: Option<QueueType>,
    bulk_mode: Option<bool>,
    selected_count: Option<usize>,
    keys: KeyBindingsConfig,
) -> Seq<BarEntry> {
    match component {
        ComponentId::Messages => {
            let base = seq![
                ("[↑/↓]"@, true),
                (" Navigate "@, false),
                ("[Enter]"@, true),
                (" View "@, false),
            ];
            let bulk = bulk_mode == Some(true);
            let selected = match selected_count {
                Some(n) => n > 0,
                None => false,
            };
            let mode = if bulk {
                if selected {
                    seq![
                        (key_label(keys.toggle_selection()), true),
                        (" Select "@, false),
                        (key_label(keys.delete_message()), true),
                        (" Delete "@, false),
                        ("[Esc]"@, true),
                        (" Clear "@, false),
                    ]
                } else {
                    seq![
                        (key_label(keys.toggle_selection()), true),
                        (" Select "@, false),
                        (ctrl_label(keys.select_all_page()), true),
                        (" All "@, false),
                        ("[Esc]"@, true),
                        (" Exit "@, false),
                    ]
                }
            } else {
                seq![
                    (key_label(keys.toggle_selection()), true),
                    (" Bulk "@, false),
                    (slash_label(seq![keys.next_page()], seq![keys.prev_page()]), true),
                    (" Page "@, false),
                ]
            };
            let queue = match queue_type {
                Some(QueueType::Main) => seq![("[d]"@, true), (" DLQ"@, false)],
                Some(QueueType::DeadLetter) => seq![("[d]"@, true), (" Main"@, false)],
                None => Seq::<BarEntry>::empty(),
            };
            base + mode + queue
        },
        ComponentId::MessageDetails => seq![
            ("[←/→]"@, true),
            (" Move "@, false),
            ("[↑/↓]"@, true),
            (" Scroll "@, false),
            ("[Esc]"@, true),
            (" Back "@, false),
        ],
        ComponentId::QueuePicker => seq![
            (slash_label(seq![keys.up()], seq![keys.down()]), true),
            (" Navigate "@, false),
            (key_label(keys.queue_select()), true),
            (" Select "@, false),
            ("[Esc]"@, true),
            (" Back "@, false),
        ],
        ComponentId::NamespacePicker => seq![
            (slash_label(seq![keys.up()], seq![keys.down()]), true),
            (" Navigate "@, false),
            (key_label(keys.namespace_select()), true),
            (" Select "@, false),
        ],
        ComponentId::ErrorPopup => seq![("[Enter/Esc]"@, true), (" Close "@, false)],
        ComponentId::ConfirmationPopup => seq![
            ("["@ + spec_uppercase(keys.confirm_yes()) + "]"@, true),
            (" Yes "@, false),
            ("["@ + spec_uppercase(keys.confirm_no()) + "/Esc]"@, true),
            (" No "@, false),
        ],
        _ => Seq::<BarEntry>::empty(),
    }
}

/// Appends an entry.
fn push_entry(v: &mut Vec<(String, bool)>, text: String, highlight: bool)
    ensures
        bar_views(final(v)@) == bar_views(old(v)@).push((text@, highlight)),
{
    let ghost before = v@;
    v.push((text, highlight));
    proof {
        assert(bar_views(v@) =~= bar_views(before).push((text@, highlight)));
    }
}

/// `[a/b]` for two characters.
fn slash_keys(a: char, b: char) -> (r: String)
    ensures
        r@ == slash_label(seq![a], seq![b]),
{
    let mut r = owned("[");
    string_push(&mut r, a);
    r.append("/");
    string_push(&mut r, b);
    r.append("]");
    r
}

/// The help bar at the bottom of the screen.
pub struct HelpBar;

impl HelpBar {
    /// A help bar.
    pub fn new() -> (r: Self) {
        HelpBar
    }

    /// The shortcuts shown whatever has the focus.
    pub fn get_global_shortcuts(&self, keys: &KeyBindingsConfig) -> (r: Vec<(String, bool)>)
        ensures
            bar_views(r@) == global_bar(*keys),
    {
        let mut v: Vec<(String, bool)> = Vec::new();
        push_entry(&mut v, bracket_char(keys.help()), true);
        push_entry(&mut v, owned(" Help "), false);
        push_entry(&mut v, bracket_char(keys.quit()), true);
        push_entry(&mut v, owned(" Quit"), false);
        proof {
            assert(bar_views(v@) =~= global_bar(*keys));
        }
        v
    }

    /// The shortcuts of the component in focus.
    pub fn get_context_shortcuts(
        &self,
        active_component: &ComponentId,
        queue_type: Option<&QueueType>,
        bulk_mode: Option<bool>,
        selected_count: Option<usize>,
        keys: &KeyBindingsConfig,
    ) -> (r: Vec<(String, bool)>)
        ensures
            bar_views(r@) == context_bar(
                *active_component,
                match queue_type {
                    Some(q) => Some(*q),
                    None => None,
                },
                bulk_mode,
                selected_count,
                *keys,
            ),
    {
        let ghost qt = match queue_type {
            Some(q) => Some(*q),
            None => None,
        };
        let mut v: Vec<(String, bool)> = Vec::new();
        match active_component {
            ComponentId::Messages => {
                push_entry(&mut v, owned("[↑/↓]"), true);
                push_entry(&mut v, owned(" Navigate "), false);
                push_entry(&mut v, owned("[Enter]"), true);
                push_entry(&mut v, owned(" View "), false);
                let ghost base = bar_views(v@);
                let bulk = match bulk_mode {
                    Some(b) => b,
                    None => false,
                };
                if bulk {
                    push_entry(&mut v, bracket_char(keys.toggle_selection()), true);
                    push_entry(&mut v, owned(" Select "), false);
                    let selected = match selected_count {
                        Some(n) => n,
                        None => 0,
                    };
                    if selected > 0 {
                        push_entry(&mut v, bracket_char(keys.delete_message()), true);
                        push_entry(&mut v, owned(" Delete "), false);
                        push_entry(&mut v, owned("[Esc]"), true);
                        push_entry(&mut v, owned(" Clear "), false);
                    } else {
                        push_entry(&mut v, ctrl_key(keys.select_all_page()), true);
                        push_entry(&mut v, owned(" All "), false);
                        push_entry(&mut v, owned("[Esc]"), true);
                        push_entry(&mut v, owned(" Exit "), false);
                    }
                } else {
                    push_entry(&mut v, bracket_char(keys.toggle_selection()), true);
                    push_entry(&mut v, owned(" Bulk "), false);
                    push_entry(&mut v, slash_keys(keys.next_page(), keys.prev_page()), true);
                    push_entry(&mut v, owned(" Page "), false);
                }
                let ghost with_mode = bar_views(v@);
                match queue_type {
                    Some(QueueType::Main) => {
                        push_entry(&mut v, owned("[d]"), true);
                        push_entry(&mut v, owned(" DLQ"), false);
                    },
                    Some(QueueType::DeadLetter) => {
                        push_entry(&mut v, owned("[d]"), true);
                        push_entry(&mut v, owned(" Main"), false);
                    },
                    None => {},
                }
                proof {
                    assert(bar_views(v@) =~= context_bar(
                        *active_component,
                        qt,
                        bulk_mode,
                        selected_count,
                        *keys,
                    ));
                }
            },
            ComponentId::MessageDetails => {
                push_entry(&mut v, owned("[←/→]"), true);
                push_entry(&mut v, owned(" Move "), false);
                push_entry(&mut v, owned("[↑/↓]"), true);
                push_entry(&mut v, owned(" Scroll "), false);
                push_entry(&mut v, owned("[Esc]"), true);
                push_entry(&mut v, owned(" Back "), false);
                proof {
                    assert(bar_views(v@) =~= context_bar(*active_component, qt, bulk_mode, selected_count, *keys));
                }
            },
            ComponentId::QueuePicker => {
                push_entry(&mut v, slash_keys(keys.up(), keys.down()), true);
                push_entry(&mut v, owned(" Navigate "), false);
                push_entry(&mut v, bracket_char(keys.queue_select()), true);
                push_entry(&mut v, owned(" Select "), false);
                push_entry(&mut v, owned("[Esc]"), true);
                push_entry(&mut v, owned(" Back "), false);
                proof {
                    assert(bar_views(v@) =~= context_bar(*active_component, qt, bulk_mode, selected_count, *keys));
                }
            },
            ComponentId::NamespacePicker => {
                push_entry(&mut v, slash_keys(keys.up(), keys.down()), true);
                push_entry(&mut v, owned(" Navigate "), false);
                push_entry(&mut v, bracket_char(keys.namespace_select()), true);
                push_entry(&mut v, owned(" Select "), false);
                proof {
                    assert(bar_views(v@) =~= context_bar(*active_component, qt, bulk_mode, selected_count, *keys));
                }
            },
            ComponentId::ErrorPopup => {
                push_entry(&mut v, owned("[Enter/Esc]"), true);
                push_entry(&mut v, owned(" Close "), false);
                proof {
                    assert(bar_views(v@) =~= context_bar(*active_component, qt, bulk_mode, selected_count, *keys));
                }
            },
            ComponentId::ConfirmationPopup => {
                let yes = uppercase_string(keys.confirm_yes());
                let mut yes_key = owned("[");
                yes_key.append(yes.as_str());
                yes_key.append("]");
                push_entry(&mut v, yes_key, true);
                push_entry(&mut v, owned(" Yes "), false);
                let no = uppercase_string(keys.confirm_no());
                let mut no_key = owned("[");
                no_key.append(no.as_str());
                no_key.append("/Esc]");
                push_entry(&mut v, no_key, true);
                push_entry(&mut v, owned(" No "), false);
                proof {
                    assert(bar_views(v@) =~= context_bar(*active_component, qt, bulk_mode, selected_count, *keys));
                }
            },
            _ => {
                proof {
                    assert(bar_views(v@) =~= context_bar(*active_component, qt, bulk_mode, selected_count, *keys));
                }
            },
        }
        v
    }

    /// The shortcuts of the component in focus, then those shown always.
    pub fn get_help_text(
        &self,
        active_component: &ComponentId,
        queue_type: Option<&QueueType>,
        bulk_mode: Option<bool>,
        selected_count: Option<usize>,
        keys: &KeyBindingsConfig,
    ) -> (r: Vec<(String, bool)>)
        ensures
            bar_views(r@) == context_bar(
                *active_component,
                match queue_type {
                    Some(q) => Some(*q),
                    None => None,
                },
                bulk_mode,
                selected_count,
                *keys,
            ) + global_bar(*keys),
    {
        let mut shortcuts = self.get_context_shortcuts(
            active_component,
            queue_type,
            bulk_mode,
            selected_count,
            keys,
        );
        let mut global_shortcuts = self.get_global_shortcuts(keys);
        let ghost a = shortcuts@;
        let ghost b = global_shortcuts@;
        shortcuts.append(&mut global_shortcuts);
        proof {
            assert(bar_views(shortcuts@) =~= bar_views(a) + bar_views(b));
        }
        shortcuts
    }
}


/// What a span of a shortcut bar is.
#[derive(Debug, Clone, Copy, PartialEq, Eq, Structural)]
pub enum BarSpanKind {
    /// The bar between two shortcuts.
    Separator,
    /// A key, highlighted.
    Key,
    /// What the key does.
    Description,
}

/// A shortcut text as a span.
pub open spec fn bar_span(p: BarEntry) -> (Seq<char>, BarSpanKind) {
    (p.0, if p.1 {
        BarSpanKind::Key
    } else {
        BarSpanKind::Description
    })
}

/// The spans of the shortcut texts `pairs`: a separator before each pair
/// of texts after the first (before every text at an even position but the
/// first).
pub open spec fn separated_bar(pairs: Seq<BarEntry>) -> Seq<(Seq<char>, BarSpanKind)>
    decreases pairs.len(),
{
    if pairs.len() == 0 {
        Seq::empty()
    } else {
        let i = pairs.len() - 1;
        let sep = if i > 0 && i % 2 == 0 {
            seq![(" │ "@, BarSpanKind::Separator)]
        } else {
            Seq::empty()
        };
        separated_bar(pairs.drop_last()) + sep + seq![bar_span(pairs.last())]
    }
}

/// The texts and kinds of a list of spans.
pub open spec fn bar_span_views(v: Seq<(String, BarSpanKind)>) -> Seq<(Seq<char>, BarSpanKind)> {
    v.map_values(|p: (String, BarSpanKind)| (p.0@, p.1))
}

/// The spans of a shortcut bar: each text as a key or a description, with a
/// separator between pairs.
pub fn bar_spans(pairs: &Vec<(String, bool)>) -> (r: Vec<(String, BarSpanKind)>)
    ensures
        bar_span_views(r@) == separated_bar(bar_views(pairs@)),
{
    let ghost pv = bar_views(pairs@);
    let mut out: Vec<(String, BarSpanKind)> = Vec::new();
    let mut i: usize = 0;
    while i < pairs.len()
        invariant
            i <= pairs.len(),
            pv == bar_views(pairs@),
            bar_span_views(out@) =~= separated_bar(pv.take(i as int)),
        decreases pairs.len() - i,
    {
        proof {
            assert(pv.take(i + 1).drop_last() =~= pv.take(i as int));
        }
        if i > 0 && i % 2 == 0 {
            out.push((owned(" │ "), BarSpanKind::Separator));
        }
        let kind = if pairs[i].1 {
            BarSpanKind::Key
        } else {
            BarSpanKind::Description
        };
        out.push((pairs[i].0.clone(), kind));
        i = i + 1;
    }
    proof {
        assert(pv.take(pairs.len() as int) =~= pv);
    }
    out
}

impl HelpBar {
    /// The help bar as drawn: the shortcuts of [`HelpBar::get_help_text`] as
    /// spans, separated by bars.
    pub fn bar_line(
        &self,
        active_component: &ComponentId,
        queue_type: Option<&QueueType>,
        bulk_mode: Option<bool>,
        selected_count: Option<usize>,
        keys: &KeyBindingsConfig,
    ) -> (r: Vec<(String, BarSpanKind)>)
        ensures
            bar_span_views(r@) == separated_bar(
                context_bar(
                    *active_component,
                    match queue_type {
                        Some(q) => Some(*q),
                        None => None,
                    },
                    bulk_mode,
                    selected_count,
                    *keys,
                ) + global_bar(*keys),
            ),
    {
        let text = self.get_help_text(active_component, queue_type, bulk_mode, selected_count, keys);
        bar_spans(&text)
    }
}

// ---------------------------------------------------------------------------
// Laying out the help screen
// ---------------------------------------------------------------------------

/// How a piece of help text is styled.
#[derive(Debug, Clone, Copy, PartialEq, Eq, Structural)]
pub enum HelpSpanKind {
    Header,
    Warning,
    Info,
    SectionTitle,
    Key,
    Description,
    Plain,
}

/// A piece of a help line.
#[derive(Debug, Clone)]
pub struct HelpSpan {
    pub text: String,
    pub kind: HelpSpanKind,
}

/// The text and style of a span.
pub type SpanView = (Seq<char>, HelpSpanKind);

/// The spans of a line.
pub open spec fn line_view(line: Seq<HelpSpan>) -> Seq<SpanView> {
    line.map_values(|s: HelpSpan| (s.text@, s.kind))
}

/// The spans of each line.
pub open spec fn lines_view(lines: Seq<Vec<HelpSpan>>) -> Seq<Seq<SpanView>> {
    lines.map_values(|l: Vec<HelpSpan>| line_view(l@))
}

/// The first line of the note section.
pub open spec fn note_first() -> Seq<char> {
    "Note: Operations work on selected messages in bulk mode,"@
}

/// The second line of the note section.
pub open spec fn note_second() -> Seq<char> {
    "      or on current message when no selections exist."@
}

/// An empty line.
pub open spec fn blank_line() -> Seq<SpanView> {
    seq![(Seq::<char>::empty(), HelpSpanKind::Plain)]
}

/// The keys of a shortcut as shown: the single key, or the alternatives
/// separated by spaces.
pub open spec fn shortcut_keys_text(keys: Seq<Seq<char>>) -> Seq<char> {
    if keys.len() == 1 {
        keys[0]
    } else {
        join_with(keys, " "@)
    }
}

/// The line of a shortcut: a note line without a description, otherwise
/// the keys indented by two and padded to `key_width` characters, then the
/// description.
pub open spec fn shortcut_line(s: ShortcutView, key_width: nat) -> Seq<SpanView> {
    let key_text = shortcut_keys_text(s.0);
    if s.1.len() == 0 {
        seq![(key_text, HelpSpanKind::Info)]
    } else {
        let pad = if key_text.len() < key_width {
            (key_width - key_text.len()) as nat
        } else {
            0nat
        };
        seq![
            ("  "@ + key_text + repeat_char(' ', pad), HelpSpanKind::Key),
            (s.1, HelpSpanKind::Description),
        ]
    }
}

/// The lines of a section: the note section as two info lines; any other
/// section as its icon and title, a blank line, its shortcuts and a blank
/// line (without the title and blank lines where the title is empty).
pub open spec fn section_lines(sec: SectionView, key_width: nat) -> Seq<Seq<SpanView>> {
    if sec.0 == "Note"@ {
        seq![
            seq![(note_first(), HelpSpanKind::Info)],
            seq![(note_second(), HelpSpanKind::Info)],
            blank_line(),
        ]
    } else {
        let body = sec.2.map_values(|s: ShortcutView| shortcut_line(s, key_width));
        if sec.0.len() > 0 {
            seq![seq![(sec.1 + " "@ + sec.0, HelpSpanKind::SectionTitle)], blank_line()] + body
                + seq![blank_line()]
        } else {
            body
        }
    }
}

/// The lines of consecutive sections.
pub open spec fn sections_lines(secs: Seq<SectionView>, key_width: nat) -> Seq<Seq<SpanView>>
    decreases secs.len(),
{
    if secs.len() == 0 {
        Seq::empty()
    } else {
        sections_lines(secs.drop_last(), key_width) + section_lines(secs.last(), key_width)
    }
}

/// A span.
fn span(text: String, kind: HelpSpanKind) -> (r: HelpSpan)
    ensures
        r.text@ == text@,
        r.kind == kind,
{
    HelpSpan { text, kind }
}

/// A line of one span.
fn one_span_line(text: String, kind: HelpSpanKind) -> (r: Vec<HelpSpan>)
    ensures
        line_view(r@) == seq![(text@, kind)],
{
    let r = vec![span(text, kind)];
    proof {
        assert(line_view(r@) =~= seq![(text@, kind)]);
    }
    r
}

/// Appends a line.
fn push_line(lines: &mut Vec<Vec<HelpSpan>>, line: Vec<HelpSpan>)
    ensures
        lines_view(final(lines)@) == lines_view(old(lines)@).push(line_view(line@)),
{
    let ghost before = lines@;
    let ghost lv = line_view(line@);
    lines.push(line);
    proof {
        assert(lines_view(lines@) =~= lines_view(before).push(lv));
    }
}

/// Lays out help text with keys in a column of fixed width.
pub struct HelpRenderer {
    pub key_width: usize,
}

impl HelpRenderer {
    /// Keys padded to 20 characters.
    pub fn new() -> (r: Self)
        ensures
            r.key_width == 20,
    {
        HelpRenderer { key_width: 20 }
    }

    /// The header: the closing instructions and the warning.
    pub fn render_header(&self, content: &HelpContent) -> (r: Vec<Vec<HelpSpan>>)
        ensures
            lines_view(r@) == seq![
                seq![(content.header_message@, HelpSpanKind::Header)],
                seq![(content.warning_message@, HelpSpanKind::Warning)],
            ],
    {
        let mut lines: Vec<Vec<HelpSpan>> = Vec::new();
        push_line(&mut lines, one_span_line(content.header_message.clone(), HelpSpanKind::Header));
        push_line(
            &mut lines,
            one_span_line(content.warning_message.clone(), HelpSpanKind::Warning),
        );
        proof {
            assert(lines_view(lines@) =~= seq![
                seq![(content.header_message@, HelpSpanKind::Header)],
                seq![(content.warning_message@, HelpSpanKind::Warning)],
            ]);
        }
        lines
    }

    /// The line of one shortcut.
    pub fn render_shortcut(&self, shortcut: &Shortcut) -> (r: Vec<HelpSpan>)
        ensures
            line_view(r@) == shortcut_line(shortcut@, self.key_width as nat),
    {
        let key_text = if shortcut.keys.len() == 1 {
            shortcut.keys[0].clone()
        } else {
            join_strings(&shortcut.keys, " ")
        };
        if shortcut.description.as_str().is_empty() {
            return one_span_line(key_text, HelpSpanKind::Info);
        }
        let n = key_text.as_str().unicode_len();
        let pad = if n < self.key_width {
            self.key_width - n
        } else {
            0
        };
        let mut key = owned("  ");
        key.append(key_text.as_str());
        let spaces = repeat(' ', pad);
        key.append(spaces.as_str());
        let r = vec![
            span(key, HelpSpanKind::Key),
            span(shortcut.description.clone(), HelpSpanKind::Description),
        ];
        proof {
            assert(line_view(r@) =~= shortcut_line(shortcut@, self.key_width as nat));
        }
        r
    }

    /// The lines of the given sections.
    pub fn render_sections(&self, sections: &[HelpSection]) -> (r: Vec<Vec<HelpSpan>>)
        ensures
            lines_view(r@) == sections_lines(
                sections@.map_values(|s: HelpSection| s@),
                self.key_width as nat,
            ),
    {
        let mut lines: Vec<Vec<HelpSpan>> = Vec::new();
        let mut i: usize = 0;
        while i < sections.len()
            invariant
                i <= sections.len(),
                lines_view(lines@) == sections_lines(
                    sections@.take(i as int).map_values(|s: HelpSection| s@),
                    self.key_width as nat,
                ),
            decreases sections.len() - i,
        {
            let section = &sections[i];
            let ghost before = lines_view(lines@);
            if crate::text::str_eq(section.title.as_str(), "Note") {
                push_line(
                    &mut lines,
                    one_span_line(
                        owned("Note: Operations work on selected messages in bulk mode,"),
                        HelpSpanKind::Info,
                    ),
                );
                push_line(
                    &mut lines,
                    one_span_line(
                        owned("      or on current message when no selections exist."),
                        HelpSpanKind::Info,
                    ),
                );
                push_line(&mut lines, one_span_line(String::new(), HelpSpanKind::Plain));
                proof {
                    assert(lines_view(lines@) =~= before + section_lines(section@, self.key_width as nat));
                }
            } else {
                let titled = !section.title.as_str().is_empty();
                if titled {
                    let mut title = section.icon.clone();
                    title.append(" ");
                    title.append(section.title.as_str());
                    push_line(&mut lines, one_span_line(title, HelpSpanKind::SectionTitle));
                    push_line(&mut lines, one_span_line(String::new(), HelpSpanKind::Plain));
                }
                let ghost head = lines_view(lines@);
                let mut j: usize = 0;
                while j < section.shortcuts.len()
                    invariant
                        j <= section.shortcuts.len(),
                        lines_view(lines@) == head + section.shortcuts@.take(j as int).map_values(
                            |s: Shortcut| shortcut_line(s@, self.key_width as nat),
                        ),
                    decreases section.shortcuts.len() - j,
                {
                    let line = self.render_shortcut(&section.shortcuts[j]);
                    push_line(&mut lines, line);
                    proof {
                        assert(section.shortcuts@.take(j + 1).map_values(
                            |s: Shortcut| shortcut_line(s@, self.key_width as nat),
                        ) =~= section.shortcuts@.take(j as int).map_values(
                            |s: Shortcut| shortcut_line(s@, self.key_width as nat),
                        ).push(shortcut_line(section.shortcuts@[j as int]@, self.key_width as nat)));
                    }
                    j = j + 1;
                }
                if titled {
                    push_line(&mut lines, one_span_line(String::new(), HelpSpanKind::Plain));
                }
                proof {
                    assert(section.shortcuts@.take(section.shortcuts.len() as int) =~= section.shortcuts@);
                    assert(section.shortcuts@.map_values(
                        |s: Shortcut| shortcut_line(s@, self.key_width as nat),
                    ) =~= section@.2.map_values(|s: ShortcutView| shortcut_line(s, self.key_width as nat)));
                    assert(lines_view(lines@) =~= before + section_lines(section@, self.key_width as nat));
                }
            }
            proof {
                let prev = sections@.take(i as int).map_values(|s: HelpSection| s@);
                let next = sections@.take(i + 1).map_values(|s: HelpSection| s@);
                assert(next.drop_last() =~= prev);
                assert(next.last() == section@);
            }
            i = i + 1;
        }
        proof {
            assert(sections@.take(sections.len() as int) =~= sections@);
        }
        lines
    }

    /// The sections in two columns: the first half (rounded up) on the left,
    /// the rest on the right.
    pub fn render_help_content(&self, content: &HelpContent) -> (r: (
        Vec<Vec<HelpSpan>>,
        Vec<Vec<HelpSpan>>,
    ))
        ensures
            ({
                let secs = content@.2;
                let mid = (secs.len() + 1) / 2;
                &&& lines_view(r.0@) == sections_lines(secs.take(mid as int), self.key_width as nat)
                &&& lines_view(r.1@) == sections_lines(secs.skip(mid as int), self.key_width as nat)
            }),
    {
        let sections = &content.sections;
        let len = sections.len();
        let mid_point = len / 2 + len % 2;
        let left = self.render_sections(&sections.as_slice()[0..mid_point]);
        let right = self.render_sections(&sections.as_slice()[mid_point..len]);
        proof {
            let secs = content@.2;
            assert(sections@.subrange(0, mid_point as int).map_values(|s: HelpSection| s@) =~= secs.take(mid_point as int));
            assert(sections@.subrange(mid_point as int, len as int).map_values(|s: HelpSection| s@) =~= secs.skip(mid_point as int));
        }
        (left, right)
    }
}

impl Default for HelpRenderer {
    /// The renderer of [`HelpRenderer::new`].
    fn default() -> (r: Self)
        ensures
            r.key_width == 20,
    {
        Self::new()
    }
}


/// The full-screen help.
pub struct HelpScreen {
    pub renderer: HelpRenderer,
}

impl HelpScreen {
    /// A help screen with keys padded to 20 characters.
    pub fn new() -> (r: Self)
        ensures
            r.renderer.key_width == 20,
    {
        HelpScreen { renderer: HelpRenderer::new() }
    }

    /// Esc, whatever the modifiers, closes the help; other keys are ignored.
    pub fn on(&mut self, key: KeyInput) -> (r: Option<Msg>)
        ensures
            r == if key.code == KeyCode::Esc {
                Some(Msg::ToggleHelpScreen)
            } else {
                None
            },
    {
        match key.code {
            KeyCode::Esc => Some(Msg::ToggleHelpScreen),
            _ => None,
        }
    }
}

impl Default for HelpScreen {
    /// The help screen of [`HelpScreen::new`].
    fn default() -> (r: Self)
        ensures
            r.renderer.key_width == 20,
    {
        Self::new()
    }
}

} // verus!
