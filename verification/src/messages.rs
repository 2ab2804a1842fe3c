//! The message list: its pagination status line, the responsive layout of its
//! table, the cursor over the loaded messages, and its key handling.
use vstd::prelude::*;
use crate::common::{MessageActivityMsg, Msg, QueueActivityMsg, QueueType};
use crate::config::AppConfig;
use crate::input::{KeyCode, KeyInput};
use crate::keys::KeyBindingsConfig;
use crate::text::{
    decimal, lemma_decimal_bytes, owned, repeat, repeat_char, signed_decimal, signed_to_string,
    str_byte_len, str_eq, unsigned_to_string,
};
use tui_realm_stdlib::components::states::TableStates;

verus! {

// ---------------------------------------------------------------------------
// Messages as the list shows them
// ---------------------------------------------------------------------------

/// Where a message stands in its life cycle.
#[derive(Debug, Clone, Copy, PartialEq, Eq, Structural)]
pub enum MessageState {
    Active,
    Deferred,
    Scheduled,
    DeadLettered,
    Completed,
    Abandoned,
}

/// The label of a message state.
pub open spec fn state_label(state: MessageState) -> Seq<char> {
    match state {
        MessageState::Active => "Active"@,
        MessageState::Deferred => "Deferred"@,
        MessageState::Scheduled => "Scheduled"@,
        MessageState::DeadLettered => "Dead-lettered"@,
        MessageState::Completed => "Completed"@,
        MessageState::Abandoned => "Abandoned"@,
    }
}

/// The label shown for a message state.
pub fn get_state_display(state: &MessageState) -> (r: &'static str)
    ensures
        r@ == state_label(*state),
{
    match state {
        MessageState::Active => "Active",
        MessageState::Deferred => "Deferred",
        MessageState::Scheduled => "Scheduled",
        MessageState::DeadLettered => "Dead-lettered",
        MessageState::Completed => "Completed",
        MessageState::Abandoned => "Abandoned",
    }
}

/// The colour group of a message state: ready to be received, deferred, an
/// outcome of processing, or failed.
#[derive(Debug, Clone, Copy, PartialEq, Eq, Structural)]
pub enum StateColor {
    Ready,
    Deferred,
    Outcome,
    Failed,
}

/// The colour group a state is shown in.
pub fn get_state_color(state: &MessageState) -> (r: StateColor)
    ensures
        r == match *state {
            MessageState::Active | MessageState::Scheduled => StateColor::Ready,
            MessageState::Deferred => StateColor::Deferred,
            MessageState::Completed | MessageState::Abandoned => StateColor::Outcome,
            MessageState::DeadLettered => StateColor::Failed,
        },
{
    match state {
        MessageState::Active | MessageState::Scheduled => StateColor::Ready,
        MessageState::Deferred => StateColor::Deferred,
        MessageState::Completed | MessageState::Abandoned => StateColor::Outcome,
        MessageState::DeadLettered => StateColor::Failed,
    }
}

/// The body of a message: a JSON document, pretty-printed, or any other text.
#[derive(Debug, Clone, PartialEq)]
pub enum MessageBody {
    ValidJson(String),
    RawString(String),
}

/// The text of a message body.
pub open spec fn body_text(body: MessageBody) -> Seq<char> {
    match body {
        MessageBody::ValidJson(t) => t@,
        MessageBody::RawString(t) => t@,
    }
}

/// A loaded message, with its identifier and enqueue time as displayed text.
#[derive(Debug, Clone, PartialEq)]
pub struct MessageModel {
    pub sequence: i64,
    pub id: String,
    pub enqueued_at: String,
    pub state: MessageState,
    pub delivery_count: usize,
    pub body: MessageBody,
}

/// Identifies a message for bulk operations: its id and sequence number.
#[derive(Debug, Clone, PartialEq)]
pub struct MessageIdentifier {
    pub id: String,
    pub sequence: i64,
}

impl MessageIdentifier {
    /// The identifier of a loaded message.
    pub fn from_message(msg: &MessageModel) -> (r: Self)
        ensures
            r.id@ == msg.id@,
            r.sequence == msg.sequence,
    {
        MessageIdentifier { id: msg.id.clone(), sequence: msg.sequence }
    }
}

/// `msg` is among the selected identifiers.
pub open spec fn is_selected(selected: Seq<MessageIdentifier>, msg: MessageModel) -> bool {
    exists|i: int|
        0 <= i < selected.len() && #[trigger] selected[i].id@ == msg.id@ && selected[i].sequence
            == msg.sequence
}

/// Whether `msg` is among the selected identifiers.
pub fn selection_contains(selected: &[MessageIdentifier], msg: &MessageModel) -> (r: bool)
    ensures
        r == is_selected(selected@, *msg),
{
    let mut i: usize = 0;
    while i < selected.len()
        invariant
            i <= selected.len(),
            forall|j: int|
                0 <= j < i ==> !(#[trigger] selected@[j].id@ == msg.id@ && selected@[j].sequence
                    == msg.sequence),
        decreases selected.len() - i,
    {
        if selected[i].sequence == msg.sequence && str_eq(selected[i].id.as_str(), msg.id.as_str()) {
            assert(selected@[i as int].id@ == msg.id@ && selected@[i as int].sequence
                == msg.sequence);
            return true;
        }
        i = i + 1;
    }
    false
}

// ---------------------------------------------------------------------------
// Pagination status
// ---------------------------------------------------------------------------

/// Pagination and queue state of the message list.
#[derive(Debug, Clone)]
pub struct PaginationInfo {
    /// Current page, counted from 0.
    pub current_page: usize,
    pub total_pages_loaded: usize,
    pub total_messages_loaded: usize,
    /// Number of messages on the current page.
    pub current_page_size: usize,
    pub has_next_page: bool,
    pub has_previous_page: bool,
    pub queue_name: Option<String>,
    pub queue_type: QueueType,
    pub bulk_mode: bool,
    pub selected_count: usize,
    /// Messages in the queue, where statistics are known.
    pub queue_total_messages: Option<u64>,
    /// Age of the queue statistics in seconds, where known.
    pub queue_stats_age_seconds: Option<i64>,
}

/// The title of the list for a queue.
pub open spec fn queue_display_text(info: PaginationInfo) -> Seq<char> {
    let name = match info.queue_name {
        Some(n) => n@,
        None => "Unknown Queue"@,
    };
    match info.queue_type {
        QueueType::Main => "📬 Messages ("@ + name + ") [Main → d:DLQ]"@,
        QueueType::DeadLetter => "💀 Dead Letter Queue ("@ + name + ") [DLQ → d:Main]"@,
    }
}

/// The title of the list: the queue's name and kind, and the key that
/// switches between the queue and its dead letter queue.
pub fn format_queue_display(info: &PaginationInfo) -> (r: String)
    ensures
        r@ == queue_display_text(*info),
{
    let mut r = String::new();
    match info.queue_type {
        QueueType::Main => r.append("📬 Messages ("),
        QueueType::DeadLetter => r.append("💀 Dead Letter Queue ("),
    }
    match &info.queue_name {
        Some(n) => r.append(n.as_str()),
        None => r.append("Unknown Queue"),
    }
    match info.queue_type {
        QueueType::Main => r.append(") [Main → d:DLQ]"),
        QueueType::DeadLetter => r.append(") [DLQ → d:Main]"),
    }
    r
}

/// The bulk selection part of the status line.
pub open spec fn bulk_info_text(info: PaginationInfo) -> Seq<char> {
    if info.bulk_mode && info.selected_count > 0 {
        "• "@ + decimal(info.selected_count as nat) + " selected"@
    } else if info.bulk_mode {
        "• Bulk mode"@
    } else {
        Seq::<char>::empty()
    }
}

/// The bulk selection status: how many messages are selected in bulk mode.
pub fn format_bulk_info(info: &PaginationInfo) -> (r: String)
    ensures
        r@ == bulk_info_text(*info),
{
    if info.bulk_mode && info.selected_count > 0 {
        let mut r = owned("• ");
        let n = unsigned_to_string(info.selected_count as u128);
        r.append(n.as_str());
        r.append(" selected");
        assert(r@ =~= bulk_info_text(*info));
        r
    } else if info.bulk_mode {
        owned("• Bulk mode")
    } else {
        String::new()
    }
}

/// The page navigation hints of the status line.
pub open spec fn navigation_hints_text(info: PaginationInfo) -> Seq<char> {
    if info.has_previous_page && info.has_next_page {
        "• "@ + "◀[p]"@ + " "@ + "[n]▶"@
    } else if info.has_previous_page {
        "• "@ + "◀[p]"@
    } else if info.has_next_page {
        "• "@ + "[n]▶"@
    } else {
        "• End of pages"@
    }
}

/// The keys that turn the page, for the directions in which there is one.
pub fn format_navigation_hints(info: &PaginationInfo) -> (r: String)
    ensures
        r@ == navigation_hints_text(*info),
{
    let mut hints: Vec<&str> = Vec::new();
    if info.has_previous_page {
        hints.push("◀[p]");
    }
    if info.has_next_page {
        hints.push("[n]▶");
    }
    if hints.len() == 0 {
        owned("• End of pages")
    } else {
        let mut r = owned("• ");
        let mut i: usize = 0;
        while i < hints.len()
            invariant
                0 <= i <= hints.len(),
                hints.len() <= 2,
                hints@ == (if info.has_previous_page && info.has_next_page {
                    seq!["◀[p]", "[n]▶"]
                } else if info.has_previous_page {
                    seq!["◀[p]"]
                } else {
                    seq!["[n]▶"]
                }),
                r@ == (if i == 0 {
                    "• "@
                } else if i == 1 {
                    "• "@ + hints@[0]@
                } else {
                    "• "@ + hints@[0]@ + " "@ + hints@[1]@
                }),
            decreases hints.len() - i,
        {
            if i > 0 {
                r.append(" ");
            }
            r.append(hints[i]);
            i = i + 1;
        }
        assert(r@ =~= navigation_hints_text(*info));
        r
    }
}

/// The queue statistics part of the status line.
pub open spec fn queue_stats_text(info: PaginationInfo, enabled: bool, threshold: int) -> Seq<
    char,
> {
    if enabled {
        match info.queue_total_messages {
            Some(total) => match info.queue_stats_age_seconds {
                Some(age) => if age < threshold {
                    " • "@ + decimal(total as nat) + " in queue"@
                } else {
                    " • ~"@ + decimal(total as nat) + " in queue ("@ + signed_decimal((age as int) / threshold)
                        + "m ago)"@
                },
                None => " • "@ + decimal(total as nat) + " in queue"@,
            },
            None => Seq::<char>::empty(),
        }
    } else {
        Seq::<char>::empty()
    }
}

/// The complete status line of the list.
pub open spec fn pagination_status_text(info: PaginationInfo, enabled: bool, threshold: int) -> Seq<
    char,
> {
    if info.total_messages_loaded == 0 {
        "No messages available "@ + bulk_info_text(info)
    } else {
        let pages = if info.total_pages_loaded > 1 {
            info.total_pages_loaded as nat
        } else {
            1nat
        };
        "Page "@ + decimal((info.current_page + 1) as nat) + "/"@ + decimal(pages) + " • "@
            + decimal(info.total_messages_loaded as nat) + " loaded • "@ + decimal(
            info.current_page_size as nat,
        ) + " on page"@ + queue_stats_text(info, enabled, threshold) + " "@
            + navigation_hints_text(info) + " "@ + bulk_info_text(info)
    }
}

/// The status line need not divide by a threshold of zero: statistics old
/// enough to be divided by it are shown only where the threshold is positive.
pub open spec fn stats_threshold_usable(info: PaginationInfo, enabled: bool, threshold: int) -> bool {
    match info.queue_stats_age_seconds {
        Some(age) => (enabled && info.total_messages_loaded > 0 && info.queue_total_messages is Some
            && age >= threshold) ==> threshold > 0,
        None => true,
    }
}

/// The status line of the list: page, loaded and per-page counts, the queue
/// statistics where they are known and shown, the page navigation hints and
/// the bulk selection status. Statistics older than the configured threshold
/// are marked as approximate, with their age in units of the threshold.
pub fn format_pagination_status(info: &PaginationInfo, config: &AppConfig) -> (r: String)
    requires
        info.current_page < usize::MAX,
        config.ui.queue_stats_age_threshold_seconds() <= i64::MAX,
        stats_threshold_usable(
            *info,
            config.queue_stats_display_enabled(),
            config.ui.queue_stats_age_threshold_seconds() as int,
        ),
    ensures
        r@ == pagination_status_text(
            *info,
            config.queue_stats_display_enabled(),
            config.ui.queue_stats_age_threshold_seconds() as int,
        ),
{
    let bulk_info = format_bulk_info(info);
    let navigation_hints = format_navigation_hints(info);
    if info.total_messages_loaded == 0 {
        let mut r = owned("No messages available ");
        r.append(bulk_info.as_str());
        r
    } else {
        let mut r = owned("Page ");
        let page = unsigned_to_string((info.current_page + 1) as u128);
        r.append(page.as_str());
        r.append("/");
        let pages = if info.total_pages_loaded > 1 {
            info.total_pages_loaded
        } else {
            1
        };
        let pages_text = unsigned_to_string(pages as u128);
        r.append(pages_text.as_str());
        r.append(" • ");
        let loaded = unsigned_to_string(info.total_messages_loaded as u128);
        r.append(loaded.as_str());
        r.append(" loaded • ");
        let size = unsigned_to_string(info.current_page_size as u128);
        r.append(size.as_str());
        r.append(" on page");
        let queue_info = format_queue_stats(info, config);
        r.append(queue_info.as_str());
        r.append(" ");
        r.append(navigation_hints.as_str());
        r.append(" ");
        r.append(bulk_info.as_str());
        r
    }
}

/// The queue statistics part of the status line.
fn format_queue_stats(info: &PaginationInfo, config: &AppConfig) -> (r: String)
    requires
        info.total_messages_loaded > 0,
        config.ui.queue_stats_age_threshold_seconds() <= i64::MAX,
        stats_threshold_usable(
            *info,
            config.queue_stats_display_enabled(),
            config.ui.queue_stats_age_threshold_seconds() as int,
        ),
    ensures
        r@ == queue_stats_text(
            *info,
            config.queue_stats_display_enabled(),
            config.ui.queue_stats_age_threshold_seconds() as int,
        ),
{
    if !config.queue_stats_display_enabled() {
        return String::new();
    }
    match info.queue_total_messages {
        Some(total) => {
            let total_text = unsigned_to_string(total as u128);
            match info.queue_stats_age_seconds {
                Some(age) => {
                    let threshold = config.ui().queue_stats_age_threshold_seconds() as i64;
                    if age < threshold {
                        let mut r = owned(" • ");
                        r.append(total_text.as_str());
                        r.append(" in queue");
                        r
                    } else {
                        let mut r = owned(" • ~");
                        r.append(total_text.as_str());
                        r.append(" in queue (");
                        let minutes = signed_to_string((age / threshold) as i128);
                        r.append(minutes.as_str());
                        r.append("m ago)");
                        r
                    }
                },
                None => {
                    let mut r = owned(" • ");
                    r.append(total_text.as_str());
                    r.append(" in queue");
                    r
                },
            }
        },
        None => String::new(),
    }
}


// ---------------------------------------------------------------------------
// Table layout and rows
// ---------------------------------------------------------------------------

/// `a - b`, or zero where `b` exceeds `a`.
pub open spec fn sat_sub(a: int, b: int) -> int {
    if a > b {
        a - b
    } else {
        0
    }
}

/// The larger of `a` and `b`.
pub open spec fn at_least(a: int, b: int) -> int {
    if a > b {
        a
    } else {
        b
    }
}

/// The width left for the columns' contents, after borders, padding and the
/// two characters between columns.
pub open spec fn layout_content_width(available: int, bulk_mode: bool) -> int {
    sat_sub(sat_sub(available, 10), if bulk_mode {
        10
    } else {
        8
    })
}

/// The width shared proportionally among the data columns.
pub open spec fn layout_shared_width(available: int, bulk_mode: bool) -> int {
    if bulk_mode {
        sat_sub(layout_content_width(available, bulk_mode), 3)
    } else {
        layout_content_width(available, bulk_mode)
    }
}

/// The proportional widths fit the 16-bit arithmetic that computes them.
pub open spec fn layout_fits(available: int, bulk_mode: bool) -> bool {
    layout_shared_width(available, bulk_mode) * 40 <= u16::MAX
}

/// The widths of the columns: in bulk mode a checkbox column of 3, then
/// sequence, id, enqueue time, state and delivery count, each a share of the
/// available width with a minimum, the delivery count taking what is left.
pub open spec fn responsive_widths(available: int, bulk_mode: bool) -> Seq<int> {
    let w = layout_shared_width(available, bulk_mode);
    let seq_w = if bulk_mode {
        at_least(w * 8 / 100, 6)
    } else {
        at_least(w * 10 / 100, 8)
    };
    let id_w = at_least(w * 35 / 100, 15);
    let enqueued_w = at_least(w * 40 / 100, 20);
    let state_w = at_least(w * 10 / 100, 8);
    let delivery_w = at_least(sat_sub(w, seq_w + id_w + enqueued_w + state_w), 6);
    if bulk_mode {
        seq![3, seq_w, id_w, enqueued_w, state_w, delivery_w]
    } else {
        seq![seq_w, id_w, enqueued_w, state_w, delivery_w]
    }
}

/// The column headers, with an empty checkbox header in bulk mode.
pub open spec fn responsive_headers(bulk_mode: bool) -> Seq<Seq<char>> {
    let data = seq!["Sequence"@, "Message ID"@, "Enqueued At"@, "State"@, "Delivery Count"@];
    if bulk_mode {
        seq![Seq::<char>::empty()] + data
    } else {
        data
    }
}

/// The texts of a sequence of strings.
pub open spec fn string_views(v: Seq<String>) -> Seq<Seq<char>> {
    v.map_values(|s: String| s@)
}

/// The larger of two widths.
fn wider(a: u16, b: u16) -> (r: u16)
    ensures
        r as int == at_least(a as int, b as int),
{
    if a > b {
        a
    } else {
        b
    }
}

/// Headers and column widths of the table for the available width, and
/// whether the narrow layout is used (it never is: delivery counts are always
/// right-aligned).
pub fn calculate_responsive_layout(available_width: u16, bulk_mode: bool) -> (r: (
    Vec<String>,
    Vec<u16>,
    bool,
))
    requires
        layout_fits(available_width as int, bulk_mode),
    ensures
        string_views(r.0@) == responsive_headers(bulk_mode),
        r.1@.len() == responsive_widths(available_width as int, bulk_mode).len(),
        forall|i: int|
            0 <= i < r.1@.len() ==> r.1@[i] as int == #[trigger] responsive_widths(
                available_width as int,
                bulk_mode,
            )[i],
        !r.2,
{
    let headers = if bulk_mode {
        vec![
            String::new(),
            owned("Sequence"),
            owned("Message ID"),
            owned("Enqueued At"),
            owned("State"),
            owned("Delivery Count"),
        ]
    } else {
        vec![
            owned("Sequence"),
            owned("Message ID"),
            owned("Enqueued At"),
            owned("State"),
            owned("Delivery Count"),
        ]
    };
    assert(string_views(headers@) =~= responsive_headers(bulk_mode));
    let usable_width = available_width.saturating_sub(10);
    let num_cols: u16 = if bulk_mode {
        6
    } else {
        5
    };
    let spacing = (num_cols - 1) * 2;
    let content_width = usable_width.saturating_sub(spacing);
    let widths = if bulk_mode {
        let checkbox: u16 = 3;
        let remaining = content_width.saturating_sub(checkbox);
        let seq_width = wider(remaining * 8 / 100, 6);
        let msg_id_width = wider(remaining * 35 / 100, 15);
        let enqueued_width = wider(remaining * 40 / 100, 20);
        let state_width = wider(remaining * 10 / 100, 8);
        let delivery_width = wider(
            remaining.saturating_sub(seq_width + msg_id_width + enqueued_width + state_width),
            6,
        );
        vec![checkbox, seq_width, msg_id_width, enqueued_width, state_width, delivery_width]
    } else {
        let seq_width = wider(content_width * 10 / 100, 8);
        let msg_id_width = wider(content_width * 35 / 100, 15);
        let enqueued_width = wider(content_width * 40 / 100, 20);
        let state_width = wider(content_width * 10 / 100, 8);
        let delivery_width = wider(
            content_width.saturating_sub(seq_width + msg_id_width + enqueued_width + state_width),
            6,
        );
        vec![seq_width, msg_id_width, enqueued_width, state_width, delivery_width]
    };
    let use_narrow_layout = false;
    (headers, widths, use_narrow_layout)
}

/// A delivery count right-aligned in a column of `width` characters.
pub open spec fn delivery_count_text(count: nat, width: nat) -> Seq<char> {
    repeat_char(' ', sat_sub(width as int, decimal(count).len() as int) as nat) + decimal(count)
}

/// The delivery count, right-aligned in its column whatever the layout.
pub fn format_delivery_count_responsive(count: usize, width: usize, narrow_layout: bool) -> (r:
    String)
    ensures
        r@ == delivery_count_text(count as nat, width as nat),
{
    let count_str = unsigned_to_string(count as u128);
    proof {
        lemma_decimal_bytes(count as nat);
    }
    let len = str_byte_len(count_str.as_str());
    let padding = width.saturating_sub(len);
    let mut r = repeat(' ', padding);
    r.append(count_str.as_str());
    r
}

/// The cells of a message's row: a checkbox in bulk mode, then sequence, id,
/// enqueue time, state and delivery count.
pub open spec fn row_cells(
    msg: MessageModel,
    bulk_mode: bool,
    selected: Seq<MessageIdentifier>,
    delivery_width: nat,
) -> Seq<Seq<char>> {
    let data = seq![
        signed_decimal(msg.sequence as int),
        msg.id@,
        msg.enqueued_at@,
        state_label(msg.state),
        delivery_count_text(msg.delivery_count as nat, delivery_width),
    ];
    if bulk_mode {
        seq![
            if is_selected(selected, msg) {
                "● "@
            } else {
                "○ "@
            },
        ] + data
    } else {
        data
    }
}

/// The index of the delivery count column.
pub open spec fn delivery_column(bulk_mode: bool) -> int {
    if bulk_mode {
        5
    } else {
        4
    }
}

/// The row of one message.
fn message_row(
    msg: &MessageModel,
    bulk_mode: bool,
    selected: &[MessageIdentifier],
    delivery_width: usize,
) -> (r: Vec<String>)
    ensures
        string_views(r@) == row_cells(*msg, bulk_mode, selected@, delivery_width as nat),
{
    let mut row: Vec<String> = Vec::new();
    if bulk_mode {
        if selection_contains(selected, msg) {
            row.push(owned("● "));
        } else {
            row.push(owned("○ "));
        }
    }
    row.push(signed_to_string(msg.sequence as i128));
    row.push(msg.id.clone());
    row.push(msg.enqueued_at.clone());
    row.push(owned(get_state_display(&msg.state)));
    row.push(format_delivery_count_responsive(msg.delivery_count, delivery_width, false));
    assert(string_views(row@) =~= row_cells(*msg, bulk_mode, selected@, delivery_width as nat));
    row
}

/// The cell texts of the table: one row per message and, as the table
/// builder leaves it, an empty row at the end; no rows at all without
/// messages.
pub fn build_table_from_messages(
    messages: Option<&Vec<MessageModel>>,
    pagination_info: Option<&PaginationInfo>,
    selected_messages: &[MessageIdentifier],
    widths: &[u16],
    narrow_layout: bool,
) -> (r: Vec<Vec<String>>)
    requires
        messages matches Some(ms) ==> (ms.len() > 0 ==> widths.len() > delivery_column(
            pagination_info matches Some(info) && info.bulk_mode,
        )),
    ensures
        messages is None ==> r.len() == 0,
        messages matches Some(ms) ==> {
            &&& r.len() == ms.len() + 1
            &&& r[ms.len() as int].len() == 0
            &&& forall|i: int|
                0 <= i < ms.len() ==> string_views(#[trigger] r[i]@) == row_cells(
                    ms[i],
                    pagination_info matches Some(info) && info.bulk_mode,
                    selected_messages@,
                    widths[delivery_column(
                        pagination_info matches Some(info) && info.bulk_mode,
                    )] as nat,
                )
        },
{
    match messages {
        Some(messages) => {
            let bulk_mode = match pagination_info {
                Some(info) => info.bulk_mode,
                None => false,
            };
            let mut table: Vec<Vec<String>> = Vec::new();
            let mut i: usize = 0;
            while i < messages.len()
                invariant
                    i <= messages.len(),
                    table.len() == i,
                    bulk_mode == (pagination_info matches Some(info) && info.bulk_mode),
                    messages.len() > 0 ==> widths.len() > delivery_column(bulk_mode),
                    forall|j: int|
                        0 <= j < i ==> string_views(#[trigger] table[j]@) == row_cells(
                            messages[j],
                            bulk_mode,
                            selected_messages@,
                            widths[delivery_column(bulk_mode)] as nat,
                        ),
                decreases messages.len() - i,
            {
                let delivery_width = if bulk_mode {
                    widths[5]
                } else {
                    widths[4]
                };
                let row = message_row(&messages[i], bulk_mode, selected_messages, delivery_width as usize);
                table.push(row);
                i = i + 1;
            }
            table.push(Vec::new());
            table
        },
        None => Vec::new(),
    }
}


// ---------------------------------------------------------------------------
// Row navigation of the table widget
// ---------------------------------------------------------------------------

/// Rows the table scrolls by on page up and page down.
pub const PAGE_STEP: usize = 4;

/// `TableStates::incr_list_index` of tui-realm-stdlib, without rewinding:
/// the selected row moves one down unless it is the last of `len` rows.
#[verifier::external_body]
fn table_next_index(index: usize, len: usize) -> (r: usize)
    requires
        index < usize::MAX,
    ensures
        r == if index + 1 < len {
            index + 1
        } else {
            index as int
        },
{
    let mut states = TableStates::default();
    states.set_list_len(len);
    states.list_index = index;
    states.incr_list_index(false);
    states.list_index
}

/// `TableStates::decr_list_index` of tui-realm-stdlib, without rewinding:
/// the selected row moves one up unless it is the first.
#[verifier::external_body]
fn table_previous_index(index: usize, len: usize) -> (r: usize)
    ensures
        r == if index > 0 {
            index - 1
        } else {
            index as int
        },
{
    let mut states = TableStates::default();
    states.set_list_len(len);
    states.list_index = index;
    states.decr_list_index(false);
    states.list_index
}

/// `TableStates::calc_max_step_ahead` of tui-realm-stdlib: the rows below the
/// selected one, at most `max`.
#[verifier::external_body]
fn table_step_ahead(index: usize, len: usize, max: usize) -> (r: usize)
    requires
        len == 0 || index < len,
    ensures
        r == if len == 0 {
            0
        } else if len - 1 - index > max {
            max as int
        } else {
            len - 1 - index
        },
{
    let mut states = TableStates::default();
    states.set_list_len(len);
    states.list_index = index;
    states.calc_max_step_ahead(max)
}

/// `TableStates::calc_max_step_behind` of tui-realm-stdlib: the rows above the
/// selected one, at most `max`.
#[verifier::external_body]
fn table_step_behind(index: usize, len: usize, max: usize) -> (r: usize)
    ensures
        r == if index > max {
            max
        } else {
            index
        },
{
    let mut states = TableStates::default();
    states.set_list_len(len);
    states.list_index = index;
    states.calc_max_step_behind(max)
}

// ---------------------------------------------------------------------------
// The message list
// ---------------------------------------------------------------------------

/// The message list: the loaded messages, their pagination, the selected
/// messages and the row the cursor is on.
pub struct Messages {
    pub messages: Option<Vec<MessageModel>>,
    pub pagination_info: Option<PaginationInfo>,
    pub selected_messages: Vec<MessageIdentifier>,
    pub title: String,
    pub headers: Vec<String>,
    pub widths: Vec<u16>,
    pub is_focused: bool,
    pub narrow_layout: bool,
    /// The selected row of the table.
    pub list_index: usize,
}

/// The title of the list.
pub open spec fn list_title(pagination_info: Option<PaginationInfo>) -> Seq<char> {
    match pagination_info {
        Some(info) => " "@ + queue_display_text(info) + " "@,
        None => " Messages "@,
    }
}

/// A message has the same fields as another.
pub open spec fn same_message(a: MessageModel, b: MessageModel) -> bool {
    a.sequence == b.sequence && a.id@ == b.id@ && a.enqueued_at@ == b.enqueued_at@ && a.state
        == b.state && a.delivery_count == b.delivery_count && (a.body is ValidJson
        <==> b.body is ValidJson) && body_text(a.body) == body_text(b.body)
}

/// Two lists of messages with the same fields, in the same order.
pub open spec fn same_messages(a: Seq<MessageModel>, b: Seq<MessageModel>) -> bool {
    a.len() == b.len() && forall|i: int| 0 <= i < a.len() ==> same_message(#[trigger] a[i], b[i])
}

/// A copy of a message.
fn copy_message(m: &MessageModel) -> (r: MessageModel)
    ensures
        same_message(r, *m),
{
    MessageModel {
        sequence: m.sequence,
        id: m.id.clone(),
        enqueued_at: m.enqueued_at.clone(),
        state: m.state,
        delivery_count: m.delivery_count,
        body: match &m.body {
            MessageBody::ValidJson(t) => MessageBody::ValidJson(t.clone()),
            MessageBody::RawString(t) => MessageBody::RawString(t.clone()),
        },
    }
}

/// A copy of a list of messages.
fn copy_messages(v: &Vec<MessageModel>) -> (r: Vec<MessageModel>)
    ensures
        same_messages(r@, v@),
{
    let mut r: Vec<MessageModel> = Vec::new();
    let mut i: usize = 0;
    while i < v.len()
        invariant
            i <= v.len(),
            r.len() == i,
            forall|j: int| 0 <= j < i ==> same_message(#[trigger] r@[j], v@[j]),
        decreases v.len() - i,
    {
        r.push(copy_message(&v[i]));
        i = i + 1;
    }
    r
}

impl Messages {
    /// The number of loaded messages.
    pub open spec fn count(self) -> nat {
        match self.messages {
            Some(ms) => ms@.len(),
            None => 0,
        }
    }

    /// The last row the cursor may stand on.
    pub open spec fn last_index(self) -> int {
        sat_sub(self.count() as int, 1)
    }

    /// The rows of the table: one per message and the builder's trailing
    /// empty row, none without messages.
    pub open spec fn table_len(self) -> int {
        match self.messages {
            Some(ms) => ms@.len() + 1int,
            None => 0,
        }
    }

    /// The cursor stands on a message, or on the first row where there is none.
    pub open spec fn wf(self) -> bool {
        &&& self.list_index <= self.last_index()
        &&& self.count() < usize::MAX
    }

    /// Whether bulk selection mode is on.
    pub open spec fn bulk_mode(self) -> bool {
        self.pagination_info matches Some(info) && info.bulk_mode
    }

    /// The kind of queue shown, where known.
    pub open spec fn queue_type(self) -> Option<QueueType> {
        match self.pagination_info {
            Some(info) => Some(info.queue_type),
            None => None,
        }
    }

    /// The same list with the cursor on row `index`.
    pub open spec fn at_index(self, index: usize) -> Self {
        Messages { list_index: index, ..self }
    }

    /// The list after moving the cursor one message down.
    pub open spec fn after_move_down(self) -> Self {
        if self.list_index < self.last_index() {
            self.at_index((self.list_index + 1) as usize)
        } else {
            self
        }
    }

    /// The list after moving the cursor one message up.
    pub open spec fn after_move_up(self) -> Self {
        if self.list_index > 0 {
            self.at_index((self.list_index - 1) as usize)
        } else {
            self
        }
    }

    /// The list after a page down: the cursor moves up to four messages down,
    /// and no further than the last message.
    pub open spec fn after_page_down(self) -> Self {
        if self.list_index < self.last_index() {
            if self.list_index + PAGE_STEP < self.last_index() {
                self.at_index((self.list_index + PAGE_STEP) as usize)
            } else {
                self.at_index(self.last_index() as usize)
            }
        } else {
            self
        }
    }

    /// The list after a page up: the cursor moves up to four messages up.
    pub open spec fn after_page_up(self) -> Self {
        if self.list_index > PAGE_STEP {
            self.at_index((self.list_index - PAGE_STEP) as usize)
        } else {
            self.at_index(0)
        }
    }

    /// A list of the given messages, without pagination information.
    pub fn new(messages: Option<&Vec<MessageModel>>) -> (r: Self)
        requires
            messages matches Some(ms) ==> ms.len() < usize::MAX,
        ensures
            r.wf(),
            r.list_index == 0,
            r.pagination_info is None,
            r.selected_messages@.len() == 0,
            !r.is_focused,
            r.title@ == list_title(None),
            match (r.messages, messages) {
                (Some(a), Some(b)) => same_messages(a@, b@),
                (None, None) => true,
                _ => false,
            },
    {
        Self::new_with_pagination(messages, None)
    }

    /// A list of the given messages with their pagination information.
    pub fn new_with_pagination(
        messages: Option<&Vec<MessageModel>>,
        pagination_info: Option<PaginationInfo>,
    ) -> (r: Self)
        requires
            messages matches Some(ms) ==> ms.len() < usize::MAX,
        ensures
            r.wf(),
            r.list_index == 0,
            r.pagination_info == pagination_info,
            r.selected_messages@.len() == 0,
            !r.is_focused,
            r.title@ == list_title(pagination_info),
            match (r.messages, messages) {
                (Some(a), Some(b)) => same_messages(a@, b@),
                (None, None) => true,
                _ => false,
            },
    {
        Self::new_with_pagination_and_selections(messages, pagination_info, Vec::new())
    }

    /// A list of the given messages, their pagination information and the
    /// selected messages.
    pub fn new_with_pagination_and_selections(
        messages: Option<&Vec<MessageModel>>,
        pagination_info: Option<PaginationInfo>,
        selected_messages: Vec<MessageIdentifier>,
    ) -> (r: Self)
        requires
            messages matches Some(ms) ==> ms.len() < usize::MAX,
        ensures
            r.wf(),
            r.list_index == 0,
            r.pagination_info == pagination_info,
            r.selected_messages == selected_messages,
            !r.is_focused,
            r.title@ == list_title(pagination_info),
            match (r.messages, messages) {
                (Some(a), Some(b)) => same_messages(a@, b@),
                (None, None) => true,
                _ => false,
            },
    {
        Self::new_with_pagination_selections_and_focus(
            messages,
            pagination_info,
            selected_messages,
            false,
        )
    }

    /// A list of the given messages, their pagination information, the
    /// selected messages, and whether the list has the focus. The table is
    /// laid out for a width of 120 until it is drawn.
    pub fn new_with_pagination_selections_and_focus(
        messages: Option<&Vec<MessageModel>>,
        pagination_info: Option<PaginationInfo>,
        selected_messages: Vec<MessageIdentifier>,
        is_focused: bool,
    ) -> (r: Self)
        requires
            messages matches Some(ms) ==> ms.len() < usize::MAX,
        ensures
            r.wf(),
            r.list_index == 0,
            r.pagination_info == pagination_info,
            r.selected_messages == selected_messages,
            r.is_focused == is_focused,
            r.title@ == list_title(pagination_info),
            string_views(r.headers@) == responsive_headers(r.bulk_mode()),
            r.widths@.len() == responsive_widths(120, r.bulk_mode()).len(),
            forall|i: int|
                0 <= i < r.widths@.len() ==> r.widths@[i] as int == #[trigger] responsive_widths(
                    120,
                    r.bulk_mode(),
                )[i],
            !r.narrow_layout,
            match (r.messages, messages) {
                (Some(a), Some(b)) => same_messages(a@, b@),
                (None, None) => true,
                _ => false,
            },
    {
        let title = match &pagination_info {
            Some(info) => {
                let queue_display = format_queue_display(info);
                let mut t = owned(" ");
                t.append(queue_display.as_str());
                t.append(" ");
                t
            },
            None => owned(" Messages "),
        };
        let bulk_mode = match &pagination_info {
            Some(info) => info.bulk_mode,
            None => false,
        };
        let (headers, widths, use_narrow_layout) = calculate_responsive_layout(120, bulk_mode);
        let copied = match messages {
            Some(ms) => Some(copy_messages(ms)),
            None => None,
        };
        Messages {
            messages: copied,
            pagination_info,
            selected_messages,
            title,
            headers,
            widths,
            is_focused,
            narrow_layout: use_narrow_layout,
            list_index: 0,
        }
    }

    /// The row the cursor is on.
    pub fn current_index(&self) -> (r: usize)
        ensures
            r == self.list_index,
    {
        self.list_index
    }

    /// The number of loaded messages.
    pub fn message_count(&self) -> (r: usize)
        requires
            self.wf(),
        ensures
            r == self.count(),
    {
        match &self.messages {
            Some(ms) => ms.len(),
            None => 0,
        }
    }

    /// The pagination information.
    pub fn pagination_info(&self) -> (r: &Option<PaginationInfo>)
        ensures
            *r == self.pagination_info,
    {
        &self.pagination_info
    }

    /// The number of rows in the table.
    fn table_rows(&self) -> (r: usize)
        requires
            self.wf(),
        ensures
            r == self.table_len(),
    {
        match &self.messages {
            Some(ms) => ms.len() + 1,
            None => 0,
        }
    }

    /// Moves the cursor one message down, unless it is on the last one.
    pub fn move_down(&mut self)
        requires
            old(self).wf(),
        ensures
            *final(self) == old(self).after_move_down(),
            final(self).wf(),
    {
        let current = self.current_index();
        let max_index = self.message_count().saturating_sub(1);
        if current < max_index {
            let len = self.table_rows();
            self.list_index = table_next_index(current, len);
        }
    }

    /// Moves the cursor one message up, unless it is on the first one.
    pub fn move_up(&mut self)
        requires
            old(self).wf(),
        ensures
            *final(self) == old(self).after_move_up(),
            final(self).wf(),
    {
        let current = self.current_index();
        if current > 0 {
            let len = self.table_rows();
            self.list_index = table_previous_index(current, len);
        }
    }

    /// Scrolls the table one page down and brings the cursor back onto the
    /// last message where the scroll went past it.
    pub fn page_down(&mut self)
        requires
            old(self).wf(),
        ensures
            *final(self) == old(self).after_page_down(),
            final(self).wf(),
    {
        let current = self.current_index();
        let max_index = self.message_count().saturating_sub(1);
        if current < max_index {
            let len = self.table_rows();
            let step = table_step_ahead(current, len, PAGE_STEP);
            let mut k: usize = 0;
            while k < step
                invariant
                    k <= step,
                    step <= PAGE_STEP,
                    step <= len - 1 - current,
                    len == old(self).table_len(),
                    current == old(self).list_index,
                    *self == old(self).at_index((current + k) as usize),
                decreases step - k,
            {
                self.list_index = table_next_index(self.list_index, len);
                k = k + 1;
            }
            let new_index = self.current_index();
            if new_index > max_index {
                let moves_back = new_index - max_index;
                let mut j: usize = 0;
                while j < moves_back
                    invariant
                        j <= moves_back,
                        moves_back == new_index - max_index,
                        *self == old(self).at_index((new_index - j) as usize),
                    decreases moves_back - j,
                {
                    self.list_index = table_previous_index(self.list_index, len);
                    j = j + 1;
                }
            }
        }
    }

    /// Scrolls the table one page up.
    pub fn page_up(&mut self)
        requires
            old(self).wf(),
        ensures
            *final(self) == old(self).after_page_up(),
            final(self).wf(),
    {
        let current = self.current_index();
        let len = self.table_rows();
        let step = table_step_behind(current, len, PAGE_STEP);
        let mut k: usize = 0;
        while k < step
            invariant
                k <= step,
                step <= current,
                step == (if current > PAGE_STEP { PAGE_STEP } else { current }),
                current == old(self).list_index,
                *self == old(self).at_index((current - k) as usize),
            decreases step - k,
        {
            self.list_index = table_previous_index(self.list_index, len);
            k = k + 1;
        }
    }

    /// Moves the cursor to row `position`, or to the last message where there
    /// are fewer: first back to the top, then down one message at a time.
    pub fn set_cursor_position(&mut self, position: usize)
        requires
            old(self).wf(),
        ensures
            *final(self) == old(self).at_index(
                if position < old(self).last_index() {
                    position
                } else {
                    old(self).last_index() as usize
                },
            ),
            final(self).wf(),
    {
        let max_index = self.message_count().saturating_sub(1);
        let bounded_position = if position < max_index {
            position
        } else {
            max_index
        };
        let current = self.current_index();
        let mut i: usize = 0;
        while i < current
            invariant
                i <= current,
                current == old(self).list_index,
                old(self).wf(),
                *self == old(self).at_index((current - i) as usize),
            decreases current - i,
        {
            self.move_up();
            i = i + 1;
        }
        let mut j: usize = 0;
        while j < bounded_position
            invariant
                j <= bounded_position,
                bounded_position <= max_index,
                max_index == old(self).last_index(),
                old(self).wf(),
                *self == old(self).at_index(j),
            decreases bounded_position - j,
        {
            self.move_down();
            j = j + 1;
        }
    }
}

// ---------------------------------------------------------------------------
// What the list shows
// ---------------------------------------------------------------------------

/// A row of the drawn table: its cell texts, and whether it is the selected
/// row, drawn highlighted.
pub struct TableRow {
    pub cells: Vec<String>,
    pub highlighted: bool,
}

/// The cells of a message's row as drawn: a bare checkbox in bulk mode, then
/// sequence, id, enqueue time, state and delivery count.
pub open spec fn view_cells(
    msg: MessageModel,
    bulk_mode: bool,
    selected: Seq<MessageIdentifier>,
    delivery_width: nat,
) -> Seq<Seq<char>> {
    let data = row_cells(msg, false, selected, delivery_width);
    if bulk_mode {
        seq![
            if is_selected(selected, msg) {
                "●"@
            } else {
                "○"@
            },
        ] + data
    } else {
        data
    }
}

/// The drawn row of one message.
fn view_row(
    msg: &MessageModel,
    bulk_mode: bool,
    selected: &[MessageIdentifier],
    delivery_width: usize,
) -> (r: Vec<String>)
    ensures
        string_views(r@) == view_cells(*msg, bulk_mode, selected@, delivery_width as nat),
{
    let mut row: Vec<String> = Vec::new();
    if bulk_mode {
        if selection_contains(selected, msg) {
            row.push(owned("●"));
        } else {
            row.push(owned("○"));
        }
    }
    row.push(signed_to_string(msg.sequence as i128));
    row.push(msg.id.clone());
    row.push(msg.enqueued_at.clone());
    row.push(owned(get_state_display(&msg.state)));
    row.push(format_delivery_count_responsive(msg.delivery_count, delivery_width, false));
    assert(string_views(row@) =~= view_cells(*msg, bulk_mode, selected@, delivery_width as nat));
    row
}

impl Messages {
    /// The same list with the layout worked out for `available_width`.
    pub open spec fn laid_out(self, available_width: int) -> bool {
        &&& layout_fits(available_width, self.bulk_mode())
        &&& string_views(self.headers@) == responsive_headers(self.bulk_mode())
        &&& self.widths@.len() == responsive_widths(available_width, self.bulk_mode()).len()
        &&& forall|i: int|
            0 <= i < self.widths@.len() ==> self.widths@[i] as int == #[trigger] responsive_widths(
                available_width,
                self.bulk_mode(),
            )[i]
        &&& !self.narrow_layout
    }

    /// Lays the table out for `available_width` (headers, column widths and
    /// layout are stored) and gives the rows to draw: one per message, the
    /// row under the cursor highlighted.
    pub fn view_rows(&mut self, available_width: u16) -> (r: Vec<TableRow>)
        requires
            layout_fits(available_width as int, old(self).bulk_mode()),
        ensures
            final(self).laid_out(available_width as int),
            final(self).messages == old(self).messages,
            final(self).pagination_info == old(self).pagination_info,
            final(self).selected_messages == old(self).selected_messages,
            final(self).title == old(self).title,
            final(self).is_focused == old(self).is_focused,
            final(self).list_index == old(self).list_index,
            r.len() == old(self).count(),
            forall|i: int|
                #![trigger r[i]]
                0 <= i < r.len() ==> {
                    &&& string_views(r[i].cells@) == view_cells(
                        old(self).messages->Some_0[i],
                        old(self).bulk_mode(),
                        old(self).selected_messages@,
                        responsive_widths(available_width as int, old(self).bulk_mode())[delivery_column(
                            old(self).bulk_mode(),
                        )] as nat,
                    )
                    &&& r[i].highlighted == (i == old(self).list_index)
                },
    {
        let bulk_mode = match &self.pagination_info {
            Some(info) => info.bulk_mode,
            None => false,
        };
        let (headers, widths, narrow_layout) = calculate_responsive_layout(available_width, bulk_mode);
        let delivery_width = if bulk_mode {
            widths[5]
        } else {
            widths[4]
        };
        assert(bulk_mode == self.bulk_mode());
        assert(delivery_width as int == responsive_widths(available_width as int, bulk_mode)[delivery_column(bulk_mode)]);
        self.headers = headers;
        self.widths = widths;
        self.narrow_layout = narrow_layout;
        let mut rows: Vec<TableRow> = Vec::new();
        match &self.messages {
            Some(messages) => {
                let mut i: usize = 0;
                while i < messages.len()
                    invariant
                        i <= messages.len(),
                        rows.len() == i,
                        forall|j: int|
                            #![trigger rows[j]]
                            0 <= j < i ==> {
                                &&& string_views(rows[j].cells@) == view_cells(
                                    messages[j],
                                    bulk_mode,
                                    self.selected_messages@,
                                    delivery_width as nat,
                                )
                                &&& rows[j].highlighted == (j == self.list_index)
                            },
                    decreases messages.len() - i,
                {
                    let cells = view_row(
                        &messages[i],
                        bulk_mode,
                        self.selected_messages.as_slice(),
                        delivery_width as usize,
                    );
                    rows.push(TableRow { cells, highlighted: i == self.list_index });
                    i = i + 1;
                }
            },
            None => {},
        }
        rows
    }
}


// ---------------------------------------------------------------------------
// Keys of the message list
// ---------------------------------------------------------------------------

/// What a key asks of the message list.
#[derive(Debug, Clone, Copy, PartialEq, Eq, Structural)]
pub enum ListCommand {
    ToggleSelection,
    SelectAllPage,
    SelectAllLoaded,
    ClearSelections,
    BulkDelete,
    MoveDown,
    MoveUp,
    PageDown,
    PageUp,
    Open,
    NextPage,
    PreviousPage,
    Quit,
    ToggleDeadLetterQueue,
    ComposeMultiple,
    ComposeSingle,
    /// The resend key: resend from the dead letter queue, keeping the originals.
    Send,
    /// `S`: move to the dead letter queue, or resend from it and delete.
    Move,
    Ignore,
}

/// The command of a key, by the first of the bindings, in the order in which
/// the list tests them, that the key matches.
pub open spec fn list_command(key: KeyInput, keys: KeyBindingsConfig) -> ListCommand {
    let plain = key.modifiers.is_none();
    let control = key.modifiers.is_control_only();
    let control_shift = key.modifiers.control && key.modifiers.shift && !key.modifiers.alt;
    match key.code {
        KeyCode::Char(c) => {
            if plain && c == keys.toggle_selection() {
                ListCommand::ToggleSelection
            } else if control && c == keys.select_all_page() {
                ListCommand::SelectAllPage
            } else if control_shift && c == 'A' {
                ListCommand::SelectAllLoaded
            } else if control && c == keys.alt_delete_message() {
                ListCommand::BulkDelete
            } else if plain && c == keys.delete_message() {
                ListCommand::BulkDelete
            } else if plain && c == keys.down() {
                ListCommand::MoveDown
            } else if plain && c == keys.up() {
                ListCommand::MoveUp
            } else if plain && (c == keys.next_page() || c == keys.alt_next_page()) {
                ListCommand::NextPage
            } else if plain && (c == keys.prev_page() || c == keys.alt_prev_page()) {
                ListCommand::PreviousPage
            } else if (plain || control) && c == keys.quit() {
                ListCommand::Quit
            } else if plain && c == keys.toggle_dlq() {
                ListCommand::ToggleDeadLetterQueue
            } else if plain && c == keys.compose_multiple() {
                ListCommand::ComposeMultiple
            } else if control && c == keys.compose_single() {
                ListCommand::ComposeSingle
            } else if plain && c == keys.resend_from_dlq() {
                ListCommand::Send
            } else if key.modifiers.is_shift_only() && c == 'S' {
                ListCommand::Move
            } else {
                ListCommand::Ignore
            }
        },
        KeyCode::Esc => if plain {
            ListCommand::ClearSelections
        } else {
            ListCommand::Ignore
        },
        KeyCode::Delete => if plain {
            ListCommand::BulkDelete
        } else {
            ListCommand::Ignore
        },
        KeyCode::Down => if plain {
            ListCommand::MoveDown
        } else {
            ListCommand::Ignore
        },
        KeyCode::Up => if plain {
            ListCommand::MoveUp
        } else {
            ListCommand::Ignore
        },
        KeyCode::PageDown => if plain {
            ListCommand::PageDown
        } else {
            ListCommand::Ignore
        },
        KeyCode::PageUp => if plain {
            ListCommand::PageUp
        } else {
            ListCommand::Ignore
        },
        KeyCode::Enter => if plain {
            ListCommand::Open
        } else {
            ListCommand::Ignore
        },
        _ => ListCommand::Ignore,
    }
}

/// The command of a key.
fn command_of(key: KeyInput, keys: &KeyBindingsConfig) -> (r: ListCommand)
    ensures
        r == list_command(key, *keys),
{
    let plain = key.modifiers.plain();
    let control = key.modifiers.control_only();
    let control_shift = key.modifiers.control && key.modifiers.shift && !key.modifiers.alt;
    match key.code {
        KeyCode::Char(c) => {
            if plain && c == keys.toggle_selection() {
                ListCommand::ToggleSelection
            } else if control && c == keys.select_all_page() {
                ListCommand::SelectAllPage
            } else if control_shift && c == 'A' {
                ListCommand::SelectAllLoaded
            } else if control && c == keys.alt_delete_message() {
                ListCommand::BulkDelete
            } else if plain && c == keys.delete_message() {
                ListCommand::BulkDelete
            } else if plain && c == keys.down() {
                ListCommand::MoveDown
            } else if plain && c == keys.up() {
                ListCommand::MoveUp
            } else if plain && (c == keys.next_page() || c == keys.alt_next_page()) {
                ListCommand::NextPage
            } else if plain && (c == keys.prev_page() || c == keys.alt_prev_page()) {
                ListCommand::PreviousPage
            } else if (plain || control) && c == keys.quit() {
                ListCommand::Quit
            } else if plain && c == keys.toggle_dlq() {
                ListCommand::ToggleDeadLetterQueue
            } else if plain && c == keys.compose_multiple() {
                ListCommand::ComposeMultiple
            } else if control && c == keys.compose_single() {
                ListCommand::ComposeSingle
            } else if plain && c == keys.resend_from_dlq() {
                ListCommand::Send
            } else if key.modifiers.shift_only() && c == 'S' {
                ListCommand::Move
            } else {
                ListCommand::Ignore
            }
        },
        KeyCode::Esc => if plain {
            ListCommand::ClearSelections
        } else {
            ListCommand::Ignore
        },
        KeyCode::Delete => if plain {
            ListCommand::BulkDelete
        } else {
            ListCommand::Ignore
        },
        KeyCode::Down => if plain {
            ListCommand::MoveDown
        } else {
            ListCommand::Ignore
        },
        KeyCode::Up => if plain {
            ListCommand::MoveUp
        } else {
            ListCommand::Ignore
        },
        KeyCode::PageDown => if plain {
            ListCommand::PageDown
        } else {
            ListCommand::Ignore
        },
        KeyCode::PageUp => if plain {
            ListCommand::PageUp
        } else {
            ListCommand::Ignore
        },
        KeyCode::Enter => if plain {
            ListCommand::Open
        } else {
            ListCommand::Ignore
        },
        _ => ListCommand::Ignore,
    }
}

/// Shown when a message is composed in a dead letter queue.
pub open spec fn compose_in_dlq_text() -> Seq<char> {
    "❌ Cannot compose new messages from Dead Letter Queue.\n\n💡 Switch to Main queue first using 'D' key.\n📖 Composition is only available in Main queues."@
}

/// Shown when the kind of queue is not known.
pub open spec fn unknown_queue_text() -> Seq<char> {
    "❌ Unable to determine queue type. Please try switching queues."@
}

/// Shown when messages of a main queue would be copied to its dead letter
/// queue.
pub open spec fn copy_to_dlq_text() -> Seq<char> {
    "❌ Copy to DLQ is not supported by Azure Service Bus.\n\n💡 Use 'S' (Shift+s) to move messages to DLQ instead.\n📖 In Main Queue: 'S' = Move to DLQ"@
}

/// `r` shows an error with the text `text`.
pub open spec fn shows_error(r: Option<Msg>, text: Seq<char>) -> bool {
    r matches Some(Msg::ShowError(s)) && s@ == text
}

/// `r` is the message list event `m`.
pub open spec fn list_event(r: Option<Msg>, m: MessageActivityMsg) -> bool {
    r == Some(Msg::MessageActivity(m))
}

/// The answer of the list in state `old` to command `cmd`: the new state
/// `new` and the message `r`.
pub open spec fn list_response(old: Messages, new: Messages, cmd: ListCommand, r: Option<Msg>) -> bool {
    match cmd {
        ListCommand::ToggleSelection => new == old && list_event(
            r,
            MessageActivityMsg::ToggleMessageSelectionByIndex(old.list_index),
        ),
        ListCommand::SelectAllPage => new == old && list_event(
            r,
            MessageActivityMsg::SelectAllCurrentPage,
        ),
        ListCommand::SelectAllLoaded => new == old && list_event(
            r,
            MessageActivityMsg::SelectAllLoadedMessages,
        ),
        ListCommand::ClearSelections => new == old && list_event(
            r,
            MessageActivityMsg::ClearAllSelections,
        ),
        ListCommand::BulkDelete => new == old && list_event(
            r,
            MessageActivityMsg::BulkDeleteSelected,
        ),
        ListCommand::MoveDown => new == old.after_move_down() && list_event(
            r,
            MessageActivityMsg::PreviewMessageDetails(new.list_index),
        ),
        ListCommand::MoveUp => new == old.after_move_up() && list_event(
            r,
            MessageActivityMsg::PreviewMessageDetails(new.list_index),
        ),
        ListCommand::PageDown => new == old.after_page_down() && list_event(
            r,
            MessageActivityMsg::PreviewMessageDetails(new.list_index),
        ),
        ListCommand::PageUp => new == old.after_page_up() && list_event(
            r,
            MessageActivityMsg::PreviewMessageDetails(new.list_index),
        ),
        ListCommand::Open => new == old && list_event(
            r,
            MessageActivityMsg::EditMessage(old.list_index),
        ),
        ListCommand::NextPage => new == old && list_event(r, MessageActivityMsg::NextPage),
        ListCommand::PreviousPage => new == old && list_event(r, MessageActivityMsg::PreviousPage),
        ListCommand::Quit => new == old && r == Some(Msg::AppClose),
        ListCommand::ToggleDeadLetterQueue => new == old && r == Some(
            Msg::QueueActivity(QueueActivityMsg::ToggleDeadLetterQueue),
        ),
        ListCommand::ComposeMultiple => new == old && match old.queue_type() {
            Some(QueueType::Main) => list_event(r, MessageActivityMsg::SetMessageRepeatCount),
            Some(QueueType::DeadLetter) => shows_error(r, compose_in_dlq_text()),
            None => shows_error(r, unknown_queue_text()),
        },
        ListCommand::ComposeSingle => new == old && match old.queue_type() {
            Some(QueueType::Main) => list_event(r, MessageActivityMsg::ComposeNewMessage),
            Some(QueueType::DeadLetter) => shows_error(r, compose_in_dlq_text()),
            None => shows_error(r, unknown_queue_text()),
        },
        ListCommand::Send => new == old && match old.queue_type() {
            Some(QueueType::Main) => shows_error(r, copy_to_dlq_text()),
            Some(QueueType::DeadLetter) => list_event(
                r,
                MessageActivityMsg::BulkResendSelectedFromDLQ(false),
            ),
            None => shows_error(r, unknown_queue_text()),
        },
        ListCommand::Move => new == old && match old.queue_type() {
            Some(QueueType::Main) => list_event(
                r,
                MessageActivityMsg::BulkSendSelectedToDLQWithDelete,
            ),
            Some(QueueType::DeadLetter) => list_event(
                r,
                MessageActivityMsg::BulkResendSelectedFromDLQ(true),
            ),
            None => shows_error(r, unknown_queue_text()),
        },
        ListCommand::Ignore => new == old && r == Some(Msg::ForceRedraw),
    }
}

/// Moving the cursor down and back up returns it to its row, unless it was
/// on the last message.
pub proof fn lemma_down_then_up(m: Messages)
    requires
        m.wf(),
        m.list_index < m.last_index(),
    ensures
        m.after_move_down().after_move_up() == m,
{
}

/// Moving the cursor up and back down returns it to its row, unless it was
/// on the first row.
pub proof fn lemma_up_then_down(m: Messages)
    requires
        m.wf(),
        m.list_index > 0,
    ensures
        m.after_move_up().after_move_down() == m,
{
}

/// The table has one width for each header, in bulk mode and out of it.
pub proof fn lemma_one_width_per_header(available: int, bulk_mode: bool)
    ensures
        responsive_widths(available, bulk_mode).len() == responsive_headers(bulk_mode).len(),
{
}

impl Messages {
    /// Reacts to a key. Esc with nothing selected leaves bulk mode, or asks to
    /// leave the queue outside bulk mode; every other key goes by the command
    /// it is bound to (see `list_command` and `list_response`).
    pub fn on(&mut self, key: KeyInput, keys: &KeyBindingsConfig) -> (r: Option<Msg>)
        requires
            old(self).wf(),
        ensures
            final(self).wf(),
            key.code == KeyCode::Esc && old(self).selected_messages@.len() == 0 ==> *final(self)
                == *old(self) && r == if old(self).bulk_mode() {
                Some(Msg::MessageActivity(MessageActivityMsg::ClearAllSelections))
            } else {
                Some(Msg::QueueActivity(QueueActivityMsg::ExitQueueConfirmation))
            },
            !(key.code == KeyCode::Esc && old(self).selected_messages@.len() == 0)
                ==> list_response(*old(self), *final(self), list_command(key, *keys), r),
    {
        if key.code == KeyCode::Esc && self.selected_messages.len() == 0 {
            let bulk_mode = match &self.pagination_info {
                Some(info) => info.bulk_mode,
                None => false,
            };
            if bulk_mode {
                return Some(Msg::MessageActivity(MessageActivityMsg::ClearAllSelections));
            }
            return Some(Msg::QueueActivity(QueueActivityMsg::ExitQueueConfirmation));
        }
        self.handle_event(key, keys)
    }

    /// The kind of queue shown, where known.
    fn shown_queue_type(&self) -> (r: Option<QueueType>)
        ensures
            r == self.queue_type(),
    {
        match &self.pagination_info {
            Some(info) => Some(info.queue_type),
            None => None,
        }
    }

    /// Answers a key by the command it is bound to.
    pub fn handle_event(&mut self, key: KeyInput, keys: &KeyBindingsConfig) -> (r: Option<Msg>)
        requires
            old(self).wf(),
        ensures
            final(self).wf(),
            list_response(*old(self), *final(self), list_command(key, *keys), r),
    {
        let unknown_queue = "❌ Unable to determine queue type. Please try switching queues.";
        let compose_in_dlq = "❌ Cannot compose new messages from Dead Letter Queue.\n\n💡 Switch to Main queue first using 'D' key.\n📖 Composition is only available in Main queues.";
        match command_of(key, keys) {
            ListCommand::ToggleSelection => Some(
                Msg::MessageActivity(
                    MessageActivityMsg::ToggleMessageSelectionByIndex(self.current_index()),
                ),
            ),
            ListCommand::SelectAllPage => Some(
                Msg::MessageActivity(MessageActivityMsg::SelectAllCurrentPage),
            ),
            ListCommand::SelectAllLoaded => Some(
                Msg::MessageActivity(MessageActivityMsg::SelectAllLoadedMessages),
            ),
            ListCommand::ClearSelections => Some(
                Msg::MessageActivity(MessageActivityMsg::ClearAllSelections),
            ),
            ListCommand::BulkDelete => Some(
                Msg::MessageActivity(MessageActivityMsg::BulkDeleteSelected),
            ),
            ListCommand::MoveDown => {
                self.move_down();
                Some(
                    Msg::MessageActivity(
                        MessageActivityMsg::PreviewMessageDetails(self.current_index()),
                    ),
                )
            },
            ListCommand::MoveUp => {
                self.move_up();
                Some(
                    Msg::MessageActivity(
                        MessageActivityMsg::PreviewMessageDetails(self.current_index()),
                    ),
                )
            },
            ListCommand::PageDown => {
                self.page_down();
                Some(
                    Msg::MessageActivity(
                        MessageActivityMsg::PreviewMessageDetails(self.current_index()),
                    ),
                )
            },
            ListCommand::PageUp => {
                self.page_up();
                Some(
                    Msg::MessageActivity(
                        MessageActivityMsg::PreviewMessageDetails(self.current_index()),
                    ),
                )
            },
            ListCommand::Open => Some(
                Msg::MessageActivity(MessageActivityMsg::EditMessage(self.current_index())),
            ),
            ListCommand::NextPage => Some(Msg::MessageActivity(MessageActivityMsg::NextPage)),
            ListCommand::PreviousPage => Some(
                Msg::MessageActivity(MessageActivityMsg::PreviousPage),
            ),
            ListCommand::Quit => Some(Msg::AppClose),
            ListCommand::ToggleDeadLetterQueue => Some(
                Msg::QueueActivity(QueueActivityMsg::ToggleDeadLetterQueue),
            ),
            ListCommand::ComposeMultiple => match self.shown_queue_type() {
                Some(QueueType::DeadLetter) => Some(Msg::ShowError(owned(compose_in_dlq))),
                Some(QueueType::Main) => Some(
                    Msg::MessageActivity(MessageActivityMsg::SetMessageRepeatCount),
                ),
                None => Some(Msg::ShowError(owned(unknown_queue))),
            },
            ListCommand::ComposeSingle => match self.shown_queue_type() {
                Some(QueueType::DeadLetter) => Some(Msg::ShowError(owned(compose_in_dlq))),
                Some(QueueType::Main) => Some(
                    Msg::MessageActivity(MessageActivityMsg::ComposeNewMessage),
                ),
                None => Some(Msg::ShowError(owned(unknown_queue))),
            },
            ListCommand::Send => match self.shown_queue_type() {
                Some(QueueType::Main) => Some(
                    Msg::ShowError(
                        owned(
                            "❌ Copy to DLQ is not supported by Azure Service Bus.\n\n💡 Use 'S' (Shift+s) to move messages to DLQ instead.\n📖 In Main Queue: 'S' = Move to DLQ",
                        ),
                    ),
                ),
                Some(QueueType::DeadLetter) => Some(
                    Msg::MessageActivity(MessageActivityMsg::BulkResendSelectedFromDLQ(false)),
                ),
                None => Some(Msg::ShowError(owned(unknown_queue))),
            },
            ListCommand::Move => match self.shown_queue_type() {
                Some(QueueType::Main) => Some(
                    Msg::MessageActivity(MessageActivityMsg::BulkSendSelectedToDLQWithDelete),
                ),
                Some(QueueType::DeadLetter) => Some(
                    Msg::MessageActivity(MessageActivityMsg::BulkResendSelectedFromDLQ(true)),
                ),
                None => Some(Msg::ShowError(owned(unknown_queue))),
            },
            ListCommand::Ignore => Some(Msg::ForceRedraw),
        }
    }
}

/// The event that toggles the selection of the message on row `index`.
pub fn create_toggle_message_selection(index: usize) -> (r: Msg)
    ensures
        r == Msg::MessageActivity(MessageActivityMsg::ToggleMessageSelectionByIndex(index)),
{
    Msg::MessageActivity(MessageActivityMsg::ToggleMessageSelectionByIndex(index))
}

/// Page up moves the cursor a page towards the top, stopping at the first
/// row: from row `i` to row `max(i - 4, 0)`, nothing else changing. From any
/// row but the first the cursor moves.
pub proof fn lemma_page_up_moves_towards_top(m: Messages)
    ensures
        m.after_page_up().list_index == (if m.list_index >= PAGE_STEP {
            m.list_index - PAGE_STEP
        } else {
            0
        }),
        m.list_index > 0 ==> m.after_page_up().list_index < m.list_index,
        m.after_page_up().list_index + PAGE_STEP >= m.list_index,
        m.after_page_up() == (Messages { list_index: m.after_page_up().list_index, ..m }),
{
}

/// Page down moves the cursor a page towards the bottom, stopping at the last
/// message: from row `i` to row `min(i + 4, last)`, nothing else changing.
pub proof fn lemma_page_down_moves_towards_bottom(m: Messages)
    requires
        m.wf(),
    ensures
        m.after_page_down().list_index == (if m.list_index + PAGE_STEP <= m.last_index() {
            m.list_index + PAGE_STEP
        } else {
            m.last_index()
        }),
        m.list_index < m.last_index() ==> m.after_page_down().list_index > m.list_index,
        m.after_page_down() == (Messages { list_index: m.after_page_down().list_index, ..m }),
{
}

/// The list's answers to its keys, in terms of the key bindings: the paging
/// keys ask for the next or previous page; Delete and Ctrl with the
/// alternate delete key ask to delete the selection; Enter opens the message
/// under the cursor; Esc clears the selection; the arrows and page keys move
/// the cursor by one row or one page, within the list, and preview the
/// message they land on.
pub proof fn lemma_list_keys(
    old: Messages,
    new: Messages,
    key: KeyInput,
    keys: KeyBindingsConfig,
    r: Option<Msg>,
)
    requires
        old.wf(),
        list_response(old, new, list_command(key, keys), r),
    ensures
        ({
            let c = keys.next_page();
            let a = keys.alt_next_page();
            (key.modifiers.is_none() && (key.code == KeyCode::Char(c) || key.code == KeyCode::Char(a))
                && (key.code->Char_0 != keys.toggle_selection()) && (key.code->Char_0
                != keys.delete_message()) && (key.code->Char_0 != keys.down()) && (key.code->Char_0
                != keys.up())) ==> r == Some(Msg::MessageActivity(MessageActivityMsg::NextPage))
                && new == old
        }),
        ({
            let c = keys.prev_page();
            let a = keys.alt_prev_page();
            (key.modifiers.is_none() && (key.code == KeyCode::Char(c) || key.code == KeyCode::Char(a))
                && (key.code->Char_0 != keys.toggle_selection()) && (key.code->Char_0
                != keys.delete_message()) && (key.code->Char_0 != keys.down()) && (key.code->Char_0
                != keys.up()) && (key.code->Char_0 != keys.next_page()) && (key.code->Char_0
                != keys.alt_next_page())) ==> r == Some(
                Msg::MessageActivity(MessageActivityMsg::PreviousPage),
            ) && new == old
        }),
        (key.modifiers.is_none() && key.code == KeyCode::Delete) ==> r == Some(
            Msg::MessageActivity(MessageActivityMsg::BulkDeleteSelected),
        ) && new == old,
        (key.modifiers.is_control_only() && key.code == KeyCode::Char(keys.alt_delete_message())
            && keys.alt_delete_message() != keys.select_all_page()) ==> r == Some(
            Msg::MessageActivity(MessageActivityMsg::BulkDeleteSelected),
        ) && new == old,
        (key.modifiers.is_none() && key.code == KeyCode::Enter) ==> r == Some(
            Msg::MessageActivity(MessageActivityMsg::EditMessage(old.list_index)),
        ) && new == old,
        (key.modifiers.is_none() && key.code == KeyCode::Esc) ==> r == Some(
            Msg::MessageActivity(MessageActivityMsg::ClearAllSelections),
        ) && new == old,
        (key.modifiers.is_none() && key.code == KeyCode::Down) ==> {
            &&& new.list_index == (if old.list_index < old.last_index() {
                old.list_index + 1
            } else {
                old.list_index as int
            })
            &&& new == (Messages { list_index: new.list_index, ..old })
            &&& r == Some(Msg::MessageActivity(MessageActivityMsg::PreviewMessageDetails(new.list_index)))
        },
        (key.modifiers.is_none() && key.code == KeyCode::Up) ==> {
            &&& new.list_index == (if old.list_index > 0 {
                old.list_index - 1
            } else {
                0
            })
            &&& new == (Messages { list_index: new.list_index, ..old })
            &&& r == Some(Msg::MessageActivity(MessageActivityMsg::PreviewMessageDetails(new.list_index)))
        },
        (key.modifiers.is_none() && key.code == KeyCode::PageUp) ==> {
            &&& new.list_index == (if old.list_index >= PAGE_STEP {
                old.list_index - PAGE_STEP
            } else {
                0
            })
            &&& new == (Messages { list_index: new.list_index, ..old })
            &&& r == Some(Msg::MessageActivity(MessageActivityMsg::PreviewMessageDetails(new.list_index)))
        },
        (key.modifiers.is_none() && key.code == KeyCode::PageDown) ==> {
            &&& new.list_index == (if old.list_index + PAGE_STEP <= old.last_index() {
                old.list_index + PAGE_STEP
            } else if old.list_index < old.last_index() {
                old.last_index()
            } else {
                old.list_index as int
            })
            &&& new == (Messages { list_index: new.list_index, ..old })
            &&& r == Some(Msg::MessageActivity(MessageActivityMsg::PreviewMessageDetails(new.list_index)))
        },
{
}

/// The list's plain character keys are bound to distinct characters, as in
/// the default bindings.
pub open spec fn distinct_list_keys(keys: KeyBindingsConfig) -> bool {
    let ks = seq![
        keys.toggle_selection(),
        keys.delete_message(),
        keys.down(),
        keys.up(),
        keys.next_page(),
        keys.alt_next_page(),
        keys.prev_page(),
        keys.alt_prev_page(),
        keys.quit(),
        keys.toggle_dlq(),
        keys.compose_multiple(),
        keys.resend_from_dlq(),
    ];
    forall|i: int, j: int| 0 <= i < j < ks.len() ==> ks[i] != ks[j]
}

/// With distinct bindings, each of the list's character keys does its own
/// job: the selection key toggles the message under the cursor, the quit
/// key closes the application, the dead letter key switches queues, the
/// compose key composes in a main queue, and the resend key resends the
/// selection from a dead letter queue (keeping it there); Shift+S moves the
/// selection to the dead letter queue from a main queue, and resends it
/// (removing it from the dead letter queue) from a dead letter queue. None
/// of them moves the cursor.
pub proof fn lemma_list_character_keys(
    old: Messages,
    new: Messages,
    key: KeyInput,
    keys: KeyBindingsConfig,
    r: Option<Msg>,
)
    requires
        distinct_list_keys(keys),
        list_response(old, new, list_command(key, keys), r),
    ensures
        (key.modifiers.is_none() && key.code == KeyCode::Char(keys.toggle_selection())) ==> r
            == Some(
            Msg::MessageActivity(MessageActivityMsg::ToggleMessageSelectionByIndex(old.list_index)),
        ) && new == old,
        (key.modifiers.is_none() && key.code == KeyCode::Char(keys.quit())) ==> r == Some(
            Msg::AppClose,
        ) && new == old,
        (key.modifiers.is_none() && key.code == KeyCode::Char(keys.toggle_dlq())) ==> r == Some(
            Msg::QueueActivity(QueueActivityMsg::ToggleDeadLetterQueue),
        ) && new == old,
        (key.modifiers.is_none() && key.code == KeyCode::Char(keys.compose_multiple())
            && old.pagination_info is Some && old.pagination_info->Some_0.queue_type == QueueType::Main) ==> r
            == Some(Msg::MessageActivity(MessageActivityMsg::SetMessageRepeatCount)) && new == old,
        (key.modifiers.is_none() && key.code == KeyCode::Char(keys.resend_from_dlq())
            && old.pagination_info is Some && old.pagination_info->Some_0.queue_type == QueueType::DeadLetter)
            ==> r == Some(
            Msg::MessageActivity(MessageActivityMsg::BulkResendSelectedFromDLQ(false)),
        ) && new == old,
        (key.modifiers.is_none() && key.code == KeyCode::Char(keys.resend_from_dlq())
            && old.pagination_info is Some && old.pagination_info->Some_0.queue_type == QueueType::Main) ==> (r
            matches Some(Msg::ShowError(_))) && new == old,
        (key.modifiers.is_shift_only() && key.code == KeyCode::Char('S')
            && old.pagination_info is Some && old.pagination_info->Some_0.queue_type == QueueType::Main) ==> r
            == Some(Msg::MessageActivity(MessageActivityMsg::BulkSendSelectedToDLQWithDelete))
            && new == old,
        (key.modifiers.is_shift_only() && key.code == KeyCode::Char('S')
            && old.pagination_info is Some && old.pagination_info->Some_0.queue_type == QueueType::DeadLetter)
            ==> r == Some(
            Msg::MessageActivity(MessageActivityMsg::BulkResendSelectedFromDLQ(true)),
        ) && new == old,
{
    let ks = seq![
        keys.toggle_selection(),
        keys.delete_message(),
        keys.down(),
        keys.up(),
        keys.next_page(),
        keys.alt_next_page(),
        keys.prev_page(),
        keys.alt_prev_page(),
        keys.quit(),
        keys.toggle_dlq(),
        keys.compose_multiple(),
        keys.resend_from_dlq(),
    ];
    assert(ks[0] == keys.toggle_selection());
    assert(ks[1] == keys.delete_message());
    assert(ks[2] == keys.down());
    assert(ks[3] == keys.up());
    assert(ks[4] == keys.next_page());
    assert(ks[5] == keys.alt_next_page());
    assert(ks[6] == keys.prev_page());
    assert(ks[7] == keys.alt_prev_page());
    assert(ks[8] == keys.quit());
    assert(ks[9] == keys.toggle_dlq());
    assert(ks[10] == keys.compose_multiple());
    assert(ks[11] == keys.resend_from_dlq());
}

} // verus!
