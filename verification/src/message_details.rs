//! The message detail view: the body of the selected message as lines of
//! text, a cursor over them, and an editor for composing, resending and
//! replacing messages.
use vstd::prelude::*;
use crate::common::{MessageActivityMsg, Msg, PopupActivityMsg};
use crate::error::AppError;
use crate::input::{KeyCode, KeyInput};
use crate::keys::KeyBindingsConfig;
use crate::message_validation::{
    content_field, encoding_outcome, json_parse_error, lift_common, AZURE_MAX_MESSAGE_SIZE,
    CompleteMessageValidator, JsonFormatValidator, MessageValidationErrorView, outcome_view,
};
use crate::popups::Area;
use crate::messages::{body_text, string_views, MessageBody, MessageIdentifier, MessageModel};
use crate::text::{
    boundary_index, byte_len, char_index_at, decimal, is_boundary, join_strings, join_with,
    lemma_boundary_index, lines_of, owned, str_byte_len, str_eq, str_lines, string_insert,
    string_remove, string_split_off, trim, unsigned_to_string,
};
use crate::validation_patterns::string_length_outcome;

verus! {

/// The detail view of a message.
pub struct MessageDetails {
    /// The lines shown, edited in place.
    pub message_content: Vec<String>,
    /// The lines as loaded, restored when editing is cancelled.
    pub original_content: Vec<String>,
    pub current_message: Option<MessageModel>,
    /// The first line shown.
    pub scroll_offset: usize,
    /// The cursor's line, counted from the first line shown.
    pub cursor_line: usize,
    /// The cursor's byte position in its line.
    pub cursor_col: usize,
    pub is_focused: bool,
    /// Lines that fit in the view, as last drawn.
    pub visible_lines: usize,
    pub is_editing: bool,
    /// The lines differ from those loaded.
    pub is_dirty: bool,
    /// How many copies a composed message is sent as.
    pub repeat_count: Option<usize>,
}

/// The lines a message is shown as: the lines of its body, or a notice where
/// no message is selected.
pub open spec fn formatted_content(message: Option<MessageModel>) -> Seq<Seq<char>> {
    match message {
        Some(m) => lines_of(body_text(m.body)),
        None => seq!["No message selected"@],
    }
}

/// A copy of a list of lines.
fn copy_lines(v: &Vec<String>) -> (r: Vec<String>)
    ensures
        r@ == v@,
{
    let mut r: Vec<String> = Vec::new();
    let mut i: usize = 0;
    while i < v.len()
        invariant
            i <= v.len(),
            r@ == v@.take(i as int),
        decreases v.len() - i,
    {
        r.push(v[i].clone());
        proof {
            assert(r@ =~= v@.take(i + 1));
        }
        i = i + 1;
    }
    proof {
        assert(v@.take(v.len() as int) =~= v@);
    }
    r
}

/// Whether two lists of lines have the same texts.
fn same_lines(a: &Vec<String>, b: &Vec<String>) -> (r: bool)
    ensures
        r == (string_views(a@) == string_views(b@)),
{
    if a.len() != b.len() {
        proof {
            assert(string_views(a@).len() != string_views(b@).len());
        }
        return false;
    }
    let mut i: usize = 0;
    while i < a.len()
        invariant
            i <= a.len(),
            a.len() == b.len(),
            forall|j: int| 0 <= j < i ==> #[trigger] a@[j]@ == b@[j]@,
        decreases a.len() - i,
    {
        if !str_eq(a[i].as_str(), b[i].as_str()) {
            proof {
                assert(string_views(a@)[i as int] != string_views(b@)[i as int]);
            }
            return false;
        }
        i = i + 1;
    }
    proof {
        assert(string_views(a@) =~= string_views(b@));
    }
    true
}

impl MessageDetails {
    /// The texts of the lines.
    pub open spec fn content(self) -> Seq<Seq<char>> {
        string_views(self.message_content@)
    }

    /// The texts of the lines as loaded.
    pub open spec fn original(self) -> Seq<Seq<char>> {
        string_views(self.original_content@)
    }

    /// The index of the cursor's line among all lines.
    pub open spec fn line_index(self) -> int {
        self.cursor_line + self.scroll_offset
    }

    /// The cursor's line index fits in a `usize`, with room to move down.
    pub open spec fn wf(self) -> bool {
        self.cursor_line + self.scroll_offset < usize::MAX
    }

    /// The text of the cursor's line, where there is such a line.
    pub open spec fn cursor_line_text(self) -> Option<Seq<char>> {
        if 0 <= self.line_index() < self.content().len() {
            Some(self.content()[self.line_index()])
        } else {
            None
        }
    }

    /// The same view with the cursor at `line`, `col` and the first line
    /// shown at `scroll`.
    pub open spec fn with_cursor(self, line: usize, col: usize, scroll: usize) -> Self {
        MessageDetails { cursor_line: line, cursor_col: col, scroll_offset: scroll, ..self }
    }

    /// The cursor's column, brought back to the end of its line where it lies
    /// beyond.
    pub open spec fn clamped_col(self) -> usize {
        match self.cursor_line_text() {
            Some(t) => if self.cursor_col > byte_len(t) {
                byte_len(t) as usize
            } else {
                self.cursor_col
            },
            None => self.cursor_col,
        }
    }

    /// The view with the cursor's column clamped to its line.
    pub open spec fn adjusted(self) -> Self {
        if self.clamped_col() != self.cursor_col {
            self.with_cursor(self.cursor_line, self.clamped_col(), self.scroll_offset)
        } else {
            self
        }
    }

    /// A view of `message`, not focused, not editing.
    pub fn new(message: Option<MessageModel>) -> (r: Self)
        ensures
            r.content() == formatted_content(message),
            r.original_content@ == r.message_content@,
            r.current_message == message,
            r.scroll_offset == 0 && r.cursor_line == 0 && r.cursor_col == 0,
            !r.is_focused && !r.is_editing && !r.is_dirty,
            r.visible_lines == 0,
            r.repeat_count is None,
    {
        Self::new_with_focus(message, false)
    }

    /// A view of `message`, focused or not, not editing.
    pub fn new_with_focus(message: Option<MessageModel>, is_focused: bool) -> (r: Self)
        ensures
            r.content() == formatted_content(message),
            r.original_content@ == r.message_content@,
            r.current_message == message,
            r.scroll_offset == 0 && r.cursor_line == 0 && r.cursor_col == 0,
            r.is_focused == is_focused,
            !r.is_editing && !r.is_dirty,
            r.visible_lines == 0,
            r.repeat_count is None,
    {
        let message_content = Self::format_message_content(&message);
        let original_content = copy_lines(&message_content);
        MessageDetails {
            message_content,
            original_content,
            current_message: message,
            scroll_offset: 0,
            cursor_line: 0,
            cursor_col: 0,
            is_focused,
            visible_lines: 0,
            is_editing: false,
            is_dirty: false,
            repeat_count: None,
        }
    }

    /// An empty editor for composing a message to be sent `repeat_count`
    /// times.
    pub fn new_for_composition_with_repeat_count(
        message: Option<MessageModel>,
        is_focused: bool,
        repeat_count: usize,
    ) -> (r: Self)
        ensures
            r.content() == seq![Seq::<char>::empty()],
            r.original() == seq![Seq::<char>::empty()],
            r.current_message == message,
            r.scroll_offset == 0 && r.cursor_line == 0 && r.cursor_col == 0,
            r.is_focused == is_focused,
            r.is_editing && !r.is_dirty,
            r.visible_lines == 0,
            r.repeat_count == Some(repeat_count),
    {
        let message_content = vec![String::new()];
        let original_content = vec![String::new()];
        proof {
            assert(string_views(message_content@) =~= seq![Seq::<char>::empty()]);
            assert(string_views(original_content@) =~= seq![Seq::<char>::empty()]);
        }
        MessageDetails {
            message_content,
            original_content,
            current_message: message,
            scroll_offset: 0,
            cursor_line: 0,
            cursor_col: 0,
            is_focused,
            visible_lines: 0,
            is_editing: true,
            is_dirty: false,
            repeat_count: Some(repeat_count),
        }
    }

    /// The lines a message is shown as.
    fn format_message_content(message: &Option<MessageModel>) -> (r: Vec<String>)
        ensures
            string_views(r@) == formatted_content(*message),
    {
        match message {
            Some(data) => match &data.body {
                MessageBody::ValidJson(json) => str_lines(json.as_str()),
                MessageBody::RawString(text) => str_lines(text.as_str()),
            },
            None => {
                let r = vec![owned("No message selected")];
                proof {
                    assert(string_views(r@) =~= seq!["No message selected"@]);
                }
                r
            },
        }
    }

    /// The edited body: the lines joined with newlines.
    pub fn get_edited_content(&self) -> (r: String)
        ensures
            r@ == join_with(self.content(), "\n"@),
    {
        join_strings(&self.message_content, "\n")
    }

    /// Checks a body against every rule for messages sent to Azure Service
    /// Bus; a failure is a configuration error with the user message.
    pub fn validate_message_content(&self, content: &str) -> (r: Result<(), AppError>)
        ensures
            r is Ok <==> azure_message_check(content@) is Ok,
            r matches Err(e) ==> azure_message_check(content@) matches Err(v) && e matches AppError::Config(m) && m@ == v.message(),
    {
        let validator = CompleteMessageValidator::azure_default();
        match validator.validate(content) {
            Ok(()) => Ok(()),
            Err(e) => Err(e.to_app_error()),
        }
    }

    /// The cursor's line index, as the list of messages tracks it.
    pub fn cursor_position(&self) -> (r: usize)
        requires
            self.wf(),
        ensures
            r == self.line_index(),
    {
        self.cursor_line + self.scroll_offset
    }

    /// The byte length of the cursor's line, where there is such a line.
    fn cursor_line_len(&self) -> (r: Option<usize>)
        requires
            self.cursor_line + self.scroll_offset <= usize::MAX,
        ensures
            match self.cursor_line_text() {
                Some(t) => r matches Some(n) && n as nat == byte_len(t),
                None => r is None,
            },
    {
        let idx = self.cursor_line + self.scroll_offset;
        if idx < self.message_content.len() {
            Some(str_byte_len(self.message_content[idx].as_str()))
        } else {
            None
        }
    }

    /// Clamps the cursor's column to the end of its line.
    pub fn adjust_cursor_column(&mut self)
        requires
            old(self).cursor_line + old(self).scroll_offset <= usize::MAX,
        ensures
            *final(self) == old(self).adjusted(),
    {
        if let Some(len) = self.cursor_line_len() {
            if self.cursor_col > len {
                self.cursor_col = len;
            }
        }
    }
}

impl MessageDetails {
    /// The view after moving the cursor up a line, scrolling where it is on
    /// the first line shown.
    pub open spec fn after_cursor_up(self) -> Self {
        if self.cursor_line > 0 {
            self.with_cursor((self.cursor_line - 1) as usize, self.cursor_col, self.scroll_offset).adjusted()
        } else if self.scroll_offset > 0 {
            self.with_cursor(self.cursor_line, self.cursor_col, (self.scroll_offset - 1) as usize).adjusted()
        } else {
            self
        }
    }

    /// The view after moving the cursor down a line, unless it is on the last
    /// line; it scrolls where the cursor would leave the `visible_lines`
    /// shown.
    pub open spec fn after_cursor_down(self, visible_lines: usize) -> Self {
        let total = if self.content().len() > 1 {
            self.content().len() as int
        } else {
            1
        };
        if self.line_index() + 1 < total {
            if self.cursor_line + 1 < visible_lines {
                self.with_cursor((self.cursor_line + 1) as usize, self.cursor_col, self.scroll_offset).adjusted()
            } else {
                self.with_cursor(self.cursor_line, self.cursor_col, (self.scroll_offset + 1) as usize).adjusted()
            }
        } else {
            self
        }
    }

    /// The lines a page holds: those visible, at least one.
    pub open spec fn page_size(self) -> int {
        if self.visible_lines > 1 {
            self.visible_lines as int
        } else {
            1
        }
    }

    /// The view after a page up or down. A page up scrolls a page back, or
    /// to the top with the cursor on the first line; a page down scrolls a
    /// page on, no further than where the last page starts.
    pub open spec fn after_page(self, page_up: bool) -> Self {
        let page = self.page_size();
        if page_up {
            if self.scroll_offset >= page {
                self.with_cursor(self.cursor_line, self.cursor_col, (self.scroll_offset - page) as usize).adjusted()
            } else {
                self.with_cursor(0, self.cursor_col, 0).adjusted()
            }
        } else {
            let total = if self.content().len() > 1 {
                self.content().len() as int
            } else {
                1
            };
            let max_scroll = if total > page {
                total - page
            } else {
                0
            };
            if self.scroll_offset + page <= max_scroll {
                self.with_cursor(self.cursor_line, self.cursor_col, (self.scroll_offset + page) as usize).adjusted()
            } else {
                self.with_cursor(self.cursor_line, self.cursor_col, max_scroll as usize).adjusted()
            }
        }
    }

    /// Moves the cursor up a line.
    pub fn move_cursor_up(&mut self)
        requires
            old(self).wf(),
        ensures
            *final(self) == old(self).after_cursor_up(),
            final(self).wf(),
    {
        if self.cursor_line > 0 {
            self.cursor_line = self.cursor_line - 1;
            self.adjust_cursor_column();
        } else if self.scroll_offset > 0 {
            self.scroll_offset = self.scroll_offset - 1;
            self.adjust_cursor_column();
        }
    }

    /// Moves the cursor down a line in a view showing `visible_lines` lines.
    pub fn move_cursor_down(&mut self, visible_lines: usize)
        requires
            old(self).wf(),
        ensures
            *final(self) == old(self).after_cursor_down(visible_lines),
            final(self).wf() || final(self).line_index() + 1 == usize::MAX,
    {
        let len = self.message_content.len();
        let total_lines = if len > 1 {
            len
        } else {
            1
        };
        let current_line = self.cursor_line + self.scroll_offset;
        if current_line + 1 < total_lines {
            if self.cursor_line + 1 < visible_lines {
                self.cursor_line = self.cursor_line + 1;
            } else {
                self.scroll_offset = self.scroll_offset + 1;
            }
            self.adjust_cursor_column();
        }
    }

    /// Moves the cursor a byte to the left.
    pub fn move_cursor_left(&mut self)
        ensures
            *final(self) == if old(self).cursor_col > 0 {
                old(self).with_cursor(
                    old(self).cursor_line,
                    (old(self).cursor_col - 1) as usize,
                    old(self).scroll_offset,
                )
            } else {
                *old(self)
            },
    {
        if self.cursor_col > 0 {
            self.cursor_col = self.cursor_col - 1;
        }
    }

    /// Moves the cursor a byte to the right, up to the end of its line.
    pub fn move_cursor_right(&mut self)
        requires
            old(self).wf(),
        ensures
            *final(self) == match old(self).cursor_line_text() {
                Some(t) => if old(self).cursor_col < byte_len(t) {
                    old(self).with_cursor(
                        old(self).cursor_line,
                        (old(self).cursor_col + 1) as usize,
                        old(self).scroll_offset,
                    )
                } else {
                    *old(self)
                },
                None => *old(self),
            },
    {
        if let Some(len) = self.cursor_line_len() {
            if self.cursor_col < len {
                self.cursor_col = self.cursor_col + 1;
            }
        }
    }

    /// Moves the cursor to the start of its line.
    pub fn move_cursor_to_line_start(&mut self)
        ensures
            *final(self) == old(self).with_cursor(old(self).cursor_line, 0, old(self).scroll_offset),
    {
        self.cursor_col = 0;
    }

    /// Moves the cursor to the end of its line.
    pub fn move_cursor_to_line_end(&mut self)
        requires
            old(self).wf(),
        ensures
            *final(self) == match old(self).cursor_line_text() {
                Some(t) => old(self).with_cursor(
                    old(self).cursor_line,
                    byte_len(t) as usize,
                    old(self).scroll_offset,
                ),
                None => *old(self),
            },
    {
        if let Some(len) = self.cursor_line_len() {
            self.cursor_col = len;
        }
    }

    /// Moves the cursor to the start of the first line.
    pub fn move_cursor_to_top(&mut self)
        ensures
            *final(self) == old(self).with_cursor(0, 0, 0),
    {
        self.cursor_line = 0;
        self.cursor_col = 0;
        self.scroll_offset = 0;
    }

    /// Scrolls to the last line and puts the cursor at its start.
    pub fn move_cursor_to_bottom(&mut self)
        ensures
            *final(self) == if old(self).content().len() > 0 {
                old(self).with_cursor(0, 0, (old(self).content().len() - 1) as usize)
            } else {
                *old(self)
            },
    {
        let len = self.message_content.len();
        if len > 0 {
            let last_line_idx = len - 1;
            self.scroll_offset = last_line_idx;
            self.cursor_line = 0;
            self.cursor_col = 0;
        }
    }

    /// Scrolls a page up or down.
    pub fn handle_page_navigation(&mut self, page_up: bool)
        requires
            old(self).cursor_line + old(self).scroll_offset + (if page_up {
                0
            } else {
                old(self).page_size()
            }) <= usize::MAX,
        ensures
            *final(self) == old(self).after_page(page_up),
    {
        let page_size = if self.visible_lines > 1 {
            self.visible_lines
        } else {
            1
        };
        if page_up {
            if self.scroll_offset >= page_size {
                self.scroll_offset = self.scroll_offset - page_size;
            } else {
                self.scroll_offset = 0;
                self.cursor_line = 0;
            }
        } else {
            let len = self.message_content.len();
            let total_lines = if len > 1 {
                len
            } else {
                1
            };
            let max_scroll = total_lines.saturating_sub(page_size);
            if self.scroll_offset + page_size <= max_scroll {
                self.scroll_offset = self.scroll_offset + page_size;
            } else {
                self.scroll_offset = max_scroll;
            }
        }
        self.adjust_cursor_column();
    }
}

/// `new` is `old` with editing switched: switched off, it records whether
/// the lines differ from those loaded.
pub open spec fn toggled(old: MessageDetails, new: MessageDetails) -> bool {
    &&& new.is_editing == !old.is_editing
    &&& new.is_dirty == if old.is_editing {
        old.content() != old.original()
    } else {
        old.is_dirty
    }
    &&& new.message_content == old.message_content
    &&& new.original_content == old.original_content
    &&& new.current_message == old.current_message
    &&& new.scroll_offset == old.scroll_offset
    &&& new.cursor_line == old.cursor_line
    &&& new.cursor_col == old.cursor_col
    &&& new.is_focused == old.is_focused
    &&& new.visible_lines == old.visible_lines
    &&& new.repeat_count == old.repeat_count
}

/// `new` is `old` with the lines as loaded, neither editing nor modified.
pub open spec fn restored(old: MessageDetails, new: MessageDetails) -> bool {
    &&& new.message_content@ == old.original_content@
    &&& !new.is_dirty && !new.is_editing
    &&& new.original_content == old.original_content
    &&& new.current_message == old.current_message
    &&& new.scroll_offset == old.scroll_offset
    &&& new.cursor_line == old.cursor_line
    &&& new.cursor_col == old.cursor_col
    &&& new.is_focused == old.is_focused
    &&& new.visible_lines == old.visible_lines
    &&& new.repeat_count == old.repeat_count
}

/// `new` is `old` after typing `ch`: inserted at the cursor (after adding
/// empty lines up to the cursor's line), the cursor one byte on; unchanged
/// outside editing.
pub open spec fn typed(old: MessageDetails, new: MessageDetails, ch: char) -> bool {
    &&& !old.is_editing ==> new == old
    &&& old.is_editing ==> {
        let line = old.padded_content()[old.line_index()];
        let k = boundary_index(line, old.cursor_col as int);
        &&& new.content() == old.padded_content().update(
            old.line_index(),
            line.take(k).push(ch) + line.skip(k),
        )
        &&& new.cursor_col == old.cursor_col + 1
        &&& new.cursor_line == old.cursor_line
        &&& new.is_dirty
        &&& old.same_settings(new)
    }
}

/// `new` is `old` after backspace: the character before the cursor removed
/// and the cursor on its start; unchanged where there is none to remove.
pub open spec fn deleted_backward(old: MessageDetails, new: MessageDetails) -> bool {
    &&& !old.deletes_backward() ==> new == old
    &&& old.deletes_backward() ==> {
        let line = old.cursor_line_text()->0;
        let k = boundary_index(line, old.cursor_col - 1);
        &&& new.content() == old.content().update(old.line_index(), line.take(k) + line.skip(k + 1))
        &&& new.cursor_col == old.cursor_col - 1
        &&& new.cursor_line == old.cursor_line
        &&& new.is_dirty
        &&& old.same_settings(new)
    }
}

/// `new` is `old` after delete: the character at the cursor removed;
/// unchanged where there is none.
pub open spec fn deleted_forward(old: MessageDetails, new: MessageDetails) -> bool {
    &&& !old.deletes_forward() ==> new == old
    &&& old.deletes_forward() ==> {
        let line = old.cursor_line_text()->0;
        let k = boundary_index(line, old.cursor_col as int);
        &&& new.content() == old.content().update(old.line_index(), line.take(k) + line.skip(k + 1))
        &&& new.cursor_col == old.cursor_col
        &&& new.cursor_line == old.cursor_line
        &&& new.is_dirty
        &&& old.same_settings(new)
    }
}

/// `new` is `old` after enter: the cursor's line split at the cursor, the
/// cursor at the start of the second part; unchanged outside editing or
/// below the last line.
pub open spec fn line_split(old: MessageDetails, new: MessageDetails) -> bool {
    &&& !old.splits_line() ==> new == old
    &&& old.splits_line() ==> {
        let i = old.line_index();
        let line = old.cursor_line_text()->0;
        let k = boundary_index(line, old.cursor_col as int);
        &&& new.content() == old.content().take(i) + seq![line.take(k), line.skip(k)]
            + old.content().skip(i + 1)
        &&& new.cursor_line == old.cursor_line + 1
        &&& new.cursor_col == 0
        &&& new.is_dirty
        &&& old.same_settings(new)
    }
}

/// Typing a character and erasing it with backspace gives back the lines
/// and the cursor, on a line that exists.
pub proof fn lemma_type_then_backspace(
    a: MessageDetails,
    b: MessageDetails,
    c: MessageDetails,
    ch: char,
)
    requires
        a.is_editing,
        a.line_index() < a.content().len(),
        a.can_insert(),
        typed(a, b, ch),
        deleted_backward(b, c),
    ensures
        c.content() == a.content(),
        c.cursor_line == a.cursor_line,
        c.cursor_col == a.cursor_col,
{
    let i = a.line_index();
    assert(a.padded_content() == a.content());
    let line = a.content()[i];
    let col = a.cursor_col as int;
    let k = boundary_index(line, col);
    assert(0 <= k <= line.len() && byte_len(line.take(k)) == col);
    let new_line = line.take(k).push(ch) + line.skip(k);
    assert(b.content() == a.content().update(i, new_line));
    assert(new_line.take(k) =~= line.take(k));
    lemma_boundary_index(new_line, k);
    assert(new_line[k] == ch);
    crate::text::lemma_byte_len_take_next(new_line, k);
    crate::text::lemma_byte_len_take_mono(new_line, k + 1, new_line.len() as int);
    assert(new_line.take(new_line.len() as int) =~= new_line);
    assert(b.line_index() == i);
    assert(b.cursor_line_text() == Some(new_line));
    assert(b.deletes_backward());
    assert(new_line.take(k) + new_line.skip(k + 1) =~= line);
    assert(a.content().update(i, new_line).update(i, line) =~= a.content());
}

/// Typing in edit mode inserts exactly the typed character at the cursor:
/// the cursor's line gains that one character, what stood before and after
/// the cursor is kept, the other lines stay, and the cursor moves on by one.
/// Outside edit mode nothing changes.
pub proof fn lemma_typing_inserts_the_character(old: MessageDetails, new: MessageDetails, ch: char)
    requires
        old.can_insert(),
        typed(old, new, ch),
    ensures
        !old.is_editing ==> new == old,
        old.is_editing ==> {
            let i = old.line_index();
            let lines = old.padded_content();
            let line = lines[i];
            &&& new.content().len() == lines.len()
            &&& new.content()[i].len() == line.len() + 1
            &&& forall|k: int|
                0 <= k <= line.len() && #[trigger] byte_len(line.take(k)) == old.cursor_col ==> {
                    &&& new.content()[i][k] == ch
                    &&& new.content()[i].take(k) == line.take(k)
                    &&& new.content()[i].skip(k + 1) == line.skip(k)
                }
            &&& forall|j: int| 0 <= j < lines.len() && j != i ==> new.content()[j] == lines[j]
            &&& new.cursor_line == old.cursor_line
            &&& new.cursor_col == old.cursor_col + 1
        },
{
    if old.is_editing {
        let i = old.line_index();
        let line = old.padded_content()[i];
        let col = old.cursor_col as int;
        let k0 = choose|k: int| 0 <= k <= line.len() && #[trigger] byte_len(line.take(k)) == col;
        lemma_boundary_index(line, k0);
        let nl = line.take(k0).push(ch) + line.skip(k0);
        assert forall|k: int|
            0 <= k <= line.len() && #[trigger] byte_len(line.take(k)) == old.cursor_col implies {
                &&& new.content()[i][k] == ch
                &&& new.content()[i].take(k) == line.take(k)
                &&& new.content()[i].skip(k + 1) == line.skip(k)
            } by {
            lemma_boundary_index(line, k);
            assert(nl.take(k) =~= line.take(k));
            assert(nl.skip(k + 1) =~= line.skip(k));
        }
    }
}

/// Backspace in edit mode removes exactly the character before the cursor:
/// the cursor's line loses that one character, the rest is kept, the other
/// lines stay, and the cursor moves back to where the character started.
/// At the start of a line, or outside edit mode, nothing changes.
pub proof fn lemma_backspace_removes_previous_character(old: MessageDetails, new: MessageDetails)
    requires
        old.can_delete_backward(),
        deleted_backward(old, new),
    ensures
        !old.is_editing ==> new == old,
        old.cursor_col == 0 ==> new == old,
        old.deletes_backward() ==> {
            let i = old.line_index();
            let line = old.content()[i];
            &&& new.content().len() == old.content().len()
            &&& new.content()[i].len() == line.len() - 1
            &&& forall|k: int|
                0 <= k <= line.len() && #[trigger] byte_len(line.take(k)) == old.cursor_col - 1 ==> {
                    &&& k < line.len()
                    &&& new.content()[i] == line.take(k) + line.skip(k + 1)
                }
            &&& forall|j: int| 0 <= j < old.content().len() && j != i ==> new.content()[j] == old.content()[j]
            &&& new.cursor_line == old.cursor_line
            &&& new.cursor_col == old.cursor_col - 1
        },
{
    if old.deletes_backward() {
        let i = old.line_index();
        let line = old.content()[i];
        let col = old.cursor_col - 1;
        let k0 = choose|k: int| 0 <= k <= line.len() && #[trigger] byte_len(line.take(k)) == col;
        lemma_boundary_index(line, k0);
        assert(line.take(line.len() as int) =~= line);
        assert(k0 < line.len());
        assert forall|k: int|
            0 <= k <= line.len() && #[trigger] byte_len(line.take(k)) == old.cursor_col - 1 implies {
                &&& k < line.len()
                &&& new.content()[i] == line.take(k) + line.skip(k + 1)
            } by {
            lemma_boundary_index(line, k);
        }
    }
}

/// Enter in edit mode splits the cursor's line at the cursor into two lines
/// that together give the old line back; the lines before stay, those after
/// move down by one, and the cursor goes to the start of the second part.
pub proof fn lemma_enter_splits_the_line(old: MessageDetails, new: MessageDetails)
    requires
        old.can_split_line(),
        line_split(old, new),
    ensures
        !old.is_editing ==> new == old,
        old.splits_line() ==> {
            let i = old.line_index();
            let line = old.content()[i];
            &&& new.content().len() == old.content().len() + 1
            &&& new.content()[i] + new.content()[i + 1] == line
            &&& forall|k: int|
                0 <= k <= line.len() && #[trigger] byte_len(line.take(k)) == old.cursor_col ==> {
                    &&& new.content()[i] == line.take(k)
                    &&& new.content()[i + 1] == line.skip(k)
                }
            &&& forall|j: int| 0 <= j < i ==> new.content()[j] == old.content()[j]
            &&& forall|j: int| i < j < old.content().len() ==> new.content()[j + 1] == old.content()[j]
            &&& new.cursor_line == old.cursor_line + 1
            &&& new.cursor_col == 0
        },
{
    if old.splits_line() {
        let i = old.line_index();
        let line = old.content()[i];
        let col = old.cursor_col as int;
        let k0 = choose|k: int| 0 <= k <= line.len() && #[trigger] byte_len(line.take(k)) == col;
        lemma_boundary_index(line, k0);
        assert(line.take(k0) + line.skip(k0) =~= line);
        let c = old.content();
        let nc = c.take(i) + seq![line.take(k0), line.skip(k0)] + c.skip(i + 1);
        assert(nc[i] == line.take(k0));
        assert(nc[i + 1] == line.skip(k0));
        assert forall|j: int| 0 <= j < i implies nc[j] == c[j] by {}
        assert forall|j: int| i < j < c.len() implies nc[j + 1] == c[j] by {
            assert(nc[j + 1] == c.skip(i + 1)[j - i - 1]);
        }
        assert forall|k: int|
            0 <= k <= line.len() && #[trigger] byte_len(line.take(k)) == old.cursor_col implies {
                &&& new.content()[i] == line.take(k)
                &&& new.content()[i + 1] == line.skip(k)
            } by {
            lemma_boundary_index(line, k);
        }
    }
}

/// Moving the cursor up or down goes to the neighbouring line of the body,
/// and no further than its first or last line; the text is untouched, and the
/// column is kept, or brought back to the end of a shorter line.
pub proof fn lemma_cursor_moves_between_lines(m: MessageDetails, visible_lines: usize)
    requires
        m.wf(),
    ensures
        m.after_cursor_up().line_index() == (if m.line_index() > 0 {
            m.line_index() - 1
        } else {
            0
        }),
        m.after_cursor_up().message_content == m.message_content,
        m.after_cursor_up().is_editing == m.is_editing,
        m.after_cursor_up().cursor_col <= m.cursor_col,
        (m.after_cursor_up().cursor_line_text() is Some && m.cursor_col <= byte_len(
            m.after_cursor_up().cursor_line_text()->Some_0,
        )) ==> m.after_cursor_up().cursor_col == m.cursor_col,
        (m.line_index() > 0 && m.after_cursor_up().cursor_line_text() is Some && m.cursor_col
            > byte_len(m.after_cursor_up().cursor_line_text()->Some_0)) ==> m.after_cursor_up().cursor_col
            == byte_len(m.after_cursor_up().cursor_line_text()->Some_0) as usize,
        m.after_cursor_down(visible_lines).line_index() == (if m.line_index() + 1 < m.content().len() {
            m.line_index() + 1
        } else {
            m.line_index()
        }),
        m.after_cursor_down(visible_lines).message_content == m.message_content,
        m.after_cursor_down(visible_lines).is_editing == m.is_editing,
        m.after_cursor_down(visible_lines).cursor_col <= m.cursor_col,
        (m.after_cursor_down(visible_lines).cursor_line_text() is Some && m.cursor_col <= byte_len(
            m.after_cursor_down(visible_lines).cursor_line_text()->Some_0,
        )) ==> m.after_cursor_down(visible_lines).cursor_col == m.cursor_col,
        (m.line_index() + 1 < m.content().len() && m.after_cursor_down(
            visible_lines,
        ).cursor_line_text() is Some && m.cursor_col > byte_len(
            m.after_cursor_down(visible_lines).cursor_line_text()->Some_0,
        )) ==> m.after_cursor_down(visible_lines).cursor_col == byte_len(
            m.after_cursor_down(visible_lines).cursor_line_text()->Some_0,
        ) as usize,
{
}

/// Page up scrolls back by a page (the lines shown, at least one), or to the
/// top with the cursor on the first line; page down scrolls on by a page, no
/// further than where the last page starts. The text is untouched.
pub proof fn lemma_page_scrolls_by_a_page(m: MessageDetails)
    requires
        m.wf(),
    ensures
        ({
            let page = if m.visible_lines > 1 {
                m.visible_lines as int
            } else {
                1
            };
            let total = if m.content().len() > 1 {
                m.content().len() as int
            } else {
                1
            };
            let last_start = if total > page {
                total - page
            } else {
                0
            };
            &&& m.after_page(true).scroll_offset == (if m.scroll_offset >= page {
                m.scroll_offset - page
            } else {
                0
            })
            &&& m.scroll_offset < page ==> m.after_page(true).cursor_line == 0
            &&& m.scroll_offset >= page ==> m.after_page(true).cursor_line == m.cursor_line
            &&& m.after_page(false).scroll_offset == (if m.scroll_offset + page <= last_start {
                m.scroll_offset + page
            } else {
                last_start
            })
            &&& m.after_page(false).cursor_line == m.cursor_line
            &&& m.after_page(true).message_content == m.message_content
            &&& m.after_page(false).message_content == m.message_content
        }),
{
    assert(m.content().len() == m.message_content@.len());
    assert(m.message_content@.len() == m.message_content.len());
}

/// Delete in edit mode removes exactly one character, the one at the cursor:
/// the cursor's line loses one character, what stands before and after it is
/// kept, the other lines and the cursor stay. Outside edit mode, or with the
/// cursor at the end of its line, nothing changes.
pub proof fn lemma_delete_removes_one_character(old: MessageDetails, new: MessageDetails)
    requires
        old.can_delete_forward(),
        deleted_forward(old, new),
    ensures
        !old.is_editing ==> new == old,
        (old.cursor_line_text() matches Some(t) && old.cursor_col >= byte_len(t)) ==> new == old,
        old.deletes_forward() ==> {
            let i = old.line_index();
            let line = old.content()[i];
            &&& new.content().len() == old.content().len()
            &&& new.content()[i].len() == line.len() - 1
            &&& exists|k: int| 0 <= k < line.len() && #[trigger] byte_len(line.take(k)) == old.cursor_col
            &&& forall|k: int|
                0 <= k <= line.len() && #[trigger] byte_len(line.take(k)) == old.cursor_col ==> {
                    &&& k < line.len()
                    &&& new.content()[i] == line.take(k) + line.skip(k + 1)
                }
            &&& forall|j: int| 0 <= j < old.content().len() && j != i ==> new.content()[j] == old.content()[j]
            &&& new.cursor_line == old.cursor_line
            &&& new.cursor_col == old.cursor_col
            &&& new.is_dirty
        },
{
    if old.deletes_forward() {
        let i = old.line_index();
        let line = old.content()[i];
        let col = old.cursor_col as int;
        let k0 = choose|k: int| 0 <= k <= line.len() && #[trigger] byte_len(line.take(k)) == col;
        lemma_boundary_index(line, k0);
        assert(line.take(line.len() as int) =~= line);
        assert(k0 < line.len());
        assert(boundary_index(line, col) == k0);
        assert forall|k: int|
            0 <= k <= line.len() && #[trigger] byte_len(line.take(k)) == old.cursor_col implies {
                &&& k < line.len()
                &&& new.content()[i] == line.take(k) + line.skip(k + 1)
            } by {
            lemma_boundary_index(line, k);
        }
        assert((line.take(k0) + line.skip(k0 + 1)).len() == line.len() - 1);
    }
}

/// A byte boundary short of the end of a text is followed by a character.
proof fn lemma_boundary_before_end(s: Seq<char>, b: int)
    requires
        is_boundary(s, b),
        b < byte_len(s),
    ensures
        boundary_index(s, b) < s.len(),
{
    assert(s.take(s.len() as int) =~= s);
}

impl MessageDetails {
    /// Everything but the lines, the cursor and the change flags is the same
    /// in `self` and `other`.
    pub open spec fn same_settings(self, other: Self) -> bool {
        &&& other.original_content == self.original_content
        &&& other.current_message == self.current_message
        &&& other.scroll_offset == self.scroll_offset
        &&& other.is_focused == self.is_focused
        &&& other.visible_lines == self.visible_lines
        &&& other.is_editing == self.is_editing
        &&& other.repeat_count == self.repeat_count
    }

    /// The lines, with empty lines appended up to the cursor's line.
    pub open spec fn padded_content(self) -> Seq<Seq<char>> {
        let i = self.line_index();
        if i < self.content().len() {
            self.content()
        } else {
            self.content() + Seq::new(
                (i + 1 - self.content().len()) as nat,
                |j: int| Seq::<char>::empty(),
            )
        }
    }

    /// A character can be typed: the cursor's column lies between two
    /// characters of its line (of an added empty line, only column 0 does).
    pub open spec fn can_insert(self) -> bool {
        self.is_editing ==> (self.cursor_col < usize::MAX && is_boundary(
            self.padded_content()[self.line_index()],
            self.cursor_col as int,
        ))
    }

    /// Backspace would remove a character of the cursor's line.
    pub open spec fn deletes_backward(self) -> bool {
        &&& self.is_editing
        &&& self.cursor_col > 0
        &&& self.cursor_line_text() matches Some(t) && self.cursor_col <= byte_len(t)
    }

    /// Backspace can proceed: where it removes a character, the byte before
    /// the cursor starts one.
    pub open spec fn can_delete_backward(self) -> bool {
        self.deletes_backward() ==> is_boundary(
            self.cursor_line_text()->0,
            self.cursor_col - 1,
        )
    }

    /// Delete would remove a character of the cursor's line.
    pub open spec fn deletes_forward(self) -> bool {
        &&& self.is_editing
        &&& self.cursor_line_text() matches Some(t) && self.cursor_col < byte_len(t)
    }

    /// Delete can proceed: where it removes a character, the cursor is at its
    /// start.
    pub open spec fn can_delete_forward(self) -> bool {
        self.deletes_forward() ==> is_boundary(self.cursor_line_text()->0, self.cursor_col as int)
    }

    /// Enter would split the cursor's line.
    pub open spec fn splits_line(self) -> bool {
        self.is_editing && self.cursor_line_text() is Some
    }

    /// Enter can proceed: where it splits the line, the cursor lies between
    /// two characters.
    pub open spec fn can_split_line(self) -> bool {
        self.splits_line() ==> is_boundary(self.cursor_line_text()->0, self.cursor_col as int)
    }

    /// Switches editing on or off; switching off records whether the lines
    /// differ from those loaded.
    pub fn toggle_edit_mode(&mut self)
        ensures
            toggled(*old(self), *final(self)),
    {
        self.is_editing = !self.is_editing;
        if !self.is_editing {
            self.is_dirty = !same_lines(&self.message_content, &self.original_content);
        }
    }

    /// Puts back the lines as loaded and leaves editing.
    pub fn restore_original_content(&mut self)
        ensures
            restored(*old(self), *final(self)),
    {
        self.message_content = copy_lines(&self.original_content);
        self.is_dirty = false;
        self.is_editing = false;
    }

    /// Types `ch` at the cursor, adding empty lines first where the cursor is
    /// below the last line; the cursor moves one byte on. Nothing happens
    /// outside editing.
    pub fn insert_char(&mut self, ch: char)
        requires
            old(self).wf(),
            old(self).can_insert(),
        ensures
            typed(*old(self), *final(self), ch),
    {
        if !self.is_editing {
            return;
        }
        let line_idx = self.cursor_line + self.scroll_offset;
        while line_idx >= self.message_content.len()
            invariant
                line_idx == old(self).line_index(),
                line_idx < usize::MAX,
                self.content() =~= (if line_idx < self.content().len() {
                    old(self).padded_content()
                } else {
                    old(self).padded_content().take(self.content().len() as int)
                }),
                self.content().len() >= old(self).content().len(),
                self.content().len() > line_idx ==> self.content() == old(self).padded_content(),
                self.content().len() <= line_idx + 1 || self.content() == old(self).content(),
                *self == (MessageDetails { message_content: self.message_content, ..*old(self) }),
            decreases line_idx + 1 - self.message_content.len(),
        {
            self.message_content.push(String::new());
            proof {
                assert(self.content() =~= old(self).padded_content().take(self.content().len() as int)
                    || self.content() =~= old(self).padded_content());
            }
        }
        let col = self.cursor_col;
        string_insert(&mut self.message_content[line_idx], col, ch);
        self.cursor_col = col + 1;
        self.is_dirty = true;
        proof {
            let line = old(self).padded_content()[line_idx as int];
            let k = boundary_index(line, col as int);
            assert(self.content() =~= old(self).padded_content().update(
                line_idx as int,
                line.take(k).push(ch) + line.skip(k),
            ));
        }
    }

    /// Backspace: removes the character before the cursor, which moves back
    /// onto its start.
    pub fn delete_char_backward(&mut self)
        requires
            old(self).wf(),
            old(self).can_delete_backward(),
        ensures
            deleted_backward(*old(self), *final(self)),
    {
        if !self.is_editing || self.cursor_col == 0 {
            return;
        }
        let line_idx = self.cursor_line + self.scroll_offset;
        if line_idx < self.message_content.len() {
            let len = str_byte_len(self.message_content[line_idx].as_str());
            if self.cursor_col > 0 && self.cursor_col <= len {
                let col = self.cursor_col;
                proof {
                    lemma_boundary_before_end(old(self).content()[line_idx as int], col - 1);
                }
                string_remove(&mut self.message_content[line_idx], col - 1);
                self.cursor_col = col - 1;
                self.is_dirty = true;
                proof {
                    let line = old(self).content()[line_idx as int];
                    let k = boundary_index(line, col - 1);
                    assert(self.content() =~= old(self).content().update(
                        line_idx as int,
                        line.take(k) + line.skip(k + 1),
                    ));
                }
            }
        }
    }

    /// Delete: removes the character at the cursor.
    pub fn delete_char_forward(&mut self)
        requires
            old(self).wf(),
            old(self).can_delete_forward(),
        ensures
            deleted_forward(*old(self), *final(self)),
    {
        if !self.is_editing {
            return;
        }
        let line_idx = self.cursor_line + self.scroll_offset;
        if line_idx < self.message_content.len() {
            let len = str_byte_len(self.message_content[line_idx].as_str());
            if self.cursor_col < len {
                let col = self.cursor_col;
                proof {
                    lemma_boundary_before_end(old(self).content()[line_idx as int], col as int);
                }
                string_remove(&mut self.message_content[line_idx], col);
                self.is_dirty = true;
                proof {
                    let line = old(self).content()[line_idx as int];
                    let k = boundary_index(line, col as int);
                    assert(self.content() =~= old(self).content().update(
                        line_idx as int,
                        line.take(k) + line.skip(k + 1),
                    ));
                }
            }
        }
    }

    /// Enter: splits the cursor's line at the cursor, which moves to the
    /// start of the new line.
    pub fn insert_newline(&mut self)
        requires
            old(self).wf(),
            old(self).can_split_line(),
        ensures
            line_split(*old(self), *final(self)),
    {
        if !self.is_editing {
            return;
        }
        let line_idx = self.cursor_line + self.scroll_offset;
        if line_idx < self.message_content.len() {
            let col = self.cursor_col;
            let new_line = string_split_off(&mut self.message_content[line_idx], col);
            self.message_content.insert(line_idx + 1, new_line);
            self.cursor_line = self.cursor_line + 1;
            self.cursor_col = 0;
            self.is_dirty = true;
            proof {
                let i = line_idx as int;
                let line = old(self).content()[i];
                let k = boundary_index(line, col as int);
                assert(self.content() =~= old(self).content().take(i) + seq![
                    line.take(k),
                    line.skip(k),
                ] + old(self).content().skip(i + 1));
            }
        }
    }
}

/// The outcome of the checks for a message sent to Azure Service Bus.
pub open spec fn azure_message_check(input: Seq<char>) -> Result<(), MessageValidationErrorView> {
    let content = lift_common(string_length_outcome(content_field(), Some(1usize), None, trim(input)));
    let size = lift_common(
        string_length_outcome(content_field(), None, Some(AZURE_MAX_MESSAGE_SIZE), input),
    );
    if content is Err {
        content
    } else if size is Err {
        size
    } else if encoding_outcome(input) is Err {
        encoding_outcome(input)
    } else {
        JsonFormatValidator::json_outcome(json_parse_error(input))
    }
}


// ---------------------------------------------------------------------------
// Keys of the detail view
// ---------------------------------------------------------------------------

/// What a key asks of the detail view.
#[derive(Debug, Clone, Copy, PartialEq, Eq, Structural)]
pub enum DetailsCommand {
    Cancel,
    Send,
    Replace,
    StartEditing,
    Insert(char),
    DeleteBackward,
    DeleteForward,
    NewLine,
    Up,
    Down,
    Left,
    Right,
    PageUp,
    PageDown,
    Home,
    End,
    Copy,
    Yank,
    Ignore,
}

/// The command of a key, by the first binding, in the order in which the
/// view tests them, that the key matches while editing or not.
pub open spec fn details_command(key: KeyInput, keys: KeyBindingsConfig, editing: bool) -> DetailsCommand {
    let plain = key.modifiers.is_none();
    match key.code {
        KeyCode::Esc => if plain {
            DetailsCommand::Cancel
        } else {
            DetailsCommand::Ignore
        },
        KeyCode::Char(c) => if key.modifiers.is_control_only() {
            if c == keys.send_edited_message() {
                DetailsCommand::Send
            } else if c == keys.replace_edited_message() {
                DetailsCommand::Replace
            } else if c == keys.copy_message() {
                DetailsCommand::Copy
            } else {
                DetailsCommand::Ignore
            }
        } else if plain {
            if (c == 'e' || c == 'i') && !editing {
                DetailsCommand::StartEditing
            } else if editing {
                DetailsCommand::Insert(c)
            } else if c == keys.yank_message() {
                DetailsCommand::Yank
            } else {
                DetailsCommand::Ignore
            }
        } else if key.modifiers.is_shift_only() && editing {
            DetailsCommand::Insert(c)
        } else {
            DetailsCommand::Ignore
        },
        KeyCode::Backspace => if plain && editing {
            DetailsCommand::DeleteBackward
        } else {
            DetailsCommand::Ignore
        },
        KeyCode::Delete => if plain && editing {
            DetailsCommand::DeleteForward
        } else {
            DetailsCommand::Ignore
        },
        KeyCode::Enter => if plain && editing {
            DetailsCommand::NewLine
        } else {
            DetailsCommand::Ignore
        },
        KeyCode::Up => if plain {
            DetailsCommand::Up
        } else {
            DetailsCommand::Ignore
        },
        KeyCode::Down => if plain {
            DetailsCommand::Down
        } else {
            DetailsCommand::Ignore
        },
        KeyCode::Left => if plain {
            DetailsCommand::Left
        } else {
            DetailsCommand::Ignore
        },
        KeyCode::Right => if plain {
            DetailsCommand::Right
        } else {
            DetailsCommand::Ignore
        },
        KeyCode::PageUp => if plain {
            DetailsCommand::PageUp
        } else {
            DetailsCommand::Ignore
        },
        KeyCode::PageDown => if plain {
            DetailsCommand::PageDown
        } else {
            DetailsCommand::Ignore
        },
        KeyCode::Home => if plain {
            DetailsCommand::Home
        } else {
            DetailsCommand::Ignore
        },
        KeyCode::End => if plain {
            DetailsCommand::End
        } else {
            DetailsCommand::Ignore
        },
        _ => DetailsCommand::Ignore,
    }
}

/// The command of a key.
fn details_command_of(key: KeyInput, keys: &KeyBindingsConfig, editing: bool) -> (r: DetailsCommand)
    ensures
        r == details_command(key, *keys, editing),
{
    let plain = key.modifiers.plain();
    match key.code {
        KeyCode::Esc => if plain {
            DetailsCommand::Cancel
        } else {
            DetailsCommand::Ignore
        },
        KeyCode::Char(c) => if key.modifiers.control_only() {
            if c == keys.send_edited_message() {
                DetailsCommand::Send
            } else if c == keys.replace_edited_message() {
                DetailsCommand::Replace
            } else if c == keys.copy_message() {
                DetailsCommand::Copy
            } else {
                DetailsCommand::Ignore
            }
        } else if plain {
            if (c == 'e' || c == 'i') && !editing {
                DetailsCommand::StartEditing
            } else if editing {
                DetailsCommand::Insert(c)
            } else if c == keys.yank_message() {
                DetailsCommand::Yank
            } else {
                DetailsCommand::Ignore
            }
        } else if key.modifiers.shift_only() && editing {
            DetailsCommand::Insert(c)
        } else {
            DetailsCommand::Ignore
        },
        KeyCode::Backspace => if plain && editing {
            DetailsCommand::DeleteBackward
        } else {
            DetailsCommand::Ignore
        },
        KeyCode::Delete => if plain && editing {
            DetailsCommand::DeleteForward
        } else {
            DetailsCommand::Ignore
        },
        KeyCode::Enter => if plain && editing {
            DetailsCommand::NewLine
        } else {
            DetailsCommand::Ignore
        },
        KeyCode::Up => if plain {
            DetailsCommand::Up
        } else {
            DetailsCommand::Ignore
        },
        KeyCode::Down => if plain {
            DetailsCommand::Down
        } else {
            DetailsCommand::Ignore
        },
        KeyCode::Left => if plain {
            DetailsCommand::Left
        } else {
            DetailsCommand::Ignore
        },
        KeyCode::Right => if plain {
            DetailsCommand::Right
        } else {
            DetailsCommand::Ignore
        },
        KeyCode::PageUp => if plain {
            DetailsCommand::PageUp
        } else {
            DetailsCommand::Ignore
        },
        KeyCode::PageDown => if plain {
            DetailsCommand::PageDown
        } else {
            DetailsCommand::Ignore
        },
        KeyCode::Home => if plain {
            DetailsCommand::Home
        } else {
            DetailsCommand::Ignore
        },
        KeyCode::End => if plain {
            DetailsCommand::End
        } else {
            DetailsCommand::Ignore
        },
        _ => DetailsCommand::Ignore,
    }
}

/// What the detail view answers a key with: a message for the application,
/// or the body to put on the clipboard (`yank` for the yank key), after
/// which [`clipboard_reply`] gives the message.
#[derive(Debug)]
pub enum DetailsAction {
    Reply(Option<Msg>),
    CopyToClipboard { content: String, yank: bool },
}

/// `r` replies with `m`.
pub open spec fn replies(r: DetailsAction, m: Msg) -> bool {
    r == DetailsAction::Reply(Some(m))
}

/// `r` shows a success popup with `text`.
pub open spec fn shows_success(r: DetailsAction, text: Seq<char>) -> bool {
    r matches DetailsAction::Reply(Some(Msg::PopupActivity(PopupActivityMsg::ShowSuccess(t))))
        && t@ == text
}

/// `r` shows the configuration error that a failed check `v` is reported as.
pub open spec fn shows_check_failure(r: DetailsAction, v: MessageValidationErrorView) -> bool {
    r matches DetailsAction::Reply(
        Some(Msg::PopupActivity(PopupActivityMsg::ShowError(AppError::Config(m)))),
    ) && m@ == v.message()
}

/// The answer to sending the edited body: the body where it passes the
/// checks, the first failure otherwise.
pub open spec fn send_reply(old: MessageDetails, r: DetailsAction) -> bool {
    let body = join_with(old.content(), "\n"@);
    match azure_message_check(body) {
        Ok(()) => r matches DetailsAction::Reply(
            Some(Msg::MessageActivity(MessageActivityMsg::SendEditedMessage(b))),
        ) && b@ == body,
        Err(v) => shows_check_failure(r, v),
    }
}

/// The answer to replacing message `m` with the edited body.
pub open spec fn replace_reply(old: MessageDetails, m: MessageModel, r: DetailsAction) -> bool {
    let body = join_with(old.content(), "\n"@);
    match azure_message_check(body) {
        Ok(()) => r matches DetailsAction::Reply(
            Some(Msg::MessageActivity(MessageActivityMsg::ReplaceEditedMessage(b, id))),
        ) && b@ == body && id.id@ == m.id@ && id.sequence == m.sequence,
        Err(v) => shows_check_failure(r, v),
    }
}

/// `r` asks to copy the edited body to the clipboard.
pub open spec fn copies(old: MessageDetails, r: DetailsAction, yank: bool) -> bool {
    r matches DetailsAction::CopyToClipboard { content, yank: y } && y == yank && content@
        == join_with(old.content(), "\n"@)
}

/// The answer of the view in state `old` to command `cmd`: its new state
/// `new` and the action `r`.
pub open spec fn details_response(
    old: MessageDetails,
    new: MessageDetails,
    cmd: DetailsCommand,
    r: DetailsAction,
) -> bool {
    let redraw = replies(r, Msg::ForceRedraw);
    match cmd {
        DetailsCommand::Cancel => if old.is_editing {
            restored(old, new) && replies(
                r,
                Msg::MessageActivity(MessageActivityMsg::EditingModeStopped),
            )
        } else {
            new == old && replies(r, Msg::MessageActivity(MessageActivityMsg::CancelEditMessage))
        },
        DetailsCommand::Send => new == old && if old.is_editing && old.is_dirty {
            send_reply(old, r)
        } else if old.is_editing {
            shows_success(r, "ℹ️ No changes to send - content is unchanged"@)
        } else {
            redraw
        },
        DetailsCommand::Replace => new == old && if old.is_editing && old.is_dirty {
            match old.current_message {
                Some(m) => replace_reply(old, m, r),
                None => r matches DetailsAction::Reply(
                    Some(Msg::PopupActivity(PopupActivityMsg::ShowError(AppError::State(t)))),
                ) && t@ == "No message available for replacement"@,
            }
        } else if old.is_editing {
            shows_success(r, "ℹ️ No changes to replace - content is unchanged"@)
        } else {
            redraw
        },
        DetailsCommand::StartEditing => toggled(old, new) && replies(
            r,
            Msg::MessageActivity(MessageActivityMsg::EditingModeStarted),
        ),
        DetailsCommand::Insert(c) => typed(old, new, c) && redraw,
        DetailsCommand::DeleteBackward => deleted_backward(old, new) && redraw,
        DetailsCommand::DeleteForward => deleted_forward(old, new) && redraw,
        DetailsCommand::NewLine => line_split(old, new) && redraw,
        DetailsCommand::Up => new == old.after_cursor_up() && redraw,
        DetailsCommand::Down => new == old.after_cursor_down(old.visible_lines) && redraw,
        DetailsCommand::Left => new == (if old.cursor_col > 0 {
            old.with_cursor(old.cursor_line, (old.cursor_col - 1) as usize, old.scroll_offset)
        } else {
            old
        }) && redraw,
        DetailsCommand::Right => new == (match old.cursor_line_text() {
            Some(t) => if old.cursor_col < byte_len(t) {
                old.with_cursor(old.cursor_line, (old.cursor_col + 1) as usize, old.scroll_offset)
            } else {
                old
            },
            None => old,
        }) && redraw,
        DetailsCommand::PageUp => new == old.after_page(true) && redraw,
        DetailsCommand::PageDown => new == old.after_page(false) && redraw,
        DetailsCommand::Home => new == (if old.is_editing {
            old.with_cursor(old.cursor_line, 0, old.scroll_offset)
        } else {
            old.with_cursor(0, 0, 0)
        }) && redraw,
        DetailsCommand::End => new == (if old.is_editing {
            match old.cursor_line_text() {
                Some(t) => old.with_cursor(old.cursor_line, byte_len(t) as usize, old.scroll_offset),
                None => old,
            }
        } else if old.content().len() > 0 {
            old.with_cursor(0, 0, (old.content().len() - 1) as usize)
        } else {
            old
        }) && redraw,
        DetailsCommand::Copy => new == old && copies(old, r, false),
        DetailsCommand::Yank => new == old && copies(old, r, true),
        DetailsCommand::Ignore => new == old && redraw,
    }
}

impl MessageDetails {
    /// The key can be handled without an edit at a byte position inside a
    /// character, and without overflowing a position.
    pub open spec fn can_handle(self, key: KeyInput, keys: KeyBindingsConfig) -> bool {
        match details_command(key, keys, self.is_editing) {
            DetailsCommand::Insert(_) => self.can_insert(),
            DetailsCommand::DeleteBackward => self.can_delete_backward(),
            DetailsCommand::DeleteForward => self.can_delete_forward(),
            DetailsCommand::NewLine => self.can_split_line(),
            DetailsCommand::PageDown => self.cursor_line + self.scroll_offset + self.page_size()
                <= usize::MAX,
            _ => true,
        }
    }

    /// Whether the byte position `col` of line `idx` lies between two
    /// characters.
    fn boundary_in_line(&self, idx: usize, col: usize) -> (r: bool)
        requires
            idx < self.message_content.len(),
        ensures
            r == is_boundary(self.content()[idx as int], col as int),
    {
        char_index_at(self.message_content[idx].as_str(), col).is_some()
    }

    /// Whether [`MessageDetails::handle_event`] can take `key` (see
    /// [`MessageDetails::can_handle`]).
    pub fn can_handle_key(&self, key: KeyInput, keys: &KeyBindingsConfig) -> (r: bool)
        requires
            self.wf(),
        ensures
            r == self.can_handle(key, *keys),
    {
        let idx = self.cursor_line + self.scroll_offset;
        let len = self.message_content.len();
        match details_command_of(key, keys, self.is_editing) {
            DetailsCommand::Insert(_) => {
                if !self.is_editing {
                    return true;
                }
                if self.cursor_col == usize::MAX {
                    return false;
                }
                if idx < len {
                    self.boundary_in_line(idx, self.cursor_col)
                } else {
                    proof {
                        let p = self.padded_content();
                        assert(p[idx as int] == Seq::<char>::empty());
                        assert(Seq::<char>::empty().take(0) =~= Seq::<char>::empty());
                        assert(byte_len(Seq::<char>::empty()) == 0);
                        if self.cursor_col != 0 {
                            assert forall|k: int|
                                0 <= k <= Seq::<char>::empty().len() implies #[trigger] byte_len(
                                Seq::<char>::empty().take(k),
                            ) != self.cursor_col by {
                                assert(Seq::<char>::empty().take(k) =~= Seq::<char>::empty());
                            }
                        } else {
                            assert(0 <= 0 <= Seq::<char>::empty().len() && byte_len(
                                Seq::<char>::empty().take(0),
                            ) == 0);
                        }
                    }
                    self.cursor_col == 0
                }
            },
            DetailsCommand::DeleteBackward => {
                if self.is_editing && self.cursor_col > 0 && idx < len {
                    let n = str_byte_len(self.message_content[idx].as_str());
                    if self.cursor_col <= n {
                        return self.boundary_in_line(idx, self.cursor_col - 1);
                    }
                }
                true
            },
            DetailsCommand::DeleteForward => {
                if self.is_editing && idx < len {
                    let n = str_byte_len(self.message_content[idx].as_str());
                    if self.cursor_col < n {
                        return self.boundary_in_line(idx, self.cursor_col);
                    }
                }
                true
            },
            DetailsCommand::NewLine => {
                if self.is_editing && idx < len {
                    return self.boundary_in_line(idx, self.cursor_col);
                }
                true
            },
            DetailsCommand::PageDown => {
                let page = if self.visible_lines > 1 {
                    self.visible_lines
                } else {
                    1
                };
                page <= usize::MAX - idx
            },
            _ => true,
        }
    }

    /// Answers a key (see [`details_command`] and [`details_response`]).
    /// Esc cancels editing, restoring the loaded lines, or leaves the view;
    /// the send and replace keys check the edited body first; typing edits
    /// only in edit mode; the copy and yank keys ask for the body to be put on
    /// the clipboard.
    pub fn handle_event(&mut self, key: KeyInput, keys: &KeyBindingsConfig) -> (r: DetailsAction)
        requires
            old(self).wf(),
            old(self).can_handle(key, *keys),
        ensures
            details_response(*old(self), *final(self), details_command(key, *keys, old(self).is_editing), r),
    {
        match details_command_of(key, keys, self.is_editing) {
            DetailsCommand::Cancel => {
                if self.is_editing {
                    self.restore_original_content();
                    DetailsAction::Reply(
                        Some(Msg::MessageActivity(MessageActivityMsg::EditingModeStopped)),
                    )
                } else {
                    DetailsAction::Reply(
                        Some(Msg::MessageActivity(MessageActivityMsg::CancelEditMessage)),
                    )
                }
            },
            DetailsCommand::Send => {
                if self.is_editing && self.is_dirty {
                    let edited_content = self.get_edited_content();
                    match self.validate_message_content(edited_content.as_str()) {
                        Err(validation_error) => DetailsAction::Reply(
                            Some(Msg::PopupActivity(PopupActivityMsg::ShowError(validation_error))),
                        ),
                        Ok(()) => DetailsAction::Reply(
                            Some(
                                Msg::MessageActivity(
                                    MessageActivityMsg::SendEditedMessage(edited_content),
                                ),
                            ),
                        ),
                    }
                } else if self.is_editing {
                    DetailsAction::Reply(
                        Some(
                            Msg::PopupActivity(
                                PopupActivityMsg::ShowSuccess(
                                    owned("ℹ️ No changes to send - content is unchanged"),
                                ),
                            ),
                        ),
                    )
                } else {
                    DetailsAction::Reply(Some(Msg::ForceRedraw))
                }
            },
            DetailsCommand::Replace => {
                if self.is_editing && self.is_dirty {
                    match &self.current_message {
                        Some(message) => {
                            let edited_content = self.get_edited_content();
                            match self.validate_message_content(edited_content.as_str()) {
                                Err(validation_error) => DetailsAction::Reply(
                                    Some(
                                        Msg::PopupActivity(
                                            PopupActivityMsg::ShowError(validation_error),
                                        ),
                                    ),
                                ),
                                Ok(()) => {
                                    let message_id = MessageIdentifier::from_message(message);
                                    DetailsAction::Reply(
                                        Some(
                                            Msg::MessageActivity(
                                                MessageActivityMsg::ReplaceEditedMessage(
                                                    edited_content,
                                                    message_id,
                                                ),
                                            ),
                                        ),
                                    )
                                },
                            }
                        },
                        None => DetailsAction::Reply(
                            Some(
                                Msg::PopupActivity(
                                    PopupActivityMsg::ShowError(
                                        AppError::State(owned("No message available for replacement")),
                                    ),
                                ),
                            ),
                        ),
                    }
                } else if self.is_editing {
                    DetailsAction::Reply(
                        Some(
                            Msg::PopupActivity(
                                PopupActivityMsg::ShowSuccess(
                                    owned("ℹ️ No changes to replace - content is unchanged"),
                                ),
                            ),
                        ),
                    )
                } else {
                    DetailsAction::Reply(Some(Msg::ForceRedraw))
                }
            },
            DetailsCommand::StartEditing => {
                self.toggle_edit_mode();
                DetailsAction::Reply(
                    Some(Msg::MessageActivity(MessageActivityMsg::EditingModeStarted)),
                )
            },
            DetailsCommand::Insert(ch) => {
                self.insert_char(ch);
                DetailsAction::Reply(Some(Msg::ForceRedraw))
            },
            DetailsCommand::DeleteBackward => {
                self.delete_char_backward();
                DetailsAction::Reply(Some(Msg::ForceRedraw))
            },
            DetailsCommand::DeleteForward => {
                self.delete_char_forward();
                DetailsAction::Reply(Some(Msg::ForceRedraw))
            },
            DetailsCommand::NewLine => {
                self.insert_newline();
                DetailsAction::Reply(Some(Msg::ForceRedraw))
            },
            DetailsCommand::Up => {
                self.move_cursor_up();
                DetailsAction::Reply(Some(Msg::ForceRedraw))
            },
            DetailsCommand::Down => {
                let visible = self.visible_lines;
                self.move_cursor_down(visible);
                DetailsAction::Reply(Some(Msg::ForceRedraw))
            },
            DetailsCommand::Left => {
                self.move_cursor_left();
                DetailsAction::Reply(Some(Msg::ForceRedraw))
            },
            DetailsCommand::Right => {
                self.move_cursor_right();
                DetailsAction::Reply(Some(Msg::ForceRedraw))
            },
            DetailsCommand::PageUp => {
                self.handle_page_navigation(true);
                DetailsAction::Reply(Some(Msg::ForceRedraw))
            },
            DetailsCommand::PageDown => {
                self.handle_page_navigation(false);
                DetailsAction::Reply(Some(Msg::ForceRedraw))
            },
            DetailsCommand::Home => {
                if self.is_editing {
                    self.move_cursor_to_line_start();
                } else {
                    self.move_cursor_to_top();
                }
                DetailsAction::Reply(Some(Msg::ForceRedraw))
            },
            DetailsCommand::End => {
                if self.is_editing {
                    self.move_cursor_to_line_end();
                } else {
                    self.move_cursor_to_bottom();
                }
                DetailsAction::Reply(Some(Msg::ForceRedraw))
            },
            DetailsCommand::Copy => DetailsAction::CopyToClipboard {
                content: self.get_edited_content(),
                yank: false,
            },
            DetailsCommand::Yank => DetailsAction::CopyToClipboard {
                content: self.get_edited_content(),
                yank: true,
            },
            DetailsCommand::Ignore => DetailsAction::Reply(Some(Msg::ForceRedraw)),
        }
    }
}

/// The message after copying the body to the clipboard (`yank` for the yank
/// key): a success popup where it was copied, a component error otherwise.
pub fn clipboard_reply(yank: bool, copied: bool) -> (r: Msg)
    ensures
        copied ==> (r matches Msg::PopupActivity(PopupActivityMsg::ShowSuccess(t)) && t@ == if yank {
            "📋 Message content yanked to clipboard!"@
        } else {
            "📋 Message content copied to clipboard!"@
        }),
        !copied ==> (r matches Msg::PopupActivity(
            PopupActivityMsg::ShowError(AppError::Component(t)),
        ) && t@ == if yank {
            "Failed to yank message to clipboard"@
        } else {
            "Failed to copy message to clipboard"@
        }),
{
    if copied {
        if yank {
            Msg::PopupActivity(
                PopupActivityMsg::ShowSuccess(owned("📋 Message content yanked to clipboard!")),
            )
        } else {
            Msg::PopupActivity(
                PopupActivityMsg::ShowSuccess(owned("📋 Message content copied to clipboard!")),
            )
        }
    } else if yank {
        Msg::PopupActivity(
            PopupActivityMsg::ShowError(AppError::Component(owned("Failed to yank message to clipboard"))),
        )
    } else {
        Msg::PopupActivity(
            PopupActivityMsg::ShowError(AppError::Component(owned("Failed to copy message to clipboard"))),
        )
    }
}


// ---------------------------------------------------------------------------
// What the detail view shows
// ---------------------------------------------------------------------------

/// A line as drawn: plain, or the cursor's line split around the cursor.
#[derive(Debug, Clone, PartialEq)]
pub enum DisplayLine {
    Plain(String),
    /// The text before the cursor, the character under it (a space at the
    /// end of the line), and the text after it.
    Cursor { before: String, cursor: char, after: String },
}

/// The parts of `line` around the cursor at byte `col`.
pub open spec fn cursor_parts(line: Seq<char>, col: int) -> (Seq<char>, char, Seq<char>) {
    let at = if col < byte_len(line) {
        col
    } else {
        byte_len(line) as int
    };
    let k = boundary_index(line, at);
    let rest = line.skip(k);
    if rest.len() > 0 {
        (line.take(k), rest[0], rest.skip(1))
    } else {
        (line.take(k), ' ', Seq::<char>::empty())
    }
}

/// `d` shows `text` as a plain line.
pub open spec fn shows_plain(d: DisplayLine, text: Seq<char>) -> bool {
    d matches DisplayLine::Plain(t) && t@ == text
}

/// `d` shows `line` with the cursor at byte `col`.
pub open spec fn shows_cursor(d: DisplayLine, line: Seq<char>, col: int) -> bool {
    d matches DisplayLine::Cursor { before, cursor, after } && before@ == cursor_parts(line, col).0
        && cursor == cursor_parts(line, col).1 && after@ == cursor_parts(line, col).2
}

/// The title of the view's frame.
pub open spec fn details_title(editing: bool, dirty: bool) -> Seq<char> {
    if editing && dirty {
        " ✏️ Message Details - EDITING (modified) "@
    } else if editing {
        " ✏️ Message Details - EDITING "@
    } else {
        " 📄 Message Details "@
    }
}

/// How strongly the view's frame and status line stand out.
#[derive(Debug, Clone, Copy, PartialEq, Eq, Structural)]
pub enum FrameEmphasis {
    /// Focused and editing.
    Editing,
    /// Focused, viewing.
    Focused,
    Unfocused,
}

/// The bottom line of `area`, where the status line is drawn over the frame.
pub fn status_area(area: Area) -> (r: Area)
    requires
        area.y + area.height <= u16::MAX + 1,
    ensures
        r.x == area.x,
        r.y == area.y + if area.height > 0 {
            area.height - 1
        } else {
            0
        },
        r.width == area.width,
        r.height == 1,
{
    Area { x: area.x, y: area.y + area.height.saturating_sub(1), width: area.width, height: 1 }
}

/// How often a composed message will be sent, for the status line.
pub open spec fn repeat_info_text(repeat_count: Option<usize>) -> Seq<char> {
    match repeat_count {
        Some(n) => if n == 1 {
            " | Will send 1 time"@
        } else {
            " | Will send "@ + decimal(n as nat) + " times"@
        },
        None => Seq::<char>::empty(),
    }
}

impl MessageDetails {
    /// The emphasis of the frame and the status line.
    pub fn frame_emphasis(&self) -> (r: FrameEmphasis)
        ensures
            r == if !self.is_focused {
                FrameEmphasis::Unfocused
            } else if self.is_editing {
                FrameEmphasis::Editing
            } else {
                FrameEmphasis::Focused
            },
    {
        if !self.is_focused {
            FrameEmphasis::Unfocused
        } else if self.is_editing {
            FrameEmphasis::Editing
        } else {
            FrameEmphasis::Focused
        }
    }

    /// The title of the frame: editing and modified, editing, or viewing.
    pub fn title(&self) -> (r: &'static str)
        ensures
            r@ == details_title(self.is_editing, self.is_dirty),
    {
        if self.is_editing {
            if self.is_dirty {
                " ✏️ Message Details - EDITING (modified) "
            } else {
                " ✏️ Message Details - EDITING "
            }
        } else {
            " 📄 Message Details "
        }
    }

    /// The status line: the cursor's line and column counted from 1, and the
    /// keys of the mode.
    pub fn status_text(&self, keys: &KeyBindingsConfig) -> (r: String)
        requires
            self.cursor_line + self.scroll_offset + 1 <= usize::MAX,
            self.cursor_col + 1 <= usize::MAX,
        ensures
            r@ == "Ln "@ + decimal((self.line_index() + 1) as nat) + ", Col "@ + decimal(
                (self.cursor_col + 1) as nat,
            ) + if self.is_editing {
                " | EDIT MODE"@ + repeat_info_text(self.repeat_count) + " | Ctrl+"@ + seq![
                    keys.send_edited_message(),
                ] + ": Send | Ctrl+"@ + seq![keys.replace_edited_message()]
                    + ": Replace | ESC: Cancel"@
            } else {
                " | Press 'e' or 'i' to edit | ESC: Back to messages"@
            },
    {
        let mut r = owned("Ln ");
        let line = unsigned_to_string((self.cursor_line + self.scroll_offset + 1) as u128);
        r.append(line.as_str());
        r.append(", Col ");
        let col = unsigned_to_string((self.cursor_col + 1) as u128);
        r.append(col.as_str());
        if self.is_editing {
            r.append(" | EDIT MODE");
            match self.repeat_count {
                Some(n) => {
                    if n == 1 {
                        r.append(" | Will send 1 time");
                    } else {
                        r.append(" | Will send ");
                        let count = unsigned_to_string(n as u128);
                        r.append(count.as_str());
                        r.append(" times");
                    }
                },
                None => {},
            }
            r.append(" | Ctrl+");
            crate::text::string_push(&mut r, keys.send_edited_message());
            r.append(": Send | Ctrl+");
            crate::text::string_push(&mut r, keys.replace_edited_message());
            r.append(": Replace | ESC: Cancel");
        } else {
            r.append(" | Press 'e' or 'i' to edit | ESC: Back to messages");
        }
        proof {
            assert(r@ =~= "Ln "@ + decimal((self.line_index() + 1) as nat) + ", Col "@ + decimal(
                (self.cursor_col + 1) as nat,
            ) + if self.is_editing {
                " | EDIT MODE"@ + repeat_info_text(self.repeat_count) + " | Ctrl+"@ + seq![
                    keys.send_edited_message(),
                ] + ": Send | Ctrl+"@ + seq![keys.replace_edited_message()]
                    + ": Replace | ESC: Cancel"@
            } else {
                " | Press 'e' or 'i' to edit | ESC: Back to messages"@
            });
        }
        r
    }

    /// The cursor's line can be split for drawing: the cursor lies between
    /// two characters, or beyond the end of its line.
    pub open spec fn can_draw(self, visible_lines: usize) -> bool {
        (self.is_focused && self.cursor_line < visible_lines && self.line_index()
            < self.content().len()) ==> {
            let line = self.content()[self.line_index()];
            is_boundary(
                line,
                if self.cursor_col < byte_len(line) {
                    self.cursor_col as int
                } else {
                    byte_len(line) as int
                },
            )
        }
    }

    /// The `visible_lines` lines drawn from the first line shown: the cursor's
    /// line split around the cursor where the view has the focus, empty lines
    /// below the last.
    pub fn content_lines(&self, visible_lines: usize) -> (r: Vec<DisplayLine>)
        requires
            self.scroll_offset + visible_lines <= usize::MAX,
            self.can_draw(visible_lines),
        ensures
            r.len() == visible_lines,
            forall|d: int|
                0 <= d < visible_lines ==> {
                    let i = self.scroll_offset + d;
                    if i < self.content().len() {
                        if self.is_focused && d == self.cursor_line {
                            shows_cursor(#[trigger] r[d], self.content()[i], self.cursor_col as int)
                        } else {
                            shows_plain(r[d], self.content()[i])
                        }
                    } else {
                        shows_plain(r[d], Seq::<char>::empty())
                    }
                },
    {
        let mut lines: Vec<DisplayLine> = Vec::new();
        let mut d: usize = 0;
        while d < visible_lines
            invariant
                d <= visible_lines,
                lines.len() == d,
                self.scroll_offset + visible_lines <= usize::MAX,
                self.can_draw(visible_lines),
                forall|e: int|
                    0 <= e < d ==> {
                        let i = self.scroll_offset + e;
                        if i < self.content().len() {
                            if self.is_focused && e == self.cursor_line {
                                shows_cursor(#[trigger] lines[e], self.content()[i], self.cursor_col as int)
                            } else {
                                shows_plain(lines[e], self.content()[i])
                            }
                        } else {
                            shows_plain(lines[e], Seq::<char>::empty())
                        }
                    },
            decreases visible_lines - d,
        {
            let idx = self.scroll_offset + d;
            if idx < self.message_content.len() {
                if self.is_focused && d == self.cursor_line {
                    lines.push(self.cursor_line_parts(idx));
                } else {
                    lines.push(DisplayLine::Plain(self.message_content[idx].clone()));
                }
            } else {
                lines.push(DisplayLine::Plain(String::new()));
            }
            d = d + 1;
        }
        lines
    }

    /// Line `idx` split around the cursor.
    fn cursor_line_parts(&self, idx: usize) -> (r: DisplayLine)
        requires
            idx < self.message_content.len(),
            is_boundary(
                self.content()[idx as int],
                if self.cursor_col < byte_len(self.content()[idx as int]) {
                    self.cursor_col as int
                } else {
                    byte_len(self.content()[idx as int]) as int
                },
            ),
        ensures
            shows_cursor(r, self.content()[idx as int], self.cursor_col as int),
    {
        let line = &self.message_content[idx];
        let len = str_byte_len(line.as_str());
        let at = if self.cursor_col < len {
            self.cursor_col
        } else {
            len
        };
        let mut before = line.clone();
        let rest = string_split_off(&mut before, at);
        let n = rest.as_str().unicode_len();
        if n > 0 {
            let cursor = rest.as_str().get_char(0);
            let after = owned(rest.as_str().substring_char(1, n));
            proof {
                assert(rest@.skip(1) =~= rest@.subrange(1, n as int));
            }
            DisplayLine::Cursor { before, cursor, after }
        } else {
            DisplayLine::Cursor { before, cursor: ' ', after: String::new() }
        }
    }

    /// Moves the cursor to line `position` (or the last line where there are
    /// fewer), scrolling only as far as needed to show it, and clamps the
    /// column to that line.
    pub fn set_cursor_position(&mut self, position: usize)
        ensures
            ({
                let max_line = if old(self).content().len() > 0 {
                    old(self).content().len() - 1
                } else {
                    0
                };
                let bounded = if position < max_line {
                    position as int
                } else {
                    max_line
                };
                let visible = old(self).visible_lines as int;
                let scroll = if bounded < visible {
                    0
                } else if visible > 1 {
                    bounded - (visible - 1)
                } else {
                    bounded
                };
                *final(self) == old(self).with_cursor(
                    (bounded - scroll) as usize,
                    old(self).cursor_col,
                    scroll as usize,
                ).adjusted()
            }),
    {
        let max_line = self.message_content.len().saturating_sub(1);
        let bounded_position = if position < max_line {
            position
        } else {
            max_line
        };
        let visible_lines = self.visible_lines;
        if bounded_position < visible_lines {
            self.cursor_line = bounded_position;
            self.scroll_offset = 0;
        } else {
            self.scroll_offset = bounded_position.saturating_sub(visible_lines.saturating_sub(1));
            self.cursor_line = bounded_position - self.scroll_offset;
        }
        self.adjust_cursor_column();
    }

    /// Replaces the text shown with the lines of `content` (one empty line at
    /// least), the cursor at the top, not modified.
    pub fn set_content(&mut self, content: &str)
        ensures
            final(self).content() == if lines_of(content@).len() > 0 {
                lines_of(content@)
            } else {
                seq![Seq::<char>::empty()]
            },
            final(self).cursor_line == 0 && final(self).cursor_col == 0,
            final(self).scroll_offset == 0,
            !final(self).is_dirty,
            final(self).original_content == old(self).original_content,
            final(self).current_message == old(self).current_message,
            final(self).is_focused == old(self).is_focused,
            final(self).visible_lines == old(self).visible_lines,
            final(self).is_editing == old(self).is_editing,
            final(self).repeat_count == old(self).repeat_count,
    {
        self.message_content = str_lines(content);
        if self.message_content.len() == 0 {
            self.message_content.push(String::new());
            proof {
                assert(self.content() =~= seq![Seq::<char>::empty()]);
            }
        }
        self.cursor_line = 0;
        self.cursor_col = 0;
        self.scroll_offset = 0;
        self.is_dirty = false;
    }
}

} // verus!
