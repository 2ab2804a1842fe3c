//! Popups: their layout on screen, their text, and how they answer keys.
use vstd::prelude::*;
use crate::common::{AuthActivityMsg, ConfigActivityMsg, ConfigUpdateData, Msg, PopupActivityMsg};
use crate::config::{MAX_PAGE_SIZE, MIN_PAGE_SIZE};
use crate::error::{app_error_prefix, app_error_text, AppError};
use crate::input::{KeyCode, KeyInput};
use crate::keys::KeyBindingsConfig;
use crate::messages::string_views;
use crate::text::{
    decimal, is_digit_char, digit_value, is_unicode_whitespace, lines_of, lowercase_first, owned,
    parse_signed, parse_unsigned, trim, trim_end, trim_start,
    spec_lowercase_first, spec_uppercase, str_lines, string_push, to_decimal_digit,
    unsigned_to_string, uppercase_string,
};
use crate::validation_patterns::{
    numeric_range_outcome, opt_view, result_view, CommonValidationErrorView,
    NumericRangeValidator, ValidationState,
};

verus! {

/// A component made ready before it is shown.
pub trait ComponentState {
    /// Prepares the component; the popups here cannot fail.
    fn mount(&mut self) -> Result<(), AppError>;
}

// ---------------------------------------------------------------------------
// Layout
// ---------------------------------------------------------------------------

/// A rectangle of the terminal, in cells.
#[derive(Debug, Clone, Copy, PartialEq, Eq, Structural)]
pub struct Area {
    pub x: u16,
    pub y: u16,
    pub width: u16,
    pub height: u16,
}

/// Placement of popups on the screen.
pub struct PopupLayout;

/// The popup fits the 16-bit arithmetic that places it.
pub open spec fn centered_fits(area: Area, width_percent: u16, height_percent: u16) -> bool {
    &&& area.width * width_percent <= u16::MAX
    &&& area.height * height_percent <= u16::MAX
    &&& area.x + crate::messages::sat_sub(area.width as int, area.width * width_percent / 100) / 2
        <= u16::MAX
    &&& area.y + crate::messages::sat_sub(area.height as int, area.height * height_percent / 100)
        / 2 <= u16::MAX
}

impl PopupLayout {
    /// A popup of the given percentages of `area`, centered in it; a popup
    /// larger than the area starts at the area's corner.
    pub fn centered(area: Area, width_percent: u16, height_percent: u16) -> (r: Area)
        requires
            centered_fits(area, width_percent, height_percent),
        ensures
            r.width == area.width * width_percent / 100,
            r.height == area.height * height_percent / 100,
            r.x == area.x + crate::messages::sat_sub(area.width as int, r.width as int) / 2,
            r.y == area.y + crate::messages::sat_sub(area.height as int, r.height as int) / 2,
    {
        let popup_width = (area.width * width_percent) / 100;
        let popup_height = (area.height * height_percent) / 100;
        let x = (area.width.saturating_sub(popup_width)) / 2;
        let y = (area.height.saturating_sub(popup_height)) / 2;
        Area { x: area.x + x, y: area.y + y, width: popup_width, height: popup_height }
    }

    /// 40% of the width, 30% of the height.
    pub fn small(area: Area) -> (r: Area)
        requires
            centered_fits(area, 40, 30),
        ensures
            r == Self::centered_spec(area, 40, 30),
    {
        Self::centered(area, 40, 30)
    }

    /// 60% of the width, 50% of the height.
    pub fn medium(area: Area) -> (r: Area)
        requires
            centered_fits(area, 60, 50),
        ensures
            r == Self::centered_spec(area, 60, 50),
    {
        Self::centered(area, 60, 50)
    }

    /// 80% of the width, 70% of the height.
    pub fn large(area: Area) -> (r: Area)
        requires
            centered_fits(area, 80, 70),
        ensures
            r == Self::centered_spec(area, 80, 70),
    {
        Self::centered(area, 80, 70)
    }

    /// 90% of the width, 60% of the height, for confirmations.
    pub fn extra_wide(area: Area) -> (r: Area)
        requires
            centered_fits(area, 90, 60),
        ensures
            r == Self::centered_spec(area, 90, 60),
    {
        Self::centered(area, 90, 60)
    }

    /// The area of [`PopupLayout::centered`].
    pub open spec fn centered_spec(area: Area, width_percent: u16, height_percent: u16) -> Area {
        let w = (area.width * width_percent / 100) as u16;
        let h = (area.height * height_percent / 100) as u16;
        Area {
            x: (area.x + crate::messages::sat_sub(area.width as int, w as int) / 2) as u16,
            y: (area.y + crate::messages::sat_sub(area.height as int, h as int) / 2) as u16,
            width: w,
            height: h,
        }
    }
}

// ---------------------------------------------------------------------------
// Popup text
// ---------------------------------------------------------------------------

/// The colour scheme of a popup.
#[derive(Debug, Clone, Copy, PartialEq, Eq, Structural)]
pub enum PopupStyle {
    Default,
    Error,
    Success,
}

/// How a piece of popup text is styled.
#[derive(Debug, Clone, Copy, PartialEq, Eq, Structural)]
pub enum PopupSpanStyle {
    Text,
    ErrorText,
    /// A highlighted key of a positive answer.
    YesKey,
    /// A highlighted key of a negative answer.
    NoKey,
    Muted,
    /// Emphasised in the accent colour.
    Highlight,
    /// A link.
    Link,
    /// A countdown with under a minute left.
    TimerCritical,
    /// A countdown with under five minutes left.
    TimerWarning,
    /// A countdown with time to spare.
    TimerOk,
}

/// A piece of a popup line.
#[derive(Debug, Clone)]
pub struct PopupSpan {
    pub text: String,
    pub style: PopupSpanStyle,
}

/// The text and style of each span of a line.
pub open spec fn popup_line_view(line: Seq<PopupSpan>) -> Seq<(Seq<char>, PopupSpanStyle)> {
    line.map_values(|s: PopupSpan| (s.text@, s.style))
}

/// The spans of each line.
pub open spec fn popup_lines_view(lines: Seq<Vec<PopupSpan>>) -> Seq<Seq<(Seq<char>, PopupSpanStyle)>> {
    lines.map_values(|l: Vec<PopupSpan>| popup_line_view(l@))
}

/// A line of one span.
pub open spec fn plain_line(text: Seq<char>, style: PopupSpanStyle) -> Seq<(Seq<char>, PopupSpanStyle)> {
    seq![(text, style)]
}

/// An empty line.
pub open spec fn empty_line() -> Seq<(Seq<char>, PopupSpanStyle)> {
    plain_line(Seq::<char>::empty(), PopupSpanStyle::Text)
}

/// A line of one span.
fn line_of(text: String, style: PopupSpanStyle) -> (r: Vec<PopupSpan>)
    ensures
        popup_line_view(r@) == plain_line(text@, style),
{
    let r = vec![PopupSpan { text, style }];
    proof {
        assert(popup_line_view(r@) =~= plain_line(text@, style));
    }
    r
}

/// Builds the content of a popup: a title, a colour scheme, lines of text
/// and optional instructions at the bottom.
pub struct PopupBuilder {
    pub title: String,
    pub style: PopupStyle,
    pub content_lines: Vec<Vec<PopupSpan>>,
    pub instructions: Option<String>,
}

impl PopupBuilder {
    /// The lines of the content.
    pub open spec fn lines(self) -> Seq<Seq<(Seq<char>, PopupSpanStyle)>> {
        popup_lines_view(self.content_lines@)
    }

    /// An empty popup in the default colours.
    pub fn new(title: &str) -> (r: Self)
        ensures
            r.title@ == title@,
            r.style == PopupStyle::Default,
            r.lines().len() == 0,
            r.instructions is None,
    {
        PopupBuilder {
            title: owned(title),
            style: PopupStyle::Default,
            content_lines: Vec::new(),
            instructions: None,
        }
    }

    /// An empty popup in the error colours.
    pub fn error(title: &str) -> (r: Self)
        ensures
            r.title@ == title@,
            r.style == PopupStyle::Error,
            r.lines().len() == 0,
            r.instructions is None,
    {
        PopupBuilder {
            title: owned(title),
            style: PopupStyle::Error,
            content_lines: Vec::new(),
            instructions: None,
        }
    }

    /// An empty popup in the success colours.
    pub fn success(title: &str) -> (r: Self)
        ensures
            r.title@ == title@,
            r.style == PopupStyle::Success,
            r.lines().len() == 0,
            r.instructions is None,
    {
        PopupBuilder {
            title: owned(title),
            style: PopupStyle::Success,
            content_lines: Vec::new(),
            instructions: None,
        }
    }

    /// Appends a line.
    fn push_line(&mut self, line: Vec<PopupSpan>)
        ensures
            final(self).lines() == old(self).lines().push(popup_line_view(line@)),
            final(self).title == old(self).title,
            final(self).style == old(self).style,
            final(self).instructions == old(self).instructions,
    {
        let ghost before = self.content_lines@;
        let ghost lv = popup_line_view(line@);
        self.content_lines.push(line);
        proof {
            assert(popup_lines_view(self.content_lines@) =~= popup_lines_view(before).push(lv));
        }
    }

    /// With a line of text.
    pub fn add_text(self, text: &str) -> (r: Self)
        ensures
            r.lines() == self.lines().push(plain_line(text@, PopupSpanStyle::Text)),
            r.title == self.title && r.style == self.style && r.instructions == self.instructions,
    {
        let mut b = self;
        b.push_line(line_of(owned(text), PopupSpanStyle::Text));
        b
    }

    /// With a line of error text.
    pub fn add_error_text(self, text: &str) -> (r: Self)
        ensures
            r.lines() == self.lines().push(plain_line(text@, PopupSpanStyle::ErrorText)),
            r.title == self.title && r.style == self.style && r.instructions == self.instructions,
    {
        let mut b = self;
        b.push_line(line_of(owned(text), PopupSpanStyle::ErrorText));
        b
    }

    /// With an empty line.
    pub fn add_empty_line(self) -> (r: Self)
        ensures
            r.lines() == self.lines().push(empty_line()),
            r.title == self.title && r.style == self.style && r.instructions == self.instructions,
    {
        let mut b = self;
        b.push_line(line_of(String::new(), PopupSpanStyle::Text));
        b
    }

    /// With a line of the given spans.
    pub fn add_line(self, spans: Vec<PopupSpan>) -> (r: Self)
        ensures
            r.lines() == self.lines().push(popup_line_view(spans@)),
            r.title == self.title && r.style == self.style && r.instructions == self.instructions,
    {
        let mut b = self;
        b.push_line(spans);
        b
    }

    /// With each line of `text`, then an empty line.
    pub fn add_multiline_text(self, text: &str) -> (r: Self)
        ensures
            r.lines() == self.lines() + lines_of(text@).map_values(
                |l: Seq<char>| plain_line(l, PopupSpanStyle::Text),
            ) + seq![empty_line()],
            r.title == self.title && r.style == self.style && r.instructions == self.instructions,
    {
        let mut b = self;
        let ghost start = b.lines();
        let lines = str_lines(text);
        let mut i: usize = 0;
        while i < lines.len()
            invariant
                i <= lines.len(),
                string_views(lines@) == lines_of(text@),
                b.lines() == start + string_views(lines@).take(i as int).map_values(
                    |l: Seq<char>| plain_line(l, PopupSpanStyle::Text),
                ),
                b.title == self.title && b.style == self.style && b.instructions
                    == self.instructions,
            decreases lines.len() - i,
        {
            b.push_line(line_of(lines[i].clone(), PopupSpanStyle::Text));
            proof {
                assert(string_views(lines@).take(i + 1) =~= string_views(lines@).take(i as int).push(
                    lines@[i as int]@,
                ));
                assert(string_views(lines@).take(i + 1).map_values(
                    |l: Seq<char>| plain_line(l, PopupSpanStyle::Text),
                ) =~= string_views(lines@).take(i as int).map_values(
                    |l: Seq<char>| plain_line(l, PopupSpanStyle::Text),
                ).push(plain_line(lines@[i as int]@, PopupSpanStyle::Text)));
            }
            i = i + 1;
        }
        proof {
            assert(string_views(lines@).take(lines.len() as int) =~= string_views(lines@));
        }
        b.push_line(line_of(String::new(), PopupSpanStyle::Text));
        b
    }

    /// With instructions at the bottom.
    pub fn with_instructions(self, instructions: &str) -> (r: Self)
        ensures
            opt_view(r.instructions) == Some(instructions@),
            r.lines() == self.lines(),
            r.title == self.title && r.style == self.style,
    {
        PopupBuilder {
            title: self.title,
            style: self.style,
            content_lines: self.content_lines,
            instructions: Some(owned(instructions)),
        }
    }

    /// With two empty lines and the yes and no keys, upper-cased, as buttons.
    pub fn with_confirmation_instructions(self, yes_key: char, no_key: char) -> (r: Self)
        ensures
            r.lines() == self.lines() + seq![
                empty_line(),
                empty_line(),
                seq![
                    ("["@ + spec_uppercase(yes_key) + "]"@, PopupSpanStyle::YesKey),
                    (" Yes    "@, PopupSpanStyle::Text),
                    ("["@ + spec_uppercase(no_key) + "]"@, PopupSpanStyle::NoKey),
                    (" No"@, PopupSpanStyle::Text),
                ],
            ],
            r.title == self.title && r.style == self.style && r.instructions == self.instructions,
    {
        let mut yes = owned("[");
        let yes_upper = uppercase_string(yes_key);
        yes.append(yes_upper.as_str());
        yes.append("]");
        let mut no = owned("[");
        let no_upper = uppercase_string(no_key);
        no.append(no_upper.as_str());
        no.append("]");
        let buttons = vec![
            PopupSpan { text: yes, style: PopupSpanStyle::YesKey },
            PopupSpan { text: owned(" Yes    "), style: PopupSpanStyle::Text },
            PopupSpan { text: no, style: PopupSpanStyle::NoKey },
            PopupSpan { text: owned(" No"), style: PopupSpanStyle::Text },
        ];
        proof {
            assert(popup_line_view(buttons@) =~= seq![
                ("["@ + spec_uppercase(yes_key) + "]"@, PopupSpanStyle::YesKey),
                (" Yes    "@, PopupSpanStyle::Text),
                ("["@ + spec_uppercase(no_key) + "]"@, PopupSpanStyle::NoKey),
                (" No"@, PopupSpanStyle::Text),
            ]);
        }
        let mut b = self;
        let ghost start = b.lines();
        b.push_line(line_of(String::new(), PopupSpanStyle::Text));
        b.push_line(line_of(String::new(), PopupSpanStyle::Text));
        b.push_line(buttons);
        proof {
            assert(b.lines() =~= start + seq![
                empty_line(),
                empty_line(),
                seq![
                    ("["@ + spec_uppercase(yes_key) + "]"@, PopupSpanStyle::YesKey),
                    (" Yes    "@, PopupSpanStyle::Text),
                    ("["@ + spec_uppercase(no_key) + "]"@, PopupSpanStyle::NoKey),
                    (" No"@, PopupSpanStyle::Text),
                ],
            ]);
        }
        b
    }

    /// The title drawn on the frame: padded with a space on each side.
    pub fn frame_title(&self) -> (r: String)
        ensures
            r@ == " "@ + self.title@ + " "@,
    {
        let mut r = owned(" ");
        r.append(self.title.as_str());
        r.append(" ");
        r
    }

    /// All lines drawn: two empty lines, the content, and the instructions
    /// after an empty line where there are any.
    pub fn all_lines(&self) -> (r: Vec<Vec<PopupSpan>>)
        ensures
            popup_lines_view(r@) == seq![empty_line(), empty_line()] + self.lines() + match self.instructions {
                Some(i) => seq![empty_line(), plain_line(i@, PopupSpanStyle::Muted)],
                None => Seq::empty(),
            },
    {
        let mut all: Vec<Vec<PopupSpan>> = Vec::new();
        all.push(line_of(String::new(), PopupSpanStyle::Text));
        all.push(line_of(String::new(), PopupSpanStyle::Text));
        let mut i: usize = 0;
        while i < self.content_lines.len()
            invariant
                i <= self.content_lines.len(),
                popup_lines_view(all@) == seq![empty_line(), empty_line()] + self.lines().take(i as int),
            decreases self.content_lines.len() - i,
        {
            let mut line: Vec<PopupSpan> = Vec::new();
            let mut j: usize = 0;
            while j < self.content_lines[i].len()
                invariant
                    i < self.content_lines.len(),
                    j <= self.content_lines[i as int].len(),
                    popup_line_view(line@) == popup_line_view(self.content_lines[i as int]@).take(j as int),
                decreases self.content_lines[i as int].len() - j,
            {
                let s = &self.content_lines[i][j];
                let ghost before = line@;
                line.push(PopupSpan { text: s.text.clone(), style: s.style });
                proof {
                    assert(line@ == before.push(line@.last()));
                    assert(popup_line_view(line@) =~= popup_line_view(before).push((s.text@, s.style)));
                    assert(popup_line_view(line@) =~= popup_line_view(self.content_lines[i as int]@).take(j + 1));
                }
                j = j + 1;
            }
            proof {
                assert(popup_line_view(self.content_lines[i as int]@).take(j as int) =~= popup_line_view(self.content_lines[i as int]@));
            }
            let ghost before = all@;
            all.push(line);
            proof {
                assert(popup_lines_view(all@) =~= popup_lines_view(before).push(self.lines()[i as int]));
                assert(self.lines().take(i + 1) =~= self.lines().take(i as int).push(self.lines()[i as int]));
            }
            i = i + 1;
        }
        proof {
            assert(self.lines().take(self.content_lines.len() as int) =~= self.lines());
        }
        match &self.instructions {
            Some(instructions) => {
                all.push(line_of(String::new(), PopupSpanStyle::Text));
                all.push(line_of(instructions.clone(), PopupSpanStyle::Muted));
            },
            None => {},
        }
        proof {
            assert(popup_lines_view(all@) =~= seq![empty_line(), empty_line()] + self.lines() + match self.instructions {
                Some(i) => seq![empty_line(), plain_line(i@, PopupSpanStyle::Muted)],
                None => Seq::empty(),
            });
        }
        all
    }
}


// ---------------------------------------------------------------------------
// Confirmation, error and success popups
// ---------------------------------------------------------------------------

/// Asks the user to confirm an action.
pub struct ConfirmationPopup {
    pub title: String,
    pub message: String,
    pub is_mounted: bool,
}

impl ConfirmationPopup {
    /// A confirmation with a title and a message.
    pub fn new(title: &str, message: &str) -> (r: Self)
        ensures
            r.title@ == title@,
            r.message@ == message@,
            !r.is_mounted,
    {
        ConfirmationPopup { title: owned(title), message: owned(message), is_mounted: false }
    }

    /// The popup: the message and the yes and no keys.
    pub fn content(&self, keys: &KeyBindingsConfig) -> (r: PopupBuilder)
        ensures
            r.title@ == self.title@,
            r.style == PopupStyle::Default,
            r.instructions is None,
            r.lines() == lines_of(self.message@).map_values(
                |l: Seq<char>| plain_line(l, PopupSpanStyle::Text),
            ) + seq![empty_line()] + seq![
                empty_line(),
                empty_line(),
                seq![
                    ("["@ + spec_uppercase(keys.confirm_yes()) + "]"@, PopupSpanStyle::YesKey),
                    (" Yes    "@, PopupSpanStyle::Text),
                    ("["@ + spec_uppercase(keys.confirm_no()) + "]"@, PopupSpanStyle::NoKey),
                    (" No"@, PopupSpanStyle::Text),
                ],
            ],
    {
        let b = PopupBuilder::new(self.title.as_str()).add_multiline_text(self.message.as_str());
        proof {
            assert(Seq::<Seq<(Seq<char>, PopupSpanStyle)>>::empty() + lines_of(self.message@).map_values(
                |l: Seq<char>| plain_line(l, PopupSpanStyle::Text),
            ) =~= lines_of(self.message@).map_values(|l: Seq<char>| plain_line(l, PopupSpanStyle::Text)));
        }
        b.with_confirmation_instructions(keys.confirm_yes(), keys.confirm_no())
    }

    /// A character answers yes or no where, lower-cased, it is the lower-cased
    /// yes or no key (yes first); Esc answers no; other keys are ignored.
    pub fn on(&mut self, key: KeyInput, keys: &KeyBindingsConfig) -> (r: Option<Msg>)
        ensures
            *final(self) == *old(self),
            match key.code {
                KeyCode::Char(c) => r == if spec_lowercase_first(c) == spec_lowercase_first(
                    keys.confirm_yes(),
                ) {
                    Some(Msg::PopupActivity(PopupActivityMsg::ConfirmationResult(true)))
                } else if spec_lowercase_first(c) == spec_lowercase_first(keys.confirm_no()) {
                    Some(Msg::PopupActivity(PopupActivityMsg::ConfirmationResult(false)))
                } else {
                    None
                },
                KeyCode::Esc => r == Some(
                    Msg::PopupActivity(PopupActivityMsg::ConfirmationResult(false)),
                ),
                _ => r is None,
            },
    {
        match key.code {
            KeyCode::Char(c) => {
                let c_lower = lowercase_first(c);
                let yes_key = lowercase_first(keys.confirm_yes());
                let no_key = lowercase_first(keys.confirm_no());
                if c_lower == yes_key {
                    Some(Msg::PopupActivity(PopupActivityMsg::ConfirmationResult(true)))
                } else if c_lower == no_key {
                    Some(Msg::PopupActivity(PopupActivityMsg::ConfirmationResult(false)))
                } else {
                    None
                }
            },
            KeyCode::Esc => Some(Msg::PopupActivity(PopupActivityMsg::ConfirmationResult(false))),
            _ => None,
        }
    }
}

impl ComponentState for ConfirmationPopup {
    /// Marks the popup mounted.
    fn mount(&mut self) -> (r: Result<(), AppError>)
        ensures
            r is Ok,
            final(self).is_mounted,
            final(self).title == old(self).title,
            final(self).message == old(self).message,
    {
        self.is_mounted = true;
        Ok(())
    }
}

/// Shows an error.
pub struct ErrorPopup {
    pub message: String,
    pub is_mounted: bool,
}

impl ErrorPopup {
    /// A popup showing the error with its area.
    pub fn new(error: &AppError) -> (r: Self)
        ensures
            r.message@ == app_error_prefix(*error) + app_error_text(*error),
            !r.is_mounted,
    {
        ErrorPopup { message: error.to_string(), is_mounted: false }
    }

    /// The popup: the message in the error colours, with how to close it.
    pub fn content(&self) -> (r: PopupBuilder)
        ensures
            r.title@ == "❌ Error"@,
            r.style == PopupStyle::Error,
            opt_view(r.instructions) == Some("Press Enter or Esc to close"@),
            r.lines() == lines_of(self.message@).map_values(
                |l: Seq<char>| plain_line(l, PopupSpanStyle::Text),
            ) + seq![empty_line()],
    {
        let b = PopupBuilder::error("❌ Error").add_multiline_text(self.message.as_str());
        proof {
            assert(Seq::<Seq<(Seq<char>, PopupSpanStyle)>>::empty() + lines_of(self.message@).map_values(
                |l: Seq<char>| plain_line(l, PopupSpanStyle::Text),
            ) =~= lines_of(self.message@).map_values(|l: Seq<char>| plain_line(l, PopupSpanStyle::Text)));
        }
        b.with_instructions("Press Enter or Esc to close")
    }

    /// Enter or Esc, whatever the modifiers, closes the popup.
    pub fn on(&mut self, key: KeyInput) -> (r: Option<Msg>)
        ensures
            *final(self) == *old(self),
            r == if key.code == KeyCode::Enter || key.code == KeyCode::Esc {
                Some(Msg::PopupActivity(PopupActivityMsg::CloseError))
            } else {
                None
            },
    {
        match key.code {
            KeyCode::Enter | KeyCode::Esc => Some(Msg::PopupActivity(PopupActivityMsg::CloseError)),
            _ => None,
        }
    }
}

impl ComponentState for ErrorPopup {
    /// Marks the popup mounted.
    fn mount(&mut self) -> (r: Result<(), AppError>)
        ensures
            r is Ok,
            final(self).is_mounted,
            final(self).message == old(self).message,
    {
        self.is_mounted = true;
        Ok(())
    }
}

/// Shows a success.
pub struct SuccessPopup {
    pub message: String,
    pub is_mounted: bool,
}

impl SuccessPopup {
    /// A popup showing `message`.
    pub fn new(message: &str) -> (r: Self)
        ensures
            r.message@ == message@,
            !r.is_mounted,
    {
        SuccessPopup { message: owned(message), is_mounted: false }
    }

    /// The popup: the message in the success colours, with how to close it.
    pub fn content(&self) -> (r: PopupBuilder)
        ensures
            r.title@ == "✅ Success"@,
            r.style == PopupStyle::Success,
            opt_view(r.instructions) == Some("Press Enter or Esc to close"@),
            r.lines() == lines_of(self.message@).map_values(
                |l: Seq<char>| plain_line(l, PopupSpanStyle::Text),
            ) + seq![empty_line()],
    {
        let b = PopupBuilder::success("✅ Success").add_multiline_text(self.message.as_str());
        proof {
            assert(Seq::<Seq<(Seq<char>, PopupSpanStyle)>>::empty() + lines_of(self.message@).map_values(
                |l: Seq<char>| plain_line(l, PopupSpanStyle::Text),
            ) =~= lines_of(self.message@).map_values(|l: Seq<char>| plain_line(l, PopupSpanStyle::Text)));
        }
        b.with_instructions("Press Enter or Esc to close")
    }

    /// Enter or Esc, whatever the modifiers, closes the popup.
    pub fn on(&mut self, key: KeyInput) -> (r: Option<Msg>)
        ensures
            *final(self) == *old(self),
            r == if key.code == KeyCode::Enter || key.code == KeyCode::Esc {
                Some(Msg::PopupActivity(PopupActivityMsg::CloseSuccess))
            } else {
                None
            },
    {
        match key.code {
            KeyCode::Enter | KeyCode::Esc => Some(
                Msg::PopupActivity(PopupActivityMsg::CloseSuccess),
            ),
            _ => None,
        }
    }
}

impl ComponentState for SuccessPopup {
    /// Marks the popup mounted.
    fn mount(&mut self) -> (r: Result<(), AppError>)
        ensures
            r is Ok,
            final(self).is_mounted,
            final(self).message == old(self).message,
    {
        self.is_mounted = true;
        Ok(())
    }
}


// ---------------------------------------------------------------------------
// Page size selection
// ---------------------------------------------------------------------------

/// The page sizes offered: 100 to 1000 in steps of 100.
pub open spec fn page_size_options() -> Seq<u32> {
    Seq::new(10, |i: int| (100 * (i + 1)) as u32)
}

/// Every page size offered is a whole number of hundreds from 100 to 1000.
pub proof fn lemma_page_sizes_in_range(i: int)
    requires
        0 <= i < page_size_options().len(),
    ensures
        100 <= page_size_options()[i] <= 1000,
        page_size_options()[i] % 100 == 0,
        page_size_options().len() == 10,
        page_size_options()[i] == 100 * (i + 1),
{
}

/// Where nothing is typed the number popup answers 10, raised to its lower
/// bound and lowered to its upper bound, which with ordered bounds lies
/// within them.
pub proof fn lemma_default_number_is_clamped(min_value: usize, max_value: usize)
    ensures
        default_number(min_value, max_value) == (if max_value <= 10 || max_value <= min_value {
            max_value
        } else if min_value > 10 {
            min_value
        } else {
            10
        }),
        min_value <= max_value ==> min_value <= default_number(min_value, max_value) <= max_value,
{
}

/// Chooses how many messages a page holds.
pub struct PageSizePopup {
    pub options: Vec<u32>,
    pub selected_index: usize,
    pub is_mounted: bool,
}

impl PageSizePopup {
    /// The options are those offered and the selection is one of them.
    pub open spec fn wf(self) -> bool {
        &&& self.options@ == page_size_options()
        &&& self.selected_index < self.options.len()
    }

    /// The popup with the first option (100) selected.
    pub fn new() -> (r: Self)
        ensures
            r.wf(),
            r.selected_index == 0,
            !r.is_mounted,
    {
        let mut options: Vec<u32> = Vec::new();
        let mut size: u32 = MIN_PAGE_SIZE;
        while size <= MAX_PAGE_SIZE
            invariant
                MIN_PAGE_SIZE <= size <= MAX_PAGE_SIZE + 100,
                size % 100 == 0,
                options.len() == (size - MIN_PAGE_SIZE) / 100,
                options@ == page_size_options().take(options.len() as int),
            decreases MAX_PAGE_SIZE + 100 - size,
        {
            options.push(size);
            proof {
                assert(options@ =~= page_size_options().take(options.len() as int));
            }
            size = size + 100;
        }
        proof {
            assert(options@ =~= page_size_options());
        }
        PageSizePopup { options, selected_index: 0, is_mounted: false }
    }

    /// The selected page size.
    pub fn get_selected_size(&self) -> (r: u32)
        requires
            self.selected_index < self.options.len(),
        ensures
            r == self.options@[self.selected_index as int],
    {
        self.options[self.selected_index]
    }

    /// The index of `size` among the options, if it is one.
    fn position_of(&self, size: u32) -> (r: Option<usize>)
        ensures
            r matches Some(i) ==> i < self.options.len() && self.options@[i as int] == size && forall|j: int|
                0 <= j < i ==> self.options@[j] != size,
            r is None ==> forall|j: int| 0 <= j < self.options.len() ==> self.options@[j] != size,
    {
        let mut i: usize = 0;
        while i < self.options.len()
            invariant
                i <= self.options.len(),
                forall|j: int| 0 <= j < i ==> self.options@[j] != size,
            decreases self.options.len() - i,
        {
            if self.options[i] == size {
                return Some(i);
            }
            i = i + 1;
        }
        None
    }

    /// Enter answers the selected size and Esc closes the popup; up and `k`,
    /// down and `j` move the selection (nothing is answered at either end);
    /// a digit selects the size of that many hundreds, where offered.
    pub fn on(&mut self, key: KeyInput) -> (r: Option<Msg>)
        requires
            old(self).wf(),
        ensures
            final(self).wf(),
            final(self).options == old(self).options,
            final(self).is_mounted == old(self).is_mounted,
            ({
                let sel = old(self).selected_index;
                let plain = key.modifiers.is_none();
                if plain && key.code == KeyCode::Enter {
                    final(self).selected_index == sel && r == Some(
                        Msg::PopupActivity(
                            PopupActivityMsg::PageSizeResult(old(self).options@[sel as int] as usize),
                        ),
                    )
                } else if plain && key.code == KeyCode::Esc {
                    final(self).selected_index == sel && r == Some(
                        Msg::PopupActivity(PopupActivityMsg::ClosePageSize),
                    )
                } else if plain && (key.code == KeyCode::Up || key.code == KeyCode::Char('k')) {
                    if sel > 0 {
                        final(self).selected_index == sel - 1 && r == Some(Msg::ForceRedraw)
                    } else {
                        final(self).selected_index == sel && r is None
                    }
                } else if plain && (key.code == KeyCode::Down || key.code == KeyCode::Char('j')) {
                    if sel + 1 < old(self).options.len() {
                        final(self).selected_index == sel + 1 && r == Some(Msg::ForceRedraw)
                    } else {
                        final(self).selected_index == sel && r is None
                    }
                } else if plain && key.code is Char {
                    let c = key.code->0;
                    if is_digit_char(c) && 1 <= digit_value(c) <= 9 {
                        final(self).selected_index == digit_value(c) - 1 && r == Some(Msg::ForceRedraw)
                    } else {
                        final(self).selected_index == sel && r is None
                    }
                } else {
                    final(self).selected_index == sel && r is None
                }
            }),
    {
        if !key.modifiers.plain() {
            return None;
        }
        match key.code {
            KeyCode::Enter => Some(
                Msg::PopupActivity(PopupActivityMsg::PageSizeResult(self.get_selected_size() as usize)),
            ),
            KeyCode::Esc => Some(Msg::PopupActivity(PopupActivityMsg::ClosePageSize)),
            KeyCode::Up | KeyCode::Char('k') => {
                if self.selected_index > 0 {
                    self.selected_index = self.selected_index - 1;
                    Some(Msg::ForceRedraw)
                } else {
                    None
                }
            },
            KeyCode::Down | KeyCode::Char('j') => {
                if self.selected_index < self.options.len() - 1 {
                    self.selected_index = self.selected_index + 1;
                    Some(Msg::ForceRedraw)
                } else {
                    None
                }
            },
            KeyCode::Char(c) => {
                match to_decimal_digit(c) {
                    Some(digit) => {
                        let target_size = digit * 100;
                        match self.position_of(target_size) {
                            Some(index) => {
                                proof {
                                    assert(page_size_options()[digit - 1] == target_size);
                                    if index != digit - 1 {
                                        assert(self.options@[index as int] == (100 * (index + 1)) as u32);
                                    }
                                }
                                self.selected_index = index;
                                Some(Msg::ForceRedraw)
                            },
                            None => {
                                proof {
                                    if 1 <= digit <= 9 {
                                        assert(self.options@[digit - 1] == target_size);
                                    }
                                }
                                None
                            },
                        }
                    },
                    None => None,
                }
            },
            _ => None,
        }
    }

    /// The options as listed: a filled or empty bullet, the label, and
    /// whether the option is selected.
    pub fn render_options(&self) -> (r: Vec<(String, String, bool)>)
        ensures
            r.len() == self.options.len(),
            forall|i: int|
                0 <= i < r.len() ==> {
                    let sel = i == self.selected_index;
                    &&& (#[trigger] r[i]).0@ == if sel {
                        "● "@
                    } else {
                        "○ "@
                    }
                    &&& r[i].1@ == decimal(self.options@[i] as nat) + " messages per page"@
                    &&& r[i].2 == sel
                },
    {
        let mut lines: Vec<(String, String, bool)> = Vec::new();
        let mut i: usize = 0;
        while i < self.options.len()
            invariant
                i <= self.options.len(),
                lines.len() == i,
                forall|k: int|
                    0 <= k < i ==> {
                        let sel = k == self.selected_index;
                        &&& (#[trigger] lines[k]).0@ == if sel {
                            "● "@
                        } else {
                            "○ "@
                        }
                        &&& lines[k].1@ == decimal(self.options@[k] as nat) + " messages per page"@
                        &&& lines[k].2 == sel
                    },
            decreases self.options.len() - i,
        {
            let is_selected = i == self.selected_index;
            let prefix = if is_selected {
                owned("● ")
            } else {
                owned("○ ")
            };
            let mut label = unsigned_to_string(self.options[i] as u128);
            label.append(" messages per page");
            lines.push((prefix, label, is_selected));
            i = i + 1;
        }
        lines
    }
}

impl ComponentState for PageSizePopup {
    /// Marks the popup mounted.
    fn mount(&mut self) -> (r: Result<(), AppError>)
        ensures
            r is Ok,
            final(self).is_mounted,
            final(self).options == old(self).options,
            final(self).selected_index == old(self).selected_index,
    {
        self.is_mounted = true;
        Ok(())
    }
}

// ---------------------------------------------------------------------------
// Number input
// ---------------------------------------------------------------------------

/// How the input field is shown.
#[derive(Debug, Clone, Copy, PartialEq, Eq, Structural)]
pub enum InputFieldStyle {
    /// Nothing typed: a placeholder.
    Placeholder,
    Valid,
    Invalid,
}

/// Asks for a number within bounds.
pub struct NumberInputPopup {
    pub title: String,
    pub message: String,
    pub min_value: usize,
    pub max_value: usize,
    pub current_input: String,
    pub validator: NumericRangeValidator,
    pub is_mounted: bool,
}

/// The number used where nothing is typed: 10, brought within the bounds.
pub open spec fn default_number(min_value: usize, max_value: usize) -> usize {
    let at_least = if min_value > 10 {
        min_value
    } else {
        10
    };
    if at_least < max_value {
        at_least
    } else {
        max_value
    }
}

/// The number an input gives: the default for no input, otherwise the
/// input read as a `usize` where the validator accepts it.
pub open spec fn input_number(p: NumberInputPopup) -> Option<usize> {
    if p.current_input@.len() == 0 {
        Some(default_number(p.min_value, p.max_value))
    } else if numeric_range_outcome(p.validator.field_name@, p.validator.min, p.validator.max, p.current_input@) is Ok {
        match parse_unsigned(p.current_input@) {
            Some(v) => if v <= usize::MAX {
                Some(v as usize)
            } else {
                None
            },
            None => None,
        }
    } else {
        None
    }
}

/// Text that reads as an unsigned number has no surrounding whitespace and
/// reads as the same signed number.
proof fn lemma_unsigned_reads_signed(s: Seq<char>)
    requires
        parse_unsigned(s) is Some,
    ensures
        trim(s) == s,
        parse_signed(s) == parse_unsigned(s),
{
    assert(s.len() > 0);
    assert(!is_unicode_whitespace(s[0]));
    assert(is_digit_char(s.last()));
    assert(!is_unicode_whitespace(s.last()));
    assert(trim_start(s) == s);
    assert(trim_end(s) == s);
}

/// The number a well-formed popup answers lies within its bounds: the
/// default where nothing is typed, otherwise the typed number, which the
/// validator checked against the bounds.
pub proof fn lemma_number_within_bounds(p: NumberInputPopup)
    requires
        p.wf(),
        p.min_value <= p.max_value <= i64::MAX,
    ensures
        input_number(p) matches Some(n) ==> p.min_value <= n <= p.max_value,
{
    if p.current_input@.len() > 0 {
        if let Some(v) = parse_unsigned(p.current_input@) {
            lemma_unsigned_reads_signed(p.current_input@);
        }
    }
}

impl NumberInputPopup {
    /// The validator accepts whole numbers between the bounds, under the
    /// field name "number".
    pub open spec fn wf(self) -> bool {
        &&& self.validator.field_name@ == "number"@
        &&& self.validator.min == Some(self.min_value as i64)
        &&& self.validator.max == Some(self.max_value as i64)
    }

    /// A popup with nothing typed.
    pub fn new(title: String, message: String, min_value: usize, max_value: usize) -> (r: Self)
        ensures
            r.wf(),
            r.title == title,
            r.message == message,
            r.min_value == min_value,
            r.max_value == max_value,
            r.current_input@.len() == 0,
            !r.is_mounted,
    {
        NumberInputPopup {
            title,
            message,
            min_value,
            max_value,
            current_input: String::new(),
            validator: NumericRangeValidator::new("number").with_range(
                min_value as i64,
                max_value as i64,
            ),
            is_mounted: false,
        }
    }

    /// The number the input gives, if any (see [`input_number`]).
    pub fn validate_and_get_number(&self) -> (r: Option<usize>)
        ensures
            r == input_number(*self),
    {
        if self.current_input.as_str().is_empty() {
            return Some(self.get_default_value());
        }
        match self.validator.validate(self.current_input.as_str()) {
            Ok(_) => crate::text::parse_usize(self.current_input.as_str()),
            Err(_) => None,
        }
    }

    /// Whether the input is valid, with the validator's message where it is
    /// not; no input is valid.
    pub fn get_validation_state(&self) -> (r: ValidationState)
        ensures
            self.current_input@.len() == 0 ==> r.is_valid && r.error_message is None,
            self.current_input@.len() > 0 ==> match numeric_range_outcome(
                self.validator.field_name@,
                self.validator.min,
                self.validator.max,
                self.current_input@,
            ) {
                Ok(()) => r.is_valid && r.error_message is None,
                Err(e) => !r.is_valid && opt_view(r.error_message) == Some(e.message()),
            },
    {
        if self.current_input.as_str().is_empty() {
            return ValidationState::valid();
        }
        match self.validator.validate(self.current_input.as_str()) {
            Ok(()) => ValidationState::from_result(Ok(())),
            Err(e) => ValidationState::from_result(Err(e.user_message())),
        }
    }

    /// The number used where nothing is typed.
    pub fn get_default_value(&self) -> (r: usize)
        ensures
            r == default_number(self.min_value, self.max_value),
    {
        let at_least = if self.min_value > 10 {
            self.min_value
        } else {
            10
        };
        if at_least < self.max_value {
            at_least
        } else {
            self.max_value
        }
    }

    /// The input field: a placeholder while nothing is typed, otherwise the
    /// input, valid or not.
    pub fn render_input_field(&self) -> (r: (String, InputFieldStyle))
        ensures
            self.current_input@.len() == 0 ==> r.0@ == "Type a number..."@ && r.1
                == InputFieldStyle::Placeholder,
            self.current_input@.len() > 0 ==> r.0@ == self.current_input@ && r.1 == if numeric_range_outcome(
                self.validator.field_name@,
                self.validator.min,
                self.validator.max,
                self.current_input@,
            ) is Ok {
                InputFieldStyle::Valid
            } else {
                InputFieldStyle::Invalid
            },
    {
        if self.current_input.as_str().is_empty() {
            return (owned("Type a number..."), InputFieldStyle::Placeholder);
        }
        let state = self.get_validation_state();
        let style = if state.is_valid {
            InputFieldStyle::Valid
        } else {
            InputFieldStyle::Invalid
        };
        (self.current_input.clone(), style)
    }

    /// The warning shown under an invalid input.
    pub fn render_validation_feedback(&self) -> (r: Option<String>)
        ensures
            self.current_input@.len() == 0 ==> r is None,
            self.current_input@.len() > 0 ==> match numeric_range_outcome(
                self.validator.field_name@,
                self.validator.min,
                self.validator.max,
                self.current_input@,
            ) {
                Ok(()) => r is None,
                Err(e) => opt_view(r) == Some("⚠ "@ + e.message()),
            },
    {
        let state = self.get_validation_state();
        if !state.is_valid {
            if let Some(error_message) = state.error_message {
                let mut r = owned("⚠ ");
                r.append(error_message.as_str());
                return Some(r);
            }
        }
        None
    }

    /// The line stating the bounds and the default.
    pub fn range_text(&self) -> (r: String)
        ensures
            r@ == "Range: "@ + decimal(self.min_value as nat) + " to "@ + decimal(
                self.max_value as nat,
            ) + " (Enter for default: "@ + decimal(
                default_number(self.min_value, self.max_value) as nat,
            ) + ")"@,
    {
        let mut r = owned("Range: ");
        let lo = unsigned_to_string(self.min_value as u128);
        r.append(lo.as_str());
        r.append(" to ");
        let hi = unsigned_to_string(self.max_value as u128);
        r.append(hi.as_str());
        r.append(" (Enter for default: ");
        let d = unsigned_to_string(self.get_default_value() as u128);
        r.append(d.as_str());
        r.append(")");
        r
    }

    /// Esc answers 0 (cancelled); Enter answers the number the input gives,
    /// or nothing where it gives none; a digit is typed while fewer than four
    /// bytes are; backspace removes the last character.
    pub fn on(&mut self, key: KeyInput) -> (r: Option<Msg>)
        ensures
            final(self).title == old(self).title,
            final(self).message == old(self).message,
            final(self).min_value == old(self).min_value,
            final(self).max_value == old(self).max_value,
            final(self).validator == old(self).validator,
            final(self).is_mounted == old(self).is_mounted,
            ({
                let plain = key.modifiers.is_none();
                let input = old(self).current_input@;
                if plain && key.code == KeyCode::Esc {
                    final(self).current_input@ == input && r == Some(
                        Msg::PopupActivity(PopupActivityMsg::NumberInputResult(0)),
                    )
                } else if plain && key.code == KeyCode::Enter {
                    final(self).current_input@ == input && r == match input_number(*old(self)) {
                        Some(n) => Some(Msg::PopupActivity(PopupActivityMsg::NumberInputResult(n))),
                        None => None,
                    }
                } else if plain && key.code is Char {
                    let c = key.code->0;
                    if is_digit_char(c) && crate::text::byte_len(input) < 4 {
                        final(self).current_input@ == input.push(c) && r == Some(Msg::ForceRedraw)
                    } else {
                        final(self).current_input@ == input && r is None
                    }
                } else if plain && key.code == KeyCode::Backspace {
                    final(self).current_input@ == (if input.len() > 0 {
                        input.drop_last()
                    } else {
                        input
                    }) && r == Some(Msg::ForceRedraw)
                } else {
                    final(self).current_input@ == input && r is None
                }
            }),
    {
        if !key.modifiers.plain() {
            return None;
        }
        match key.code {
            KeyCode::Esc => Some(Msg::PopupActivity(PopupActivityMsg::NumberInputResult(0))),
            KeyCode::Enter => match self.validate_and_get_number() {
                Some(number) => Some(Msg::PopupActivity(PopupActivityMsg::NumberInputResult(number))),
                None => None,
            },
            KeyCode::Char(c) => {
                let len = crate::text::str_byte_len(self.current_input.as_str());
                if '0' <= c && c <= '9' && len < 4 {
                    string_push(&mut self.current_input, c);
                    Some(Msg::ForceRedraw)
                } else {
                    None
                }
            },
            KeyCode::Backspace => {
                crate::text::string_pop(&mut self.current_input);
                Some(Msg::ForceRedraw)
            },
            _ => None,
        }
    }
}

impl ComponentState for NumberInputPopup {
    /// Clears the input the first time the popup is mounted.
    fn mount(&mut self) -> (r: Result<(), AppError>)
        ensures
            r is Ok,
            final(self).is_mounted,
            !old(self).is_mounted ==> final(self).current_input@.len() == 0,
            old(self).is_mounted ==> final(self).current_input == old(self).current_input,
            final(self).title == old(self).title,
            final(self).message == old(self).message,
            final(self).min_value == old(self).min_value,
            final(self).max_value == old(self).max_value,
            final(self).validator == old(self).validator,
    {
        if self.is_mounted {
            return Ok(());
        }
        self.current_input = String::new();
        self.is_mounted = true;
        Ok(())
    }
}


// ---------------------------------------------------------------------------
// Master password
// ---------------------------------------------------------------------------

/// What a command to a popup asks for.
#[derive(Debug, Clone, Copy, PartialEq, Eq, Structural)]
pub enum PopupCommand {
    Submit,
    Cancel,
    Other,
}

/// What a popup answers a command with.
#[derive(Debug, Clone, Copy, PartialEq, Eq, Structural)]
pub enum PopupCommandResult {
    NoChange,
    Submit,
    Cancel,
}

/// Longest password accepted, in bytes.
pub const MAX_PASSWORD_LENGTH: usize = 512;

/// Asks for the master password that decrypts the connection string.
pub struct PasswordPopup {
    pub password: String,
    pub error_message: Option<String>,
}

/// The settings handed over for a master password: connection string
/// authentication and the password, nothing else.
pub open spec fn password_update(data: ConfigUpdateData, password: Seq<char>) -> bool {
    &&& data.auth_method@ == "connection_string"@
    &&& data.tenant_id is None
    &&& data.client_id is None
    &&& data.client_secret is None
    &&& data.subscription_id is None
    &&& data.resource_group is None
    &&& data.namespace is None
    &&& data.connection_string is None
    &&& opt_view(data.master_password) == Some(password)
    &&& data.queue_name is None
}

/// At most 30 stars, one per byte of the password, then a cursor; or
/// `<empty>` for no password.
pub open spec fn masked_password_text(password: Seq<char>) -> Seq<char> {
    let n = crate::text::byte_len(password);
    if n == 0 {
        "<empty>"@
    } else {
        crate::text::repeat_char('*', if n < 30 {
            n
        } else {
            30
        }) + "_"@
    }
}

/// The masked password shows nothing of the password but its length: two
/// passwords of the same length in bytes are shown alike.
pub proof fn lemma_mask_shows_only_length(p: Seq<char>, q: Seq<char>)
    requires
        crate::text::byte_len(p) == crate::text::byte_len(q),
    ensures
        masked_password_text(p) == masked_password_text(q),
{
}

impl PasswordPopup {
    /// An empty prompt.
    pub fn new() -> (r: Self)
        ensures
            r.password@.len() == 0,
            r.error_message is None,
    {
        PasswordPopup { password: String::new(), error_message: None }
    }

    /// An empty prompt showing why the last password failed.
    pub fn with_error(error_message: String) -> (r: Self)
        ensures
            r.password@.len() == 0,
            r.error_message == Some(error_message),
    {
        PasswordPopup { password: String::new(), error_message: Some(error_message) }
    }

    /// The password typed.
    pub fn get_password(&self) -> (r: String)
        ensures
            r@ == self.password@,
    {
        self.password.clone()
    }

    /// The password as shown: masked.
    pub fn masked_password(&self) -> (r: String)
        ensures
            r@ == masked_password_text(self.password@),
    {
        let n = crate::text::str_byte_len(self.password.as_str());
        if n == 0 {
            return owned("<empty>");
        }
        let shown = if n < 30 {
            n
        } else {
            30
        };
        let mut r = crate::text::repeat('*', shown);
        r.append("_");
        r
    }

    /// The heights of the prompt's rows: title, instructions, field, error
    /// (none without an error) and actions, which take the rest.
    pub fn row_heights(&self) -> (r: [u16; 4])
        ensures
            r@ == seq![3u16, 3u16, 3u16, if self.error_message is Some {
                3u16
            } else {
                0u16
            }],
    {
        let error_height: u16 = if self.error_message.is_some() {
            3
        } else {
            0
        };
        let r = [3, 3, 3, error_height];
        proof {
            assert(r@ =~= seq![3u16, 3u16, 3u16, error_height]);
        }
        r
    }

    /// The row of the actions: after the error where there is one.
    pub fn actions_row(&self) -> (r: usize)
        ensures
            r == if self.error_message is Some {
                4usize
            } else {
                3usize
            },
    {
        if self.error_message.is_some() {
            4
        } else {
            3
        }
    }

    /// The actions listed under the prompt, keys highlighted.
    pub fn actions(&self) -> (r: Vec<(String, bool)>)
        ensures
            crate::help::bar_views(r@) == seq![
                ("[Enter]"@, true),
                (" submit "@, false),
                ("[Esc]"@, true),
                (" cancel "@, false),
                ("[C]"@, true),
                (" open config"@, false),
            ],
    {
        let r = vec![
            (owned("[Enter]"), true),
            (owned(" submit "), false),
            (owned("[Esc]"), true),
            (owned(" cancel "), false),
            (owned("[C]"), true),
            (owned(" open config"), false),
        ];
        proof {
            assert(crate::help::bar_views(r@) =~= seq![
                ("[Enter]"@, true),
                (" submit "@, false),
                ("[Esc]"@, true),
                (" cancel "@, false),
                ("[C]"@, true),
                (" open config"@, false),
            ]);
        }
        r
    }

    /// Submitting needs a password that is not blank; cancelling always
    /// goes through.
    pub fn perform(&mut self, cmd: PopupCommand) -> (r: PopupCommandResult)
        ensures
            final(self).password == old(self).password,
            final(self).error_message == old(self).error_message,
            r == match cmd {
                PopupCommand::Submit => if crate::text::is_blank(old(self).password@) {
                    PopupCommandResult::NoChange
                } else {
                    PopupCommandResult::Submit
                },
                PopupCommand::Cancel => PopupCommandResult::Cancel,
                PopupCommand::Other => PopupCommandResult::NoChange,
            },
    {
        match cmd {
            PopupCommand::Submit => if crate::text::is_blank_str(self.password.as_str()) {
                PopupCommandResult::NoChange
            } else {
                PopupCommandResult::Submit
            },
            PopupCommand::Cancel => PopupCommandResult::Cancel,
            PopupCommand::Other => PopupCommandResult::NoChange,
        }
    }

    /// Esc cancels; Enter hands over a password that is not blank; a plain
    /// `c` or `C` opens the configuration screen; backspace removes the last
    /// character; any other character is typed while the password is under
    /// 512 bytes.
    pub fn on(&mut self, key: KeyInput) -> (r: Option<Msg>)
        ensures
            final(self).error_message == old(self).error_message,
            ({
                let p = old(self).password@;
                match key.code {
                    KeyCode::Esc => final(self).password == old(self).password && r == Some(
                        Msg::ConfigActivity(ConfigActivityMsg::Cancel),
                    ),
                    KeyCode::Enter => final(self).password == old(self).password && if crate::text::is_blank(p) {
                        r is None
                    } else {
                        r matches Some(Msg::ConfigActivity(ConfigActivityMsg::ConfirmAndProceed(data)))
                            && password_update(data, p)
                    },
                    KeyCode::Char(c) => if (c == 'c' || c == 'C') && key.modifiers.is_none() {
                        final(self).password == old(self).password && r == Some(Msg::ToggleConfigScreen)
                    } else {
                        final(self).password@ == (if crate::text::byte_len(p) < MAX_PASSWORD_LENGTH {
                            p.push(c)
                        } else {
                            p
                        }) && r == Some(Msg::ForceRedraw)
                    },
                    KeyCode::Backspace => final(self).password@ == (if p.len() > 0 {
                        p.drop_last()
                    } else {
                        p
                    }) && r == Some(Msg::ForceRedraw),
                    _ => final(self).password == old(self).password && r is None,
                }
            }),
    {
        match key.code {
            KeyCode::Esc => Some(Msg::ConfigActivity(ConfigActivityMsg::Cancel)),
            KeyCode::Enter => {
                if crate::text::is_blank_str(self.password.as_str()) {
                    None
                } else {
                    let config_data = ConfigUpdateData {
                        auth_method: owned("connection_string"),
                        tenant_id: None,
                        client_id: None,
                        client_secret: None,
                        subscription_id: None,
                        resource_group: None,
                        namespace: None,
                        connection_string: None,
                        master_password: Some(self.password.clone()),
                        queue_name: None,
                    };
                    Some(Msg::ConfigActivity(ConfigActivityMsg::ConfirmAndProceed(config_data)))
                }
            },
            KeyCode::Char(c) => {
                if (c == 'c' || c == 'C') && key.modifiers.plain() {
                    Some(Msg::ToggleConfigScreen)
                } else {
                    if crate::text::str_byte_len(self.password.as_str()) < MAX_PASSWORD_LENGTH {
                        string_push(&mut self.password, c);
                    }
                    Some(Msg::ForceRedraw)
                }
            },
            KeyCode::Backspace => {
                crate::text::string_pop(&mut self.password);
                Some(Msg::ForceRedraw)
            },
            _ => None,
        }
    }
}

impl Default for PasswordPopup {
    /// An empty prompt.
    fn default() -> (r: Self)
        ensures
            r.password@.len() == 0,
            r.error_message is None,
    {
        Self::new()
    }
}

impl ComponentState for PasswordPopup {
    /// Nothing to prepare.
    fn mount(&mut self) -> (r: Result<(), AppError>)
        ensures
            r is Ok,
            *final(self) == *old(self),
    {
        Ok(())
    }
}

// ---------------------------------------------------------------------------
// Azure AD authentication
// ---------------------------------------------------------------------------

/// The stage of a device code sign-in.
#[derive(Debug, Clone, PartialEq)]
pub enum AuthPopupState {
    /// The code to enter at the verification address; `expires_at_ms` is
    /// when it expires, on the clock the view is given.
    ShowingDeviceCode {
        user_code: String,
        verification_url: String,
        message: String,
        expires_at_ms: Option<u64>,
    },
    Authenticating,
    Success,
    Failed(String),
}

impl Default for AuthPopupState {
    /// Waiting for the sign-in.
    fn default() -> (r: Self)
        ensures
            r is Authenticating,
    {
        AuthPopupState::Authenticating
    }
}

/// Shows the progress of a device code sign-in.
pub struct AuthPopup {
    pub state: AuthPopupState,
    pub is_mounted: bool,
}

/// A number written with at least two digits.
pub open spec fn two_digits(n: nat) -> Seq<char> {
    if n < 10 {
        "0"@ + decimal(n)
    } else {
        decimal(n)
    }
}

/// The style of a countdown with `secs` seconds left.
pub open spec fn timer_style(secs: nat) -> PopupSpanStyle {
    if secs < 60 {
        PopupSpanStyle::TimerCritical
    } else if secs < 300 {
        PopupSpanStyle::TimerWarning
    } else {
        PopupSpanStyle::TimerOk
    }
}

/// `n` with at least two digits.
fn two_digit_text(n: u64) -> (r: String)
    ensures
        r@ == two_digits(n as nat),
{
    if n < 10 {
        let mut r = owned("0");
        let d = unsigned_to_string(n as u128);
        r.append(d.as_str());
        r
    } else {
        unsigned_to_string(n as u128)
    }
}

/// A line of two spans.
fn two_spans(a: &str, a_style: PopupSpanStyle, b: String, b_style: PopupSpanStyle) -> (r: Vec<PopupSpan>)
    ensures
        popup_line_view(r@) == seq![(a@, a_style), (b@, b_style)],
{
    let r = vec![PopupSpan { text: owned(a), style: a_style }, PopupSpan { text: b, style: b_style }];
    proof {
        assert(popup_line_view(r@) =~= seq![(a@, a_style), (b@, b_style)]);
    }
    r
}

/// The lines for the countdown of a code expiring at `expires_at_ms`, at
/// time `now_ms`.
pub open spec fn countdown_lines(expires_at_ms: Option<u64>, now_ms: u64) -> Seq<Seq<(Seq<char>, PopupSpanStyle)>> {
    match expires_at_ms {
        Some(at) => if now_ms < at {
            let secs = ((at - now_ms) / 1000) as nat;
            seq![
                empty_line(),
                seq![
                    ("Time remaining: "@, PopupSpanStyle::Text),
                    (two_digits(secs / 60) + ":"@ + two_digits(secs % 60), timer_style(secs)),
                ],
            ]
        } else {
            seq![empty_line(), plain_line("Authentication timeout - please restart"@, PopupSpanStyle::ErrorText)]
        },
        None => Seq::empty(),
    }
}

/// The key buttons of the device code stage.
pub open spec fn device_code_buttons() -> Seq<(Seq<char>, PopupSpanStyle)> {
    seq![
        ("[Y]"@, PopupSpanStyle::YesKey),
        (" Copy code   "@, PopupSpanStyle::Text),
        ("[O]"@, PopupSpanStyle::Highlight),
        (" Open URL   "@, PopupSpanStyle::Text),
        ("[ESC]"@, PopupSpanStyle::NoKey),
        (" Cancel"@, PopupSpanStyle::Text),
    ]
}

impl AuthPopup {
    /// A popup at the given stage.
    pub fn new(state: AuthPopupState) -> (r: Self)
        ensures
            r.state == state,
            !r.is_mounted,
    {
        AuthPopup { state, is_mounted: false }
    }

    /// Showing the code: `y` copies it, `o` opens the address, Esc cancels.
    /// After a failure: `r` retries, Esc cancels. After success any key
    /// closes the popup. While authenticating keys are ignored.
    pub fn on(&mut self, key: KeyInput) -> (r: Option<Msg>)
        ensures
            *final(self) == *old(self),
            r == match old(self).state {
                AuthPopupState::ShowingDeviceCode { .. } => match key.code {
                    KeyCode::Char('y') => Some(Msg::AuthActivity(AuthActivityMsg::CopyDeviceCode)),
                    KeyCode::Char('o') => Some(Msg::AuthActivity(AuthActivityMsg::OpenVerificationUrl)),
                    KeyCode::Esc => Some(Msg::AuthActivity(AuthActivityMsg::CancelAuthentication)),
                    _ => None,
                },
                AuthPopupState::Failed(_) => match key.code {
                    KeyCode::Char('r') => Some(Msg::AuthActivity(AuthActivityMsg::Login)),
                    KeyCode::Esc => Some(Msg::AuthActivity(AuthActivityMsg::CancelAuthentication)),
                    _ => None,
                },
                AuthPopupState::Success => Some(Msg::AuthActivity(AuthActivityMsg::CancelAuthentication)),
                AuthPopupState::Authenticating => None,
            },
    {
        match &self.state {
            AuthPopupState::ShowingDeviceCode { .. } => match key.code {
                KeyCode::Char('y') => Some(Msg::AuthActivity(AuthActivityMsg::CopyDeviceCode)),
                KeyCode::Char('o') => Some(Msg::AuthActivity(AuthActivityMsg::OpenVerificationUrl)),
                KeyCode::Esc => Some(Msg::AuthActivity(AuthActivityMsg::CancelAuthentication)),
                _ => None,
            },
            AuthPopupState::Failed(_) => match key.code {
                KeyCode::Char('r') => Some(Msg::AuthActivity(AuthActivityMsg::Login)),
                KeyCode::Esc => Some(Msg::AuthActivity(AuthActivityMsg::CancelAuthentication)),
                _ => None,
            },
            AuthPopupState::Success => Some(Msg::AuthActivity(AuthActivityMsg::CancelAuthentication)),
            AuthPopupState::Authenticating => None,
        }
    }

    /// The popup for the current stage at time `now_ms`. Showing the code: the
    /// message, the code, the address, the countdown (or a timeout notice)
    /// and the key buttons.
    pub fn content(&self, now_ms: u64) -> (r: PopupBuilder)
        ensures
            match self.state {
                AuthPopupState::ShowingDeviceCode { user_code, verification_url, message, expires_at_ms } => {
                    &&& r.title@ == "Azure AD Authentication"@
                    &&& r.style == PopupStyle::Default
                    &&& r.instructions is None
                    &&& r.lines() == lines_of(message@).map_values(
                        |l: Seq<char>| plain_line(l, PopupSpanStyle::Text),
                    ) + seq![
                        empty_line(),
                        seq![("User Code: "@, PopupSpanStyle::Text), (user_code@, PopupSpanStyle::Highlight)],
                        empty_line(),
                        seq![
                            ("Verification URL: "@, PopupSpanStyle::Text),
                            (verification_url@, PopupSpanStyle::Link),
                        ],
                    ] + countdown_lines(expires_at_ms, now_ms) + seq![
                        empty_line(),
                        empty_line(),
                        device_code_buttons(),
                    ]
                },
                AuthPopupState::Authenticating => {
                    &&& r.title@ == "🔐 Azure AD Authentication"@
                    &&& r.style == PopupStyle::Default
                    &&& r.instructions is None
                    &&& r.lines() == seq![
                        plain_line("Waiting for authentication..."@, PopupSpanStyle::Text),
                        empty_line(),
                        plain_line("Please complete the authentication in your browser"@, PopupSpanStyle::Text),
                    ]
                },
                AuthPopupState::Success => {
                    &&& r.title@ == "✅ Authentication Successful"@
                    &&& r.style == PopupStyle::Success
                    &&& opt_view(r.instructions) == Some("Press any key to continue"@)
                    &&& r.lines() == seq![
                        plain_line("You have been successfully authenticated"@, PopupSpanStyle::Text),
                        empty_line(),
                    ]
                },
                AuthPopupState::Failed(error) => {
                    &&& r.title@ == "❌ Authentication Failed"@
                    &&& r.style == PopupStyle::Error
                    &&& opt_view(r.instructions) == Some("Press 'r' to retry | Press 'Esc' to cancel"@)
                    &&& r.lines() == seq![plain_line(error@, PopupSpanStyle::Text), empty_line()]
                },
            },
    {
        match &self.state {
            AuthPopupState::ShowingDeviceCode { user_code, verification_url, message, expires_at_ms } => {
                let mut builder = PopupBuilder::new("Azure AD Authentication");
                let lines = str_lines(message.as_str());
                let mut i: usize = 0;
                while i < lines.len()
                    invariant
                        i <= lines.len(),
                        string_views(lines@) == lines_of(message@),
                        builder.title@ == "Azure AD Authentication"@,
                        builder.style == PopupStyle::Default,
                        builder.instructions is None,
                        builder.lines() == string_views(lines@).take(i as int).map_values(
                            |l: Seq<char>| plain_line(l, PopupSpanStyle::Text),
                        ),
                    decreases lines.len() - i,
                {
                    builder = builder.add_text(lines[i].as_str());
                    proof {
                        assert(string_views(lines@).take(i + 1).map_values(
                            |l: Seq<char>| plain_line(l, PopupSpanStyle::Text),
                        ) =~= string_views(lines@).take(i as int).map_values(
                            |l: Seq<char>| plain_line(l, PopupSpanStyle::Text),
                        ).push(plain_line(lines@[i as int]@, PopupSpanStyle::Text)));
                    }
                    i = i + 1;
                }
                proof {
                    assert(string_views(lines@).take(lines.len() as int) =~= string_views(lines@));
                }
                let ghost head = builder.lines();
                builder = builder.add_empty_line();
                builder = builder.add_line(
                    two_spans("User Code: ", PopupSpanStyle::Text, user_code.clone(), PopupSpanStyle::Highlight),
                );
                builder = builder.add_empty_line();
                builder = builder.add_line(
                    two_spans(
                        "Verification URL: ",
                        PopupSpanStyle::Text,
                        verification_url.clone(),
                        PopupSpanStyle::Link,
                    ),
                );
                let ghost mid = builder.lines();
                match expires_at_ms {
                    Some(at) => {
                        if now_ms < *at {
                            let secs = (*at - now_ms) / 1000;
                            let style = if secs < 60 {
                                PopupSpanStyle::TimerCritical
                            } else if secs < 300 {
                                PopupSpanStyle::TimerWarning
                            } else {
                                PopupSpanStyle::TimerOk
                            };
                            let mut timer = two_digit_text(secs / 60);
                            timer.append(":");
                            let s = two_digit_text(secs % 60);
                            timer.append(s.as_str());
                            builder = builder.add_empty_line();
                            builder = builder.add_line(
                                two_spans("Time remaining: ", PopupSpanStyle::Text, timer, style),
                            );
                        } else {
                            builder = builder.add_empty_line().add_error_text(
                                "Authentication timeout - please restart",
                            );
                        }
                    },
                    None => {},
                }
                proof {
                    assert(builder.lines() =~= mid + countdown_lines(*expires_at_ms, now_ms));
                }
                let buttons = vec![
                    PopupSpan { text: owned("[Y]"), style: PopupSpanStyle::YesKey },
                    PopupSpan { text: owned(" Copy code   "), style: PopupSpanStyle::Text },
                    PopupSpan { text: owned("[O]"), style: PopupSpanStyle::Highlight },
                    PopupSpan { text: owned(" Open URL   "), style: PopupSpanStyle::Text },
                    PopupSpan { text: owned("[ESC]"), style: PopupSpanStyle::NoKey },
                    PopupSpan { text: owned(" Cancel"), style: PopupSpanStyle::Text },
                ];
                proof {
                    assert(popup_line_view(buttons@) =~= device_code_buttons());
                }
                let r = builder.add_empty_line().add_empty_line().add_line(buttons);
                proof {
                    assert(r.lines() =~= lines_of(message@).map_values(
                        |l: Seq<char>| plain_line(l, PopupSpanStyle::Text),
                    ) + seq![
                        empty_line(),
                        seq![("User Code: "@, PopupSpanStyle::Text), (user_code@, PopupSpanStyle::Highlight)],
                        empty_line(),
                        seq![
                            ("Verification URL: "@, PopupSpanStyle::Text),
                            (verification_url@, PopupSpanStyle::Link),
                        ],
                    ] + countdown_lines(*expires_at_ms, now_ms) + seq![
                        empty_line(),
                        empty_line(),
                        device_code_buttons(),
                    ]);
                }
                r
            },
            AuthPopupState::Authenticating => {
                let r = PopupBuilder::new("🔐 Azure AD Authentication").add_text(
                    "Waiting for authentication...",
                ).add_empty_line().add_text("Please complete the authentication in your browser");
                proof {
                    assert(r.lines() =~= seq![
                        plain_line("Waiting for authentication..."@, PopupSpanStyle::Text),
                        empty_line(),
                        plain_line("Please complete the authentication in your browser"@, PopupSpanStyle::Text),
                    ]);
                }
                r
            },
            AuthPopupState::Success => {
                let r = PopupBuilder::success("✅ Authentication Successful").add_text(
                    "You have been successfully authenticated",
                ).add_empty_line().with_instructions("Press any key to continue");
                proof {
                    assert(r.lines() =~= seq![
                        plain_line("You have been successfully authenticated"@, PopupSpanStyle::Text),
                        empty_line(),
                    ]);
                }
                r
            },
            AuthPopupState::Failed(error) => {
                let r = PopupBuilder::error("❌ Authentication Failed").add_text(error.as_str()).add_empty_line().with_instructions(
                    "Press 'r' to retry | Press 'Esc' to cancel",
                );
                proof {
                    assert(r.lines() =~= seq![plain_line(error@, PopupSpanStyle::Text), empty_line()]);
                }
                r
            },
        }
    }
}

impl ComponentState for AuthPopup {
    /// Marks the popup mounted.
    fn mount(&mut self) -> (r: Result<(), AppError>)
        ensures
            r is Ok,
            final(self).is_mounted,
            final(self).state == old(self).state,
    {
        self.is_mounted = true;
        Ok(())
    }
}

} // verus!
