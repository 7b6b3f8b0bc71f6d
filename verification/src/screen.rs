//! The screen: the geometry of the terminal, the layout of margin and mode
//! line on it, the cursor model, and the text that every drawing
//! operation sends to the terminal.
//!
//! Nothing here writes. A drawing operation returns its text; the caller
//! sends it as it stands.

use crate::buffer::{rope_char, rope_insert, rope_len_chars, rope_new, rope_remove, rope_text};
use crate::cursor::{reply_consumes, Point};
use crate::echo::{shown, EchoArea};
use crate::escape::{
    move_to, push_move_to, CLR_LN, CLR_LN_CURSR_END, CLR_LN_UPTO_CURSR, CLR_SCRN,
    CLR_SCRN_CURSR_END, HIDE_CURSOR, MV_DOWN, MV_LEFT, MV_RIGHT, MV_UP, SCROLL_DOWN, SCROLL_UP,
};
use crate::event::Key;
use crate::session::TermAttrs;
use crate::text::{decimal, push_char, push_decimal, push_repeated, repeated};
use ropey::Rope;
use vstd::prelude::*;
use vstd::string::*;

verus! {

/// The direction of a scroll by one line.
#[derive(Debug, Clone, Copy, PartialEq, Eq)]
pub enum Scroll {
    Up,
    Down,
}

/// The area of the screen that shows the text.
#[derive(Debug)]
pub struct TextWindow {
    bottom_ln: u16,
    rope: Rope,
    cur_line: usize,
}

/// The mode line at the bottom of the screen: a separator rule, and below
/// it the row with the cursor position and the echo area.
#[derive(Debug)]
pub struct ModeLine {
    thickness: u16,
    seperator: String,
    seperator_line: String,
    sep_line_pos: u16,
    msg_pos: u16,
    start_greeting: String,
    echo_area: EchoArea,
}

/// What a mode line holds.
pub struct ModeLineView {
    pub thickness: u16,
    pub seperator: Seq<char>,
    pub seperator_line: Seq<char>,
    pub sep_line_pos: u16,
    pub msg_pos: u16,
    pub start_greeting: Seq<char>,
    pub message: Seq<char>,
    pub error_log: Seq<char>,
    pub stored_at: u64,
    pub disp_len: u64,
}

impl View for ModeLine {
    type V = ModeLineView;

    closed spec fn view(&self) -> ModeLineView {
        ModeLineView {
            thickness: self.thickness,
            seperator: self.seperator@,
            seperator_line: self.seperator_line@,
            sep_line_pos: self.sep_line_pos,
            msg_pos: self.msg_pos,
            start_greeting: self.start_greeting@,
            message: self.echo_area.text(),
            error_log: self.echo_area.log(),
            stored_at: self.echo_area.stored_at(),
            disp_len: self.echo_area.duration(),
        }
    }
}

impl Default for ModeLine {
    fn default() -> (line: Self)
        ensures
            line@ == (ModeLineView {
                thickness: 0,
                seperator: Seq::empty(),
                seperator_line: Seq::empty(),
                sep_line_pos: 0,
                msg_pos: 0,
                start_greeting: Seq::empty(),
                message: Seq::empty(),
                error_log: Seq::empty(),
                stored_at: 0,
                disp_len: 3,
            }),
    {
        ModeLine {
            thickness: 0,
            seperator: String::new(),
            seperator_line: String::new(),
            sep_line_pos: 0,
            msg_pos: 0,
            start_greeting: String::new(),
            echo_area: EchoArea::default(),
        }
    }
}

impl ModeLine {
    /// Sets the text that the separator rule is made of.
    pub fn new_sep(&mut self, sep: &str)
        ensures
            final(self)@ == (ModeLineView { seperator: sep@, ..old(self)@ }),
    {
        self.seperator = String::from_str(sep)
    }

    /// Sets the number of rows that the mode line takes up.
    pub fn new_thickness(&mut self, thickness: u16)
        ensures
            final(self)@ == (ModeLineView { thickness, ..old(self)@ }),
    {
        self.thickness = thickness
    }

    /// The text that draws the separator rule at its row.
    pub fn draw_mode_line(&self) -> (text: String)
        ensures
            text@ == move_to(self@.sep_line_pos, 0) + " "@ + self@.seperator_line,
    {
        let mut text = String::new();
        push_move_to(&mut text, self.sep_line_pos, 0);
        text.append(" ");
        text.append(self.seperator_line.as_str());
        assert(text@ == Seq::<char>::empty() + (move_to(self@.sep_line_pos, 0) + " "@
            + self@.seperator_line));
        text
    }
}

/// The margin at the left of the screen, which holds the line numbers and
/// the indicator of the cursor's row.
#[derive(Debug)]
pub struct LeftMargin {
    thickness: u16,
    indicator: String,
    seperator_line: String,
}

/// What a left margin holds.
pub struct LeftMarginView {
    pub thickness: u16,
    pub indicator: Seq<char>,
    pub seperator_line: Seq<char>,
}

impl View for LeftMargin {
    type V = LeftMarginView;

    closed spec fn view(&self) -> LeftMarginView {
        LeftMarginView {
            thickness: self.thickness,
            indicator: self.indicator@,
            seperator_line: self.seperator_line@,
        }
    }
}

impl LeftMargin {
    /// A margin without width, with the indicator ` =>`.
    pub fn new() -> (margin: Self)
        ensures
            margin@ == (LeftMarginView {
                thickness: 0,
                indicator: " =>"@,
                seperator_line: Seq::empty(),
            }),
    {
        LeftMargin {
            thickness: 0,
            indicator: String::from_str(" =>"),
            seperator_line: String::new(),
        }
    }

    /// Sets the indicator of the cursor's row.
    pub fn new_sep(&mut self, indicator: &str)
        ensures
            final(self)@ == (LeftMarginView { indicator: indicator@, ..old(self)@ }),
    {
        self.indicator = String::from_str(indicator)
    }

    /// Sets the number of columns that the margin takes up.
    pub fn new_thickness(&mut self, thickness: u16)
        ensures
            final(self)@ == (LeftMarginView { thickness, ..old(self)@ }),
    {
        self.thickness = thickness
    }
}

impl Default for LeftMargin {
    fn default() -> (margin: Self)
        ensures
            margin@ == (LeftMarginView {
                thickness: 0,
                indicator: " =>"@,
                seperator_line: Seq::empty(),
            }),
    {
        Self::new()
    }
}

/// The screen of the editor.
#[derive(Debug)]
pub struct Screen {
    text_window: TextWindow,
    mode_line: ModeLine,
    left_margin: LeftMargin,
    point: Point,
    original_term: Option<TermAttrs>,
    winsize_row: u16,
    winsize_col: u16,
}

/// What a screen holds.
pub struct ScreenView {
    /// The rows and columns of the terminal.
    pub rows: u16,
    pub cols: u16,
    /// The cursor model.
    pub point: Point,
    /// The text that has been typed.
    pub text: Seq<char>,
    /// The last row of the text area.
    pub bottom_ln: u16,
    pub cur_line: usize,
    /// The mode line: its height, the text its rule is made of, the rule,
    /// the row of the rule, the column of the echo area and the greeting.
    pub ml_thickness: u16,
    pub ml_sep: Seq<char>,
    pub ml_sep_line: Seq<char>,
    pub sep_line_pos: u16,
    pub msg_pos: u16,
    pub greeting: Seq<char>,
    /// The echo area: the status text, the log of errors, the time at which
    /// the text was stored and the time for which it is shown.
    pub message: Seq<char>,
    pub error_log: Seq<char>,
    pub stored_at: u64,
    pub disp_len: u64,
    /// The left margin: its width, the indicator of the cursor's row and
    /// the template of numbered rows.
    pub lm_thickness: u16,
    pub indicator: Seq<char>,
    pub lm_sep_line: Seq<char>,
    /// The attributes that the terminal had before the editor changed
    /// them.
    pub original_term: Option<TermAttrs>,
}

impl View for Screen {
    type V = ScreenView;

    closed spec fn view(&self) -> ScreenView {
        ScreenView {
            rows: self.winsize_row,
            cols: self.winsize_col,
            point: self.point,
            text: rope_text(self.text_window.rope),
            bottom_ln: self.text_window.bottom_ln,
            cur_line: self.text_window.cur_line,
            ml_thickness: self.mode_line.thickness,
            ml_sep: self.mode_line.seperator@,
            ml_sep_line: self.mode_line.seperator_line@,
            sep_line_pos: self.mode_line.sep_line_pos,
            msg_pos: self.mode_line.msg_pos,
            greeting: self.mode_line.start_greeting@,
            message: self.mode_line.echo_area.text(),
            error_log: self.mode_line.echo_area.log(),
            stored_at: self.mode_line.echo_area.stored_at(),
            disp_len: self.mode_line.echo_area.duration(),
            lm_thickness: self.left_margin.thickness,
            indicator: self.left_margin.indicator@,
            lm_sep_line: self.left_margin.seperator_line@,
            original_term: self.original_term,
        }
    }
}

/// The number of rows that the template of the left margin is made for.
pub const MARGIN_ROWS: u16 = 60;

impl ScreenView {
    /// A screen of the given size on which nothing has been laid out.
    pub open spec fn blank(rows: u16, cols: u16) -> ScreenView {
        ScreenView {
            rows,
            cols,
            point: Point { row: 0, col: 0 },
            text: Seq::empty(),
            bottom_ln: 0,
            cur_line: 0,
            ml_thickness: 0,
            ml_sep: Seq::empty(),
            ml_sep_line: Seq::empty(),
            sep_line_pos: 0,
            msg_pos: 0,
            greeting: Seq::empty(),
            message: Seq::empty(),
            error_log: Seq::empty(),
            stored_at: 0,
            disp_len: 3,
            lm_thickness: 0,
            indicator: " =>"@,
            lm_sep_line: Seq::empty(),
            original_term: None,
        }
    }

    /// One numbered row of the margin's template.
    pub open spec fn template_row(self, row: u16, number: u16) -> Seq<char> {
        HIDE_CURSOR@ + move_to(row, self.lm_thickness) + CLR_LN_UPTO_CURSR@ + move_to(row, 1)
            + decimal(number as nat)
    }

    /// The row of the margin's template that holds the indicator.
    pub open spec fn template_indicator(self) -> Seq<char> {
        HIDE_CURSOR@ + move_to(0, self.lm_thickness) + CLR_LN_UPTO_CURSR@ + move_to(0, 1) + " "@
            + self.indicator
    }

    /// The first `count` rows of the template's upper half: row `r` holds
    /// the number of rows that lie between it and the row behind the last.
    pub open spec fn template_above(self, count: nat) -> Seq<char>
        decreases count,
    {
        if count == 0 {
            Seq::empty()
        } else {
            self.template_above((count - 1) as nat) + self.template_row(
                count as u16,
                (MARGIN_ROWS + 1 - count) as u16,
            )
        }
    }

    /// The first `count` rows of the template's lower half: row `r` holds
    /// `r`.
    pub open spec fn template_below(self, count: nat) -> Seq<char>
        decreases count,
    {
        if count == 0 {
            Seq::empty()
        } else {
            self.template_below((count - 1) as nat) + self.template_row(
                count as u16,
                count as u16,
            )
        }
    }

    /// The template of the left margin: numbers that fall towards the
    /// indicator, the indicator, and numbers that rise behind it.
    pub open spec fn margin_template(self) -> Seq<char> {
        self.template_above(MARGIN_ROWS as nat) + self.template_indicator() + self.template_below(
            (MARGIN_ROWS - 1) as nat,
        )
    }

    /// The screen after the text window has been laid out: it ends above
    /// the mode line and holds no text.
    pub open spec fn with_text_window(self) -> ScreenView {
        ScreenView {
            bottom_ln: (self.rows - self.ml_thickness) as u16,
            text: Seq::empty(),
            cur_line: 0,
            ..self
        }
    }

    /// The screen after the mode line has been laid out: three rows high,
    /// with a rule of `=` as wide as the terminal in the row above the
    /// last, and the echo area a sixth of the width in.
    pub open spec fn with_mode_line(self) -> ScreenView {
        ScreenView {
            ml_sep: "="@,
            ml_thickness: 3,
            ml_sep_line: self.ml_sep_line + repeated("="@, self.cols as nat),
            sep_line_pos: (self.rows - 1) as u16,
            msg_pos: self.cols / 6,
            greeting: "Hi David!"@,
            message: Seq::empty(),
            error_log: Seq::empty(),
            stored_at: 0,
            disp_len: 3,
            ..self
        }
    }

    /// The screen after the left margin has been laid out: four columns
    /// wide, with the indicator `=>`. Its template is drawn with the width
    /// and the indicator that the margin had before.
    pub open spec fn with_left_margin(self) -> ScreenView {
        ScreenView {
            indicator: "=>"@,
            lm_thickness: 4,
            lm_sep_line: self.margin_template(),
            ..self
        }
    }

    /// The screen after the cursor has been put at the start of the text:
    /// in the first row, at the width of the margin.
    pub open spec fn with_point(self) -> ScreenView {
        ScreenView { point: Point { row: 1, col: self.lm_thickness }, ..self }
    }

    /// The screen after the terminal's attributes have been put by.
    pub open spec fn with_backup(self, attrs: TermAttrs) -> ScreenView {
        ScreenView { original_term: Some(attrs), ..self }
    }
}

/// The steps that lay a screen out.
pub trait Builder: Sized {
    /// The terminal has a row for the rule of the mode line.
    spec fn has_rows(&self) -> bool;

    /// The terminal has the rows that the mode line takes up.
    spec fn has_room(&self) -> bool;

    fn text_window(self) -> Self
        requires
            self.has_room(),
    ;

    fn mode_line(self) -> Self
        requires
            self.has_rows(),
    ;

    fn left_margin(self) -> Self;

    fn backup_terminal(self, attrs: TermAttrs) -> Self;

    fn point(self) -> Self;

    fn build(self) -> Self;
}

impl Builder for Screen {
    open spec fn has_rows(&self) -> bool {
        self@.rows >= 1
    }

    open spec fn has_room(&self) -> bool {
        self@.rows >= self@.ml_thickness
    }

    fn build(self) -> (screen: Self)
        ensures
            screen@ == self@,
    {
        self
    }

    fn text_window(self) -> (screen: Self)
        ensures
            screen@ == self@.with_text_window(),
    {
        let mut screen = self;
        screen.text_window = TextWindow {
            rope: rope_new(),
            bottom_ln: screen.winsize_row - screen.mode_line.thickness,
            cur_line: 0,
        };
        screen
    }

    fn mode_line(self) -> (screen: Self)
        ensures
            screen@ == self@.with_mode_line(),
    {
        let mut screen = self;
        let mut seperator_line = screen.mode_line.seperator_line;
        push_repeated(&mut seperator_line, "=", screen.winsize_col);
        screen.mode_line = ModeLine {
            seperator: String::from_str("="),
            thickness: 3,
            seperator_line,
            sep_line_pos: screen.winsize_row - 1,
            msg_pos: screen.winsize_col / 6,
            start_greeting: String::from_str("Hi David!"),
            echo_area: EchoArea::default(),
        };
        screen
    }

    fn left_margin(self) -> (screen: Self)
        ensures
            screen@ == self@.with_left_margin(),
    {
        let mut screen = self;
        let ghost view = self@;
        let thickness = screen.left_margin.thickness;
        let mut new_line = String::new();
        let mut row: u16 = 0;
        while row < MARGIN_ROWS
            invariant
                row <= MARGIN_ROWS,
                thickness == view.lm_thickness,
                new_line@ == view.template_above(row as nat),
            decreases MARGIN_ROWS - row,
        {
            row = row + 1;
            Self::push_template_row(
                &mut new_line,
                row,
                MARGIN_ROWS + 1 - row,
                thickness,
                Ghost(view),
            );
        }
        let mut indicator = String::new();
        indicator.append(HIDE_CURSOR);
        push_move_to(&mut indicator, 0, thickness);
        indicator.append(CLR_LN_UPTO_CURSR);
        push_move_to(&mut indicator, 0, 1);
        indicator.append(" ");
        indicator.append(screen.left_margin.indicator.as_str());
        assert(indicator@ == Seq::<char>::empty() + view.template_indicator());
        new_line.append(indicator.as_str());
        let ghost head = new_line@;
        assert(head + view.template_below(0) == head);
        row = 0;
        while row < MARGIN_ROWS - 1
            invariant
                row <= MARGIN_ROWS - 1,
                thickness == view.lm_thickness,
                new_line@ == head + view.template_below(row as nat),
            decreases MARGIN_ROWS - 1 - row,
        {
            row = row + 1;
            Self::push_template_row(&mut new_line, row, row, thickness, Ghost(view));
            assert(head + (view.template_below((row - 1) as nat) + view.template_row(row, row))
                == (head + view.template_below((row - 1) as nat)) + view.template_row(row, row));
        }
        screen.left_margin = LeftMargin {
            indicator: String::from_str("=>"),
            thickness: 4,
            seperator_line: new_line,
        };
        screen
    }

    fn point(self) -> (screen: Self)
        ensures
            screen@ == self@.with_point(),
    {
        let mut screen = self;
        screen.point = Point { row: 1, col: screen.left_margin.thickness };
        screen
    }

    fn backup_terminal(self, attrs: TermAttrs) -> (screen: Self)
        ensures
            screen@ == self@.with_backup(attrs),
    {
        let mut screen = self;
        screen.original_term = Some(attrs);
        screen
    }
}

impl Screen {
    /// Appends the text that draws the margin of one row.
    fn push_margin_row(&self, text: &mut String, row: u16)
        ensures
            final(text)@ == old(text)@ + self@.margin_row(row),
    {
        let thickness = self.left_margin.thickness;
        let mut drawn = String::new();
        drawn.append(HIDE_CURSOR);
        push_move_to(&mut drawn, row, thickness);
        drawn.append(CLR_LN_UPTO_CURSR);
        if row == self.point.row {
            push_move_to(&mut drawn, row, 1);
            drawn.append(self.left_margin.indicator.as_str());
        } else {
            let number: u16 = if row >= self.point.row {
                row - self.point.row
            } else {
                self.point.row - row
            };
            let width: u16 = if number < 10 {
                1
            } else if number < 100 {
                2
            } else if number < 1000 {
                3
            } else if number < 10000 {
                4
            } else {
                5
            };
            proof {
                lemma_decimal_width(number as nat);
            }
            let col: u16 = if thickness > width {
                thickness - width
            } else {
                1
            };
            push_move_to(&mut drawn, row, col);
            push_decimal(&mut drawn, number as u64);
        }
        assert(drawn@ == Seq::<char>::empty() + self@.margin_row(row));
        text.append(drawn.as_str());
    }

    /// Appends one numbered row of the margin's template.
    fn push_template_row(
        text: &mut String,
        row: u16,
        number: u16,
        thickness: u16,
        Ghost(view): Ghost<ScreenView>,
    )
        requires
            thickness == view.lm_thickness,
        ensures
            final(text)@ == old(text)@ + view.template_row(row, number),
    {
        let mut drawn = String::new();
        drawn.append(HIDE_CURSOR);
        push_move_to(&mut drawn, row, thickness);
        drawn.append(CLR_LN_UPTO_CURSR);
        push_move_to(&mut drawn, row, 1);
        push_decimal(&mut drawn, number as u64);
        assert(drawn@ == Seq::<char>::empty() + view.template_row(row, number));
        text.append(drawn.as_str());
    }

    /// A screen for a terminal of the given size, with nothing laid out on
    /// it yet.
    pub fn new(winsize_row: u16, winsize_col: u16) -> (screen: Screen)
        ensures
            screen@ == ScreenView::blank(winsize_row, winsize_col),
    {
        Screen {
            text_window: TextWindow { bottom_ln: 0, rope: rope_new(), cur_line: 0 },
            mode_line: ModeLine::default(),
            left_margin: LeftMargin::default(),
            point: Point { row: 0, col: 0 },
            original_term: None,
            winsize_row,
            winsize_col,
        }
    }
}

impl ScreenView {
    /// The cursor position as the mode line shows it.
    pub open spec fn position_text(self) -> Seq<char> {
        "R: "@ + decimal(self.point.row as nat) + ", C: "@ + decimal(self.point.col as nat)
    }

    /// The echo area as the mode line shows it: nothing where there is no
    /// status text, else the text at its column in the last row.
    pub open spec fn echo_text(self) -> Seq<char> {
        if self.message.len() == 0 {
            Seq::empty()
        } else {
            move_to(self.rows, self.msg_pos) + self.message
        }
    }

    /// The text that draws the last row: the cursor position, the echo
    /// area, and the way home.
    pub open spec fn ml_text(self) -> Seq<char> {
        HIDE_CURSOR@ + move_to(self.rows, 0) + CLR_LN@ + self.position_text() + self.echo_text()
            + self.point.home_text()
    }

    /// The text that draws the whole mode line: everything from the rule
    /// down is cleared, then come the rule and the last row.
    pub open spec fn ml_area_text(self) -> Seq<char> {
        HIDE_CURSOR@ + move_to(self.sep_line_pos, 0) + CLR_SCRN_CURSR_END@ + self.ml_sep_line
            + self.ml_text()
    }

    /// The text that draws the screen at the start: a cleared screen, the
    /// template of the margin and the greeting.
    pub open spec fn screen_text(self) -> Seq<char> {
        HIDE_CURSOR@ + CLR_SCRN@ + self.lm_sep_line + self.greeting + self.point.home_text()
    }

    /// The text that shows a key in the last row.
    pub open spec fn key_text(self, key: Key) -> Seq<char> {
        HIDE_CURSOR@ + move_to(self.rows, 0) + CLR_LN@ + key.text() + self.point.home_text()
    }

    /// The row to which a scroll takes the cursor for drawing the
    /// indicator: the top for a scroll up, the row above the rule of the
    /// mode line for a scroll down.
    pub open spec fn scroll_row(self, dir: Scroll) -> u16 {
        match dir {
            Scroll::Up => 0,
            Scroll::Down => (self.sep_line_pos - 1) as u16,
        }
    }

    /// The text that scrolls the screen by one line. Down: everything from
    /// the cursor on is cleared and the text moves up; up: the text moves
    /// down. Then the indicator is drawn at the edge that the scroll
    /// opened, and the mode line is drawn anew.
    pub open spec fn scroll_text(self, dir: Scroll) -> Seq<char> {
        HIDE_CURSOR@ + match dir {
            Scroll::Up => SCROLL_UP@,
            Scroll::Down => CLR_SCRN_CURSR_END@ + SCROLL_DOWN@,
        } + move_to(self.scroll_row(dir), 0) + self.indicator + self.ml_area_text()
            + self.point.home_text()
    }

    /// The number that the margin shows in a row: the distance to the
    /// cursor's row.
    pub open spec fn line_number(self, row: u16) -> nat {
        if row >= self.point.row {
            (row - self.point.row) as nat
        } else {
            (self.point.row - row) as nat
        }
    }

    /// The column at which a number starts so that it ends in the last
    /// column of the margin but one; the first column where the number is
    /// too wide for that.
    pub open spec fn number_col(self, number: nat) -> u16 {
        if self.lm_thickness > decimal(number).len() {
            (self.lm_thickness - decimal(number).len()) as u16
        } else {
            1
        }
    }

    /// The text that draws the margin of one row: the margin is cleared,
    /// then the cursor's row gets the indicator and every other row its
    /// number, aligned to the right.
    pub open spec fn margin_row(self, row: u16) -> Seq<char> {
        HIDE_CURSOR@ + move_to(row, self.lm_thickness) + CLR_LN_UPTO_CURSR@ + if row
            == self.point.row {
            move_to(row, 1) + self.indicator
        } else {
            move_to(row, self.number_col(self.line_number(row))) + decimal(self.line_number(row))
        }
    }

    /// The first row of the margin: the first row of the terminal, or the
    /// cursor's row where the cursor stands above it.
    pub open spec fn first_margin_row(self) -> u16 {
        if self.point.row == 0 {
            0
        } else {
            1
        }
    }

    /// The last row of the margin: the row above the rule of the mode
    /// line, which is the last row of the terminal but two, or the
    /// cursor's row where the cursor stands below it.
    pub open spec fn last_margin_row(self) -> u16 {
        if self.rows >= 2 && self.rows - 2 > self.point.row {
            (self.rows - 2) as u16
        } else {
            self.point.row
        }
    }

    /// The text that draws the margin of `count` rows, from row `from`
    /// downwards.
    pub open spec fn margin_rows(self, from: u16, count: nat) -> Seq<char>
        decreases count,
    {
        if count == 0 {
            Seq::empty()
        } else {
            self.margin_rows(from, (count - 1) as nat) + self.margin_row(
                (from + count - 1) as u16,
            )
        }
    }

    /// The text that draws the whole margin, and the way home. The rows
    /// are those of the terminal: every row above the rule of the mode
    /// line, whatever has been laid out, and the cursor's row wherever it
    /// is.
    pub open spec fn margin_text(self) -> Seq<char> {
        self.margin_rows(
            self.first_margin_row(),
            (self.last_margin_row() - self.first_margin_row() + 1) as nat,
        ) + self.point.home_text()
    }

    /// The screen after the terminal has changed its size: the text area
    /// ends above the mode line, the rule lies in the row above the last
    /// and is as wide as the terminal, and the echo area starts a sixth of
    /// the width in.
    pub open spec fn resized(self, rows: u16, cols: u16) -> ScreenView {
        ScreenView {
            rows,
            cols,
            bottom_ln: (rows - self.ml_thickness) as u16,
            sep_line_pos: (rows - 1) as u16,
            msg_pos: cols / 6,
            ml_sep_line: repeated(self.ml_sep, cols as nat),
            ..self
        }
    }

    /// The screen with another rule in the mode line: `sep`, as often as
    /// the terminal has columns.
    pub open spec fn with_ml_sep(self, sep: Seq<char>) -> ScreenView {
        ScreenView { ml_sep: sep, ml_sep_line: repeated(sep, self.cols as nat), ..self }
    }
}

proof fn lemma_decimal_width(n: nat)
    ensures
        n < 10 ==> decimal(n).len() == 1,
        10 <= n < 100 ==> decimal(n).len() == 2,
        100 <= n < 1000 ==> decimal(n).len() == 3,
        1000 <= n < 10000 ==> decimal(n).len() == 4,
        10000 <= n < 100000 ==> decimal(n).len() == 5,
{
    reveal_with_fuel(decimal, 6);
}

/// The drawing operations of a screen. Each returns the text that the
/// terminal is to be sent.
pub trait DrawScreen {
    fn draw_screen(&self) -> String;

    fn draw_ml_area(&self) -> String;

    fn draw_ml(&self) -> String;

    fn draw_numbered_lm(&self) -> String;

    fn draw_cursor_pos(&mut self, output: Key, pos: (u16, u16)) -> String;

    fn clear_screen(&self) -> String;
}

impl DrawScreen for Screen {
    /// Takes the position that the terminal reported into the cursor model
    /// and shows the key in the last row.
    fn draw_cursor_pos(&mut self, output: Key, pos: (u16, u16)) -> (text: String)
        ensures
            final(self)@ == (ScreenView { point: Point { row: pos.0, col: pos.1 }, ..old(self)@ }),
            text@ == final(self)@.key_text(output),
    {
        self.point.row = pos.0;
        self.point.col = pos.1;
        let mut text = String::new();
        text.append(HIDE_CURSOR);
        push_move_to(&mut text, self.winsize_row, 0);
        text.append(CLR_LN);
        text.append(output.to_string().as_str());
        text.append(self.point.go_home().as_str());
        assert(text@ == Seq::<char>::empty() + self@.key_text(output));
        text
    }

    /// Clears the screen.
    fn clear_screen(&self) -> (text: String)
        ensures
            text@ == CLR_SCRN@,
    {
        String::from_str(CLR_SCRN)
    }

    /// Draws the margin: a number in every row above the rule of the mode
    /// line, and the indicator in the cursor's row.
    fn draw_numbered_lm(&self) -> (text: String)
        ensures
            text@ == self@.margin_text(),
    {
        let first: u16 = if self.point.row == 0 {
            0
        } else {
            1
        };
        let last: u16 = if self.winsize_row >= 2 && self.winsize_row - 2 > self.point.row {
            self.winsize_row - 2
        } else {
            self.point.row
        };
        let count: u32 = last as u32 - first as u32 + 1;
        let mut text = String::new();
        let mut done: u32 = 0;
        while done < count
            invariant
                done <= count,
                first == self@.first_margin_row(),
                last == self@.last_margin_row(),
                count == last - first + 1,
                text@ == self@.margin_rows(first, done as nat),
            decreases count - done,
        {
            let row: u16 = (first as u32 + done) as u16;
            self.push_margin_row(&mut text, row);
            done = done + 1;
        }
        text.append(self.point.go_home().as_str());
        text
    }

    /// Draws the screen as it is at the start.
    fn draw_screen(&self) -> (text: String)
        ensures
            text@ == self@.screen_text(),
    {
        let mut text = String::new();
        text.append(HIDE_CURSOR);
        text.append(CLR_SCRN);
        text.append(self.left_margin.seperator_line.as_str());
        text.append(self.mode_line.start_greeting.as_str());
        text.append(self.point.go_home().as_str());
        assert(text@ == Seq::<char>::empty() + self@.screen_text());
        text
    }

    /// Draws the mode line: its rule and its last row.
    fn draw_ml_area(&self) -> (text: String)
        ensures
            text@ == self@.ml_area_text(),
    {
        let mut text = String::new();
        text.append(HIDE_CURSOR);
        push_move_to(&mut text, self.mode_line.sep_line_pos, 0);
        text.append(CLR_SCRN_CURSR_END);
        text.append(self.mode_line.seperator_line.as_str());
        text.append(self.draw_ml().as_str());
        assert(text@ == Seq::<char>::empty() + self@.ml_area_text());
        text
    }

    /// Draws the last row: the cursor position and the echo area.
    fn draw_ml(&self) -> (text: String)
        ensures
            text@ == self@.ml_text(),
    {
        let mut text = String::new();
        text.append(HIDE_CURSOR);
        push_move_to(&mut text, self.winsize_row, 0);
        text.append(CLR_LN);
        text.append("R: ");
        push_decimal(&mut text, self.point.row as u64);
        text.append(", C: ");
        push_decimal(&mut text, self.point.col as u64);
        let ghost head = text@;
        assert(head == Seq::<char>::empty() + (HIDE_CURSOR@ + move_to(self@.rows, 0) + CLR_LN@
            + self@.position_text()));
        if !self.mode_line.echo_area.is_empty() {
            push_move_to(&mut text, self.winsize_row, self.mode_line.msg_pos);
            text.append(self.mode_line.echo_area.to_string().as_str());
        }
        assert(text@ == head + self@.echo_text());
        text.append(self.point.go_home().as_str());
        text
    }
}

/// How a write to the terminal ended.
#[derive(Debug, Clone, Copy, PartialEq, Eq)]
pub enum WriteOutcome {
    Written,
    Interrupted,
    Failed,
}

/// What follows a write to the terminal.
#[derive(Debug, Clone, Copy, PartialEq, Eq)]
pub enum WriteStep {
    /// The text is out.
    Done,
    /// The write is repeated from the start.
    Retry,
    /// The error is reported, once, and the write is given up.
    Report,
}

impl Screen {
    /// The rule of every write: an interrupted write is repeated, any
    /// other failure is reported and ends it.
    pub fn my_write(outcome: WriteOutcome) -> (step: WriteStep)
        ensures
            step == match outcome {
                WriteOutcome::Written => WriteStep::Done,
                WriteOutcome::Interrupted => WriteStep::Retry,
                WriteOutcome::Failed => WriteStep::Report,
            },
    {
        match outcome {
            WriteOutcome::Written => WriteStep::Done,
            WriteOutcome::Interrupted => WriteStep::Retry,
            WriteOutcome::Failed => WriteStep::Report,
        }
    }

    /// The text that moves the cursor to a row and a column.
    pub fn move_cursor(row: u16, col: u16) -> (text: String)
        ensures
            text@ == move_to(row, col),
    {
        let mut text = String::new();
        push_move_to(&mut text, row, col);
        assert(text@ == Seq::<char>::empty() + move_to(row, col));
        text
    }

    /// Lays the screen out anew for a terminal that has changed its size.
    pub fn resize(&mut self, rows: u16, cols: u16)
        requires
            rows >= 1,
            rows >= old(self)@.ml_thickness,
        ensures
            final(self)@ == old(self)@.resized(rows, cols),
    {
        self.winsize_row = rows;
        self.winsize_col = cols;
        self.text_window.bottom_ln = rows - self.mode_line.thickness;
        self.mode_line.sep_line_pos = rows - 1;
        self.mode_line.msg_pos = cols / 6;
        let mut line = String::new();
        push_repeated(&mut line, self.mode_line.seperator.as_str(), cols);
        assert(line@ == Seq::<char>::empty() + repeated(self.mode_line.seperator@, cols as nat));
        self.mode_line.seperator_line = line;
    }

    /// The layout leaves room for the operations on keys.
    pub fn is_laid_out(&self) -> (ok: bool)
        ensures
            ok == self@.laid_out(),
    {
        self.mode_line.sep_line_pos >= 1 && self.left_margin.thickness < u16::MAX
    }

    /// The number of rows that the mode line takes up.
    pub fn mode_line_thickness(&self) -> (rows: u16)
        ensures
            rows == self@.ml_thickness,
    {
        self.mode_line.thickness
    }

    /// Gives the mode line a rule made of `sep`, as wide as the terminal.
    pub fn update_ml_sep(self, sep: &str) -> (screen: Self)
        ensures
            screen@ == self@.with_ml_sep(sep@),
    {
        let mut screen = self;
        screen.mode_line.new_sep(sep);
        let mut line = String::new();
        push_repeated(&mut line, sep, screen.winsize_col);
        assert(line@ == Seq::<char>::empty() + repeated(sep@, screen.winsize_col as nat));
        screen.mode_line.seperator_line = line;
        screen
    }

    /// The text that scrolls the screen by one line.
    pub fn scroll(&self, dir: Scroll) -> (text: String)
        requires
            dir == Scroll::Down ==> self@.sep_line_pos >= 1,
        ensures
            text@ == self@.scroll_text(dir),
    {
        let mut text = String::new();
        text.append(HIDE_CURSOR);
        match dir {
            Scroll::Up => {
                text.append(SCROLL_UP);
                push_move_to(&mut text, 0, 0);
            },
            Scroll::Down => {
                text.append(CLR_SCRN_CURSR_END);
                text.append(SCROLL_DOWN);
                push_move_to(&mut text, self.mode_line.sep_line_pos - 1, 0);
            },
        }
        text.append(self.left_margin.indicator.as_str());
        text.append(self.draw_ml_area().as_str());
        text.append(self.point.go_home().as_str());
        assert(text@ == Seq::<char>::empty() + self@.scroll_text(dir));
        text
    }

    /// Takes the status text away once it has been shown for its full
    /// time.
    pub fn clr_echo_area_timer(&mut self, now: u64)
        ensures
            final(self)@ == (ScreenView {
                message: if now - old(self)@.stored_at >= old(self)@.disp_len {
                    Seq::empty()
                } else {
                    old(self)@.message
                },
                ..old(self)@
            }),
    {
        self.mode_line.echo_area.check_msg_timer(now);
    }

    /// Adds a message to the status text and starts its time anew.
    pub fn echo_area_msg(&mut self, msg: &str, now: u64)
        ensures
            final(self)@ == (ScreenView {
                message: old(self)@.message + shown(msg@),
                stored_at: now,
                ..old(self)@
            }),
    {
        self.mode_line.echo_area.store_message(msg, now);
    }

    /// Stores an error of a write to the terminal in the echo area.
    pub fn echo_area_error(&mut self, err: &str, now: u64)
        ensures
            final(self)@ == (ScreenView {
                message: crate::echo::error_text(err@) + shown(crate::echo::ERROR_NOTICE@),
                error_log: old(self)@.error_log + "Error: "@ + err@ + "\n"@,
                stored_at: now,
                ..old(self)@
            }),
    {
        self.mode_line.echo_area.store_error(err, now);
    }

    /// The attributes that the terminal had before the editor changed
    /// them.
    pub fn copy_original_term(&self) -> (attrs: TermAttrs)
        requires
            self@.original_term is Some,
        ensures
            Some(attrs) == self@.original_term,
    {
        self.original_term.unwrap()
    }

    /// No status text is shown.
    pub fn echo_area_is_empty(&self) -> (empty: bool)
        ensures
            empty == (self@.message.len() == 0),
    {
        self.mode_line.echo_area.is_empty()
    }

    /// The status text has been shown for its full time.
    pub fn echo_area_timer_done(&self, now: u64) -> (done: bool)
        ensures
            done == (now - self@.stored_at >= self@.disp_len),
    {
        self.mode_line.echo_area.timer_done(now)
    }

    /// Reads the terminal's reply to a cursor position request from a
    /// buffer of input, and returns the number of bytes to take off the
    /// stream. Only a reply that holds a position changes the cursor
    /// model.
    pub fn update_point(&mut self, bytes: &[u8]) -> (consumed: usize)
        ensures
            final(self)@ == (ScreenView {
                point: old(self)@.point.after_reply(bytes@),
                ..old(self)@
            }),
            consumed == reply_consumes(bytes@),
    {
        self.point.update_point(bytes)
    }

    /// The cursor model.
    pub fn cursor(&self) -> (point: Point)
        ensures
            point == self@.point,
    {
        self.point
    }

    /// The text that has been typed.
    pub fn rope(&self) -> (rope: &Rope)
        ensures
            rope_text(*rope) == self@.text,
    {
        &self.text_window.rope
    }

    /// The status text of the echo area.
    pub fn echo_area(&self) -> (text: String)
        ensures
            text@ == self@.message,
    {
        self.mode_line.echo_area.to_string()
    }
}

/// The number of characters behind the last line break of a text.
pub open spec fn last_line_len(text: Seq<char>) -> nat
    decreases text.len(),
{
    if text.len() == 0 {
        0
    } else if text.last() == '\n' {
        0
    } else {
        1 + last_line_len(text.drop_last())
    }
}

/// A character that is inserted as text: none of the control characters.
pub open spec fn printable(ch: char) -> bool {
    ch as u32 >= 0x20 && ch as u32 != 0x7F
}

/// What the echo area is told of a key that has no effect.
pub const UNIMPLEMENTED: &'static str = "Key unimplemented";

/// The text of an operation, where it returned one.
pub open spec fn text_of(out: Option<String>) -> Option<Seq<char>> {
    match out {
        Some(text) => Some(text@),
        None => None,
    }
}

impl ScreenView {
    /// The layout leaves room for the operations on keys: the mode line
    /// has a row above its rule, and the margin ends before the last
    /// column that a terminal can have.
    pub open spec fn laid_out(self) -> bool {
        self.sep_line_pos >= 1 && self.lm_thickness < u16::MAX
    }

    /// The first column of the text, right of the margin.
    pub open spec fn left_bound(self) -> u16 {
        (self.lm_thickness + 1) as u16
    }

    /// The cursor goes to the start of the next row. At the bottom of the
    /// text area the screen scrolls down instead, and the cursor stays in
    /// its row.
    pub open spec fn next_row(self) -> (ScreenView, Seq<char>) {
        if self.point.row < self.bottom_ln {
            let point = Point { row: (self.point.row + 1) as u16, col: self.left_bound() };
            (ScreenView { point, ..self }, move_to(point.row, point.col))
        } else {
            let point = Point { row: self.point.row, col: self.left_bound() };
            let moved = ScreenView { point, ..self };
            (moved, moved.scroll_text(Scroll::Down))
        }
    }

    /// A character is typed: it goes to the end of the text and is drawn.
    /// Where the cursor stands in the last column but one or behind it, the
    /// cursor goes to the next row first and a line break follows the
    /// character in the text.
    pub open spec fn typed(self, ch: char) -> (ScreenView, Seq<char>) {
        if self.point.col + 1 >= self.cols {
            let broken = (ScreenView { text: self.text.push(ch) + "\r\n"@, ..self }).next_row();
            (broken.0, broken.1.push(ch))
        } else {
            (ScreenView { text: self.text.push(ch), ..self }, seq![ch])
        }
    }

    /// Enter: a line break goes to the end of the text, and the cursor to
    /// the next row.
    pub open spec fn entered(self) -> (ScreenView, Seq<char>) {
        (ScreenView { text: self.text.push('\n'), ..self }).next_row()
    }

    /// Tab: a tab goes to the end of the text and is drawn as it is.
    pub open spec fn tabbed(self) -> (ScreenView, Seq<char>) {
        (ScreenView { text: self.text.push('\t'), ..self }, "\t"@)
    }

    /// Backspace and delete: the last character leaves the text, the
    /// cursor moves one column to the left, and the line is cleared from
    /// there on.
    pub open spec fn erased(self) -> (ScreenView, Seq<char>) {
        (
            ScreenView {
                text: if self.text.len() > 0 {
                    self.text.drop_last()
                } else {
                    self.text
                },
                point: Point {
                    row: self.point.row,
                    col: if self.point.col > 1 {
                        (self.point.col - 1) as u16
                    } else {
                        self.point.col
                    },
                },
                ..self
            },
            MV_LEFT@ + CLR_LN_CURSR_END@,
        )
    }

    /// Up: the cursor moves up one row; in the first row the screen
    /// scrolls up instead.
    pub open spec fn moved_up(self) -> (ScreenView, Seq<char>) {
        if self.point.row <= 1 {
            (self, self.scroll_text(Scroll::Up))
        } else {
            (
                ScreenView {
                    point: Point { row: (self.point.row - 1) as u16, col: self.point.col },
                    ..self
                },
                MV_UP@,
            )
        }
    }

    /// Down: the cursor moves down one row; at the bottom of the text area
    /// the screen scrolls down instead.
    pub open spec fn moved_down(self) -> (ScreenView, Seq<char>) {
        if self.point.row < self.bottom_ln {
            (
                ScreenView {
                    point: Point { row: (self.point.row + 1) as u16, col: self.point.col },
                    ..self
                },
                MV_DOWN@,
            )
        } else {
            (self, self.scroll_text(Scroll::Down))
        }
    }

    /// Left: the cursor moves one column to the left, but not into the
    /// margin.
    pub open spec fn moved_left(self) -> (ScreenView, Seq<char>) {
        if self.point.col > self.left_bound() {
            (
                ScreenView {
                    point: Point { row: self.point.row, col: (self.point.col - 1) as u16 },
                    ..self
                },
                MV_LEFT@,
            )
        } else {
            (self, Seq::empty())
        }
    }

    /// Right: the cursor moves one column to the right, but not beyond the
    /// end of the line that is being typed, nor off the terminal.
    pub open spec fn moved_right(self) -> (ScreenView, Seq<char>) {
        if self.point.col < self.left_bound() + last_line_len(self.text) && self.point.col
            < self.cols {
            (
                ScreenView {
                    point: Point { row: self.point.row, col: (self.point.col + 1) as u16 },
                    ..self
                },
                MV_RIGHT@,
            )
        } else {
            (self, Seq::empty())
        }
    }

    /// A key without effect: the echo area says so, nothing is drawn and
    /// the text stays.
    pub open spec fn unrecognized(self, now: u64) -> (ScreenView, Seq<char>) {
        (
            ScreenView { message: self.message + shown(UNIMPLEMENTED@), stored_at: now, ..self },
            Seq::empty(),
        )
    }

    /// The effect of a control key, tab or enter: the screen after it, and
    /// the text to draw, or no text for the key that quits.
    pub open spec fn after_ctrl_key(self, key: Key, now: u64) -> (ScreenView, Option<Seq<char>>) {
        match key {
            Key::CtrlKey('b') => (self.moved_left().0, Some(self.moved_left().1)),
            Key::CtrlKey('f') => (self.moved_right().0, Some(self.moved_right().1)),
            Key::Tab(_) => (self.tabbed().0, Some(self.tabbed().1)),
            Key::Enter(_) => (self.entered().0, Some(self.entered().1)),
            Key::CtrlKey('n') => (self.moved_down().0, Some(self.moved_down().1)),
            Key::CtrlKey('p') => (self.moved_up().0, Some(self.moved_up().1)),
            Key::CtrlKey('q') => (self, None),
            _ => (self.unrecognized(now).0, Some(self.unrecognized(now).1)),
        }
    }

    /// The effect of a key: the screen after it, and the text to draw, or
    /// no text for the key that quits.
    pub open spec fn after_key(self, key: Key, now: u64) -> (ScreenView, Option<Seq<char>>) {
        match key {
            Key::Letter(ch) | Key::AltKey(ch) => if printable(ch) {
                (self.typed(ch).0, Some(self.typed(ch).1))
            } else {
                (self.unrecognized(now).0, Some(self.unrecognized(now).1))
            },
            Key::CtrlKey(_) | Key::Tab(_) | Key::Enter(_) => self.after_ctrl_key(key, now),
            Key::Backspace | Key::Delete => (self.erased().0, Some(self.erased().1)),
            Key::Left => (self.moved_left().0, Some(self.moved_left().1)),
            Key::Right => (self.moved_right().0, Some(self.moved_right().1)),
            Key::Up => (self.moved_up().0, Some(self.moved_up().1)),
            Key::Down => (self.moved_down().0, Some(self.moved_down().1)),
            _ => (self.unrecognized(now).0, Some(self.unrecognized(now).1)),
        }
    }
}

impl Screen {
    fn last_line_len(&self) -> (len: usize)
        ensures
            len == last_line_len(self@.text),
    {
        let ghost text = self@.text;
        let total = rope_len_chars(&self.text_window.rope);
        let mut at = total;
        proof {
            assert(text.take(total as int) == text);
        }
        while at > 0 && rope_char(&self.text_window.rope, at - 1) != '\n'
            invariant
                text == rope_text(self.text_window.rope),
                total == text.len(),
                at <= total,
                last_line_len(text) == (total - at) + last_line_len(text.take(at as int)),
            decreases at,
        {
            proof {
                assert(text.take(at as int).drop_last() == text.take(at - 1));
            }
            at = at - 1;
        }
        total - at
    }

    fn insert_at_end(&mut self, text: &str)
        ensures
            final(self)@ == (ScreenView { text: old(self)@.text + text@, ..old(self)@ }),
    {
        let ghost before = self@.text;
        let end = rope_len_chars(&self.text_window.rope);
        rope_insert(&mut self.text_window.rope, end, text);
        proof {
            assert(before.take(end as int) == before);
            assert(before.skip(end as int) == Seq::<char>::empty());
            assert(before + text@ + Seq::<char>::empty() == before + text@);
        }
    }

    fn next_row(&mut self) -> (text: String)
        requires
            old(self)@.laid_out(),
        ensures
            final(self)@ == old(self)@.next_row().0,
            text@ == old(self)@.next_row().1,
    {
        let left = self.left_margin.thickness + 1;
        if self.point.row < self.text_window.bottom_ln {
            self.point = Point { row: self.point.row + 1, col: left };
            let mut text = String::new();
            push_move_to(&mut text, self.point.row, self.point.col);
            assert(text@ == Seq::<char>::empty() + move_to(self.point.row, self.point.col));
            text
        } else {
            self.point = Point { row: self.point.row, col: left };
            self.scroll(Scroll::Down)
        }
    }

    fn typed(&mut self, ch: char) -> (text: String)
        requires
            old(self)@.laid_out(),
        ensures
            final(self)@ == old(self)@.typed(ch).0,
            text@ == old(self)@.typed(ch).1,
    {
        let mut input = String::new();
        push_char(&mut input, ch);
        assert(input@ == seq![ch]);
        self.insert_at_end(input.as_str());
        assert(old(self)@.text + seq![ch] == old(self)@.text.push(ch));
        if self.point.col as u32 + 1 >= self.winsize_col as u32 {
            self.insert_at_end("\r\n");
            let mut text = self.next_row();
            push_char(&mut text, ch);
            text
        } else {
            input
        }
    }

    fn entered(&mut self) -> (text: String)
        requires
            old(self)@.laid_out(),
        ensures
            final(self)@ == old(self)@.entered().0,
            text@ == old(self)@.entered().1,
    {
        let mut input = String::new();
        push_char(&mut input, '\n');
        assert(input@ == seq!['\n']);
        self.insert_at_end(input.as_str());
        assert(old(self)@.text + seq!['\n'] == old(self)@.text.push('\n'));
        self.next_row()
    }

    fn tabbed(&mut self) -> (text: String)
        ensures
            final(self)@ == old(self)@.tabbed().0,
            text@ == old(self)@.tabbed().1,
    {
        let mut input = String::new();
        push_char(&mut input, '\t');
        assert(input@ == seq!['\t']);
        self.insert_at_end(input.as_str());
        assert(old(self)@.text + seq!['\t'] == old(self)@.text.push('\t'));
        String::from_str("\t")
    }

    fn erased(&mut self) -> (text: String)
        ensures
            final(self)@ == old(self)@.erased().0,
            text@ == old(self)@.erased().1,
    {
        let ghost before = self@.text;
        let end = rope_len_chars(&self.text_window.rope);
        if end > 0 {
            rope_remove(&mut self.text_window.rope, end - 1, end);
            proof {
                assert(before.skip(end as int) == Seq::<char>::empty());
                assert(before.take(end - 1) + Seq::<char>::empty() == before.drop_last());
            }
        }
        if self.point.col > 1 {
            self.point.col = self.point.col - 1;
        }
        let mut text = String::from_str(MV_LEFT);
        text.append(CLR_LN_CURSR_END);
        text
    }

    fn moved_up(&mut self) -> (text: String)
        ensures
            final(self)@ == old(self)@.moved_up().0,
            text@ == old(self)@.moved_up().1,
    {
        if self.point.row <= 1 {
            self.scroll(Scroll::Up)
        } else {
            self.point.row = self.point.row - 1;
            String::from_str(MV_UP)
        }
    }

    fn moved_down(&mut self) -> (text: String)
        requires
            old(self)@.laid_out(),
        ensures
            final(self)@ == old(self)@.moved_down().0,
            text@ == old(self)@.moved_down().1,
    {
        if self.point.row < self.text_window.bottom_ln {
            self.point.row = self.point.row + 1;
            String::from_str(MV_DOWN)
        } else {
            self.scroll(Scroll::Down)
        }
    }

    fn moved_left(&mut self) -> (text: String)
        requires
            old(self)@.laid_out(),
        ensures
            final(self)@ == old(self)@.moved_left().0,
            text@ == old(self)@.moved_left().1,
    {
        if self.point.col > self.left_margin.thickness + 1 {
            self.point.col = self.point.col - 1;
            String::from_str(MV_LEFT)
        } else {
            String::new()
        }
    }

    fn moved_right(&mut self) -> (text: String)
        requires
            old(self)@.laid_out(),
        ensures
            final(self)@ == old(self)@.moved_right().0,
            text@ == old(self)@.moved_right().1,
    {
        let line = self.last_line_len();
        let left: u64 = self.left_margin.thickness as u64 + 1;
        let within = line >= 0x1_0000 || (self.point.col as u64) < left + line as u64;
        if within && self.point.col < self.winsize_col {
            self.point.col = self.point.col + 1;
            String::from_str(MV_RIGHT)
        } else {
            String::new()
        }
    }

    fn unrecognized(&mut self, now: u64) -> (text: String)
        ensures
            final(self)@ == old(self)@.unrecognized(now).0,
            text@ == old(self)@.unrecognized(now).1,
    {
        self.mode_line.echo_area.store_message(UNIMPLEMENTED, now);
        String::new()
    }

    /// Applies a control key, tab or enter to the screen and returns the
    /// text to draw, or nothing for the key that quits.
    pub fn ctrl_keys_strategy(&mut self, key: Key, now: u64) -> (out: Option<String>)
        requires
            old(self)@.laid_out(),
        ensures
            final(self)@ == old(self)@.after_ctrl_key(key, now).0,
            text_of(out) == old(self)@.after_ctrl_key(key, now).1,
    {
        match key {
            Key::CtrlKey('b') => Some(self.moved_left()),
            Key::CtrlKey('f') => Some(self.moved_right()),
            Key::Tab(_) => Some(self.tabbed()),
            Key::Enter(_) => Some(self.entered()),
            Key::CtrlKey('n') => Some(self.moved_down()),
            Key::CtrlKey('p') => Some(self.moved_up()),
            Key::CtrlKey('q') => None,
            _ => Some(self.unrecognized(now)),
        }
    }

    /// Applies a key to the screen and returns the text to draw, or
    /// nothing for the key that quits.
    pub fn ascii_strategy(&mut self, key: Key, now: u64) -> (out: Option<String>)
        requires
            old(self)@.laid_out(),
        ensures
            final(self)@ == old(self)@.after_key(key, now).0,
            text_of(out) == old(self)@.after_key(key, now).1,
    {
        match key {
            Key::Letter(ch) | Key::AltKey(ch) => {
                if ch as u32 >= 0x20 && ch as u32 != 0x7F {
                    Some(self.typed(ch))
                } else {
                    Some(self.unrecognized(now))
                }
            },
            Key::CtrlKey(_) | Key::Tab(_) | Key::Enter(_) => self.ctrl_keys_strategy(key, now),
            Key::Backspace | Key::Delete => Some(self.erased()),
            Key::Left => Some(self.moved_left()),
            Key::Right => Some(self.moved_right()),
            Key::Up => Some(self.moved_up()),
            Key::Down => Some(self.moved_down()),
            _ => Some(self.unrecognized(now)),
        }
    }
}

proof fn lemma_margin_rows_split(screen: ScreenView, from: u16, count: nat, at: nat)
    requires
        at <= count,
        from + count <= 0x1_0000,
    ensures
        screen.margin_rows(from, count) == screen.margin_rows(from, at) + screen.margin_rows(
            (from + at) as u16,
            (count - at) as nat,
        ),
    decreases count,
{
    let behind = (from + at) as u16;
    if at < count {
        lemma_margin_rows_split(screen, from, (count - 1) as nat, at);
        let last = screen.margin_row((from + count - 1) as u16);
        let head = screen.margin_rows(from, at);
        let middle = screen.margin_rows(behind, (count - 1 - at) as nat);
        assert(screen.margin_rows(behind, (count - at) as nat) == middle + last);
        assert((head + middle) + last == head + (middle + last));
    } else {
        assert(screen.margin_rows(behind, 0) == Seq::<char>::empty());
        assert(screen.margin_rows(from, at) + Seq::<char>::empty() == screen.margin_rows(from, at));
    }
}

/// The margin has a row for every row of the terminal above the rule of
/// the mode line, and one for the cursor's row, whether or not the mode
/// line has been laid out. In the text of the margin the row stands
/// behind the rows above it and before the rows below it.
pub proof fn law_margin_rows(screen: ScreenView, row: u16)
    requires
        1 <= row <= screen.rows - 2 || row == screen.point.row,
    ensures
        screen.first_margin_row() <= row <= screen.last_margin_row(),
        screen.margin_text() == screen.margin_rows(
            screen.first_margin_row(),
            (row - screen.first_margin_row()) as nat,
        ) + screen.margin_row(row) + screen.margin_rows(
            (row + 1) as u16,
            (screen.last_margin_row() - row) as nat,
        ) + screen.point.home_text(),
{
    let first = screen.first_margin_row();
    let last = screen.last_margin_row();
    let count = (last - first + 1) as nat;
    let above = (row - first) as nat;
    lemma_margin_rows_split(screen, first, count, above);
    lemma_margin_rows_split(screen, row, (count - above) as nat, 1);
    assert(screen.margin_rows(row, 1) == screen.margin_rows(row, 0) + screen.margin_row(row));
    assert(screen.margin_rows(row, 0) + screen.margin_row(row) == screen.margin_row(row));
    let head = screen.margin_rows(first, above);
    let middle = screen.margin_row(row);
    let tail = screen.margin_rows((row + 1) as u16, (last - row) as nat);
    assert(head + (middle + tail) == head + middle + tail);
}

/// In the margin the cursor's row shows the indicator and no number; every
/// other row shows, as the last thing drawn in it, its distance to the
/// cursor's row.
pub proof fn law_margin_row(screen: ScreenView, row: u16)
    ensures
        row == screen.point.row ==> screen.margin_row(row) == HIDE_CURSOR@ + move_to(
            row,
            screen.lm_thickness,
        ) + CLR_LN_UPTO_CURSR@ + move_to(row, 1) + screen.indicator,
        row != screen.point.row ==> ends_with(
            screen.margin_row(row),
            decimal(screen.line_number(row)),
        ),
{
    if row != screen.point.row {
        let number = decimal(screen.line_number(row));
        let start = HIDE_CURSOR@ + move_to(row, screen.lm_thickness) + CLR_LN_UPTO_CURSR@
            + move_to(row, screen.number_col(screen.line_number(row)));
        assert(screen.margin_row(row) == start + number);
        assert((start + number).skip(start.len() as int) == number);
    } else {
        let start = HIDE_CURSOR@ + move_to(row, screen.lm_thickness) + CLR_LN_UPTO_CURSR@;
        assert(start + (move_to(row, 1) + screen.indicator) == start + move_to(row, 1)
            + screen.indicator);
    }
}

/// `text` ends with `tail`.
pub open spec fn ends_with(text: Seq<char>, tail: Seq<char>) -> bool {
    tail.len() <= text.len() && text.skip(text.len() - tail.len()) == tail
}

/// Every redraw ends by taking the cursor back to where the model has it,
/// and by showing it.
pub proof fn law_redraw_ends_at_home(screen: ScreenView, key: Key, dir: Scroll)
    ensures
        ends_with(screen.ml_text(), screen.point.home_text()),
        ends_with(screen.ml_area_text(), screen.point.home_text()),
        ends_with(screen.screen_text(), screen.point.home_text()),
        ends_with(screen.key_text(key), screen.point.home_text()),
        ends_with(screen.margin_text(), screen.point.home_text()),
        ends_with(screen.scroll_text(dir), screen.point.home_text()),
{
    let home = screen.point.home_text();
    assert forall|head: Seq<char>| ends_with(#[trigger] (head + home), home) by {
        assert((head + home).skip(head.len() as int) == home);
    }
    let ml_head = HIDE_CURSOR@ + move_to(screen.rows, 0) + CLR_LN@ + screen.position_text()
        + screen.echo_text();
    assert(screen.ml_text() == ml_head + home);
    let area_head = HIDE_CURSOR@ + move_to(screen.sep_line_pos, 0) + CLR_SCRN_CURSR_END@
        + screen.ml_sep_line;
    assert(screen.ml_area_text() == (area_head + ml_head) + home);
}

} // verus!
