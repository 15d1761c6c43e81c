//! What the timer shows, and where on the terminal each text goes.

use vstd::prelude::*;
use vstd::utf8::encode_utf8;

verus! {

/// The texts to show, by named position of the screen.
#[derive(Debug, PartialEq, Eq)]
pub struct DisplayPosition {
    pub center: Option<String>,
    pub bottom_middle: Option<String>,
}

/// What a [`DisplayPosition`] holds, as sequences of characters.
pub struct DisplayModel {
    pub center: Option<Seq<char>>,
    pub bottom_middle: Option<Seq<char>>,
}

/// The characters of a text, if there is one.
pub open spec fn text_of(text: Option<String>) -> Option<Seq<char>> {
    match text {
        Some(s) => Some(s@),
        None => None,
    }
}

impl View for DisplayPosition {
    type V = DisplayModel;

    open spec fn view(&self) -> DisplayModel {
        DisplayModel { center: text_of(self.center), bottom_middle: text_of(self.bottom_middle) }
    }
}

impl Default for DisplayPosition {
    /// The display with no text at all.
    fn default() -> (position: DisplayPosition)
        ensures
            position.center is None,
            position.bottom_middle is None,
    {
        DisplayPosition { center: None, bottom_middle: None }
    }
}

/// A text and the cell of the terminal where it begins.
#[derive(Debug, PartialEq, Eq)]
pub struct Placement {
    pub column: u16,
    pub row: u16,
    pub text: String,
}

/// A [`Placement`], with the text as a sequence of characters.
pub struct PlacementModel {
    pub column: u16,
    pub row: u16,
    pub text: Seq<char>,
}

impl View for Placement {
    type V = PlacementModel;

    open spec fn view(&self) -> PlacementModel {
        PlacementModel { column: self.column, row: self.row, text: self.text@ }
    }
}

/// Where each text of a display goes.
#[derive(Debug, PartialEq, Eq)]
pub struct DisplayLayout {
    pub center: Option<Placement>,
    pub bottom_middle: Option<Placement>,
}

/// A [`DisplayLayout`], with the texts as sequences of characters.
pub struct LayoutModel {
    pub center: Option<PlacementModel>,
    pub bottom_middle: Option<PlacementModel>,
}

/// The model of a placement, if there is one.
pub open spec fn placement_of(placement: Option<Placement>) -> Option<PlacementModel> {
    match placement {
        Some(p) => Some(p@),
        None => None,
    }
}

impl View for DisplayLayout {
    type V = LayoutModel;

    open spec fn view(&self) -> LayoutModel {
        LayoutModel {
            center: placement_of(self.center),
            bottom_middle: placement_of(self.bottom_middle),
        }
    }
}

/// The width that a text is centered by: its length in bytes of UTF-8.
pub open spec fn text_width(text: Seq<char>) -> nat {
    encode_utf8(text).len()
}

/// The column where a text of `width` bytes begins so that its middle is in
/// the middle of `columns` columns; the first column where the text is too
/// wide for that.
pub open spec fn centered_column(columns: u16, width: nat) -> int {
    if width / 2 <= columns as int / 2 {
        columns as int / 2 - width / 2
    } else {
        0
    }
}

/// The row of the center position on a screen of `rows` rows.
pub open spec fn center_row(rows: u16) -> int {
    rows as int / 2
}

/// The row of the bottom-middle position on a screen of `rows` rows: half as
/// far below the center row as that row is below the top.
pub open spec fn bottom_middle_row(rows: u16) -> int {
    center_row(rows) + center_row(rows) / 2
}

/// The placement of `text`, centered in `row`.
pub open spec fn centered(text: Seq<char>, columns: u16, row: int) -> PlacementModel {
    PlacementModel {
        column: centered_column(columns, text_width(text)) as u16,
        row: row as u16,
        text,
    }
}

/// Where the texts of `display` go on a screen of `columns` by `rows` cells.
pub open spec fn layout_of(display: DisplayModel, columns: u16, rows: u16) -> LayoutModel {
    LayoutModel {
        center: match display.center {
            Some(text) => Some(centered(text, columns, center_row(rows))),
            None => None,
        },
        bottom_middle: match display.bottom_middle {
            Some(text) => Some(centered(text, columns, bottom_middle_row(rows))),
            None => None,
        },
    }
}

/// The screen of the timer.
pub struct TimerDisplay {}

impl TimerDisplay {
    /// The column where a text of `width` bytes begins when it is centered
    /// on a line of `columns` columns.
    pub fn column(columns: u16, width: usize) -> (column: u16)
        ensures
            column == centered_column(columns, width as nat),
    {
        let half_line: u16 = columns / 2;
        let half_text: usize = width / 2;
        if half_text <= half_line as usize {
            half_line - half_text as u16
        } else {
            0
        }
    }

    /// Places `text` centered in `row`.
    pub fn place(text: String, columns: u16, row: u16) -> (placement: Placement)
        ensures
            placement@ == centered(text@, columns, row as int),
    {
        let width: usize = text.as_str().as_bytes().len();
        let column: u16 = Self::column(columns, width);
        Placement { column, row, text }
    }

    /// Where each text of `print_location` goes on a terminal of `columns`
    /// by `rows` cells: the center text in the middle row, the bottom-middle
    /// text halfway between that row and the bottom, each centered in its row.
    pub fn layout(print_location: DisplayPosition, columns: u16, rows: u16) -> (layout:
        DisplayLayout)
        ensures
            layout@ == layout_of(print_location@, columns, rows),
    {
        let y_center: u16 = rows / 2;
        let center = match print_location.center {
            Some(s) => Some(Self::place(s, columns, y_center)),
            None => None,
        };
        let bottom_middle = match print_location.bottom_middle {
            Some(s) => Some(Self::place(s, columns, y_center + y_center / 2)),
            None => None,
        };
        DisplayLayout { center, bottom_middle }
    }
}

} // verus!
