//! An immediate-mode drawing layer: a cursor that walks down the screen one
//! row per label, and a list context that picks out the selected row.
//!
//! The layer does not touch a terminal. Each call that draws hands back a
//! [`DrawCommand`], which says what to put where; the caller passes it on to
//! the screen.

use vstd::prelude::*;
use vstd::string::StringExecFns;

verus! {

/// The colour pair of ordinary text.
pub const REGULAR_PAIR: i16 = 0;

/// The colour pair of the selected row of a list.
pub const HIGHLIGHT_PAIR: i16 = 1;

/// The colour pair of element `id` in a list whose selected element is
/// `selected`.
pub open spec fn pair_of(selected: nat, id: nat) -> i16 {
    if selected == id {
        HIGHLIGHT_PAIR
    } else {
        REGULAR_PAIR
    }
}

/// One run of text on the screen, as a mathematical value.
pub struct DrawCommandView {
    pub row: nat,
    pub col: nat,
    pub text: Seq<char>,
    pub pair: i16,
}

/// One run of text to put on the screen: where it starts, what it says, and
/// the colour pair to draw it in.
#[derive(Debug, PartialEq, Eq)]
pub struct DrawCommand {
    pub row: usize,
    pub col: usize,
    pub text: String,
    pub pair: i16,
}

impl View for DrawCommand {
    type V = DrawCommandView;

    open spec fn view(&self) -> DrawCommandView {
        DrawCommandView {
            row: self.row as nat,
            col: self.col as nat,
            text: self.text@,
            pair: self.pair,
        }
    }
}

impl DeepView for DrawCommand {
    type V = DrawCommandView;

    open spec fn deep_view(&self) -> DrawCommandView {
        self.view()
    }
}

/// The state of the drawing layer as a mathematical value: the cursor, and
/// the selected index of the list that is open, if one is.
pub struct UiView {
    pub row: nat,
    pub col: nat,
    pub list_current: Option<nat>,
}

impl UiView {
    /// The same state with the cursor one row further down.
    pub open spec fn next_row(self) -> UiView {
        UiView { row: self.row + 1, ..self }
    }

    /// What a label draws in this state: `text` at the cursor.
    pub open spec fn drawn(self, text: Seq<char>, pair: i16) -> DrawCommandView {
        DrawCommandView { row: self.row, col: self.col, text, pair }
    }
}

/// The drawing layer. It lives for one frame.
#[derive(Debug)]
pub struct Ui {
    list_current: Option<usize>,
    row: usize,
    col: usize,
}

impl View for Ui {
    type V = UiView;

    closed spec fn view(&self) -> UiView {
        UiView {
            row: self.row as nat,
            col: self.col as nat,
            list_current: match self.list_current {
                Some(id) => Some(id as nat),
                None => None,
            },
        }
    }
}

impl Ui {
    /// A layer with the cursor at the top left and no list open.
    pub fn new() -> (ui: Ui)
        ensures
            ui@ == (UiView { row: 0, col: 0, list_current: None }),
    {
        Ui { list_current: None, row: 0, col: 0 }
    }

    /// The row of the cursor.
    pub fn row(&self) -> (row: usize)
        ensures
            row == self@.row,
    {
        self.row
    }

    /// The column of the cursor.
    pub fn col(&self) -> (col: usize)
        ensures
            col == self@.col,
    {
        self.col
    }

    /// The selected index of the list that is open, if one is.
    pub fn list_current(&self) -> (current: Option<usize>)
        ensures
            current is Some <==> self@.list_current is Some,
            current matches Some(id) ==> self@.list_current == Some(id as nat),
    {
        self.list_current
    }

    /// Starts a frame: puts the cursor at the given origin.
    pub fn begin(&mut self, row: usize, col: usize)
        ensures
            final(self)@ == (UiView { row: row as nat, col: col as nat, ..old(self)@ }),
    {
        self.row = row;
        self.col = col;
    }

    /// Opens a list whose element `id` is the selected one. No list may be
    /// open already: lists do not nest.
    pub fn begin_list(&mut self, id: usize)
        requires
            old(self)@.list_current is None,
        ensures
            final(self)@ == (UiView { list_current: Some(id as nat), ..old(self)@ }),
    {
        self.list_current = Some(id);
    }

    /// The command that draws element `id` of the open list as a label,
    /// highlighted if it is the selected one. A list must be open, and the
    /// cursor must not stand on the last row that a `usize` can number.
    pub fn list_element(&mut self, label: &str, id: usize) -> (command: DrawCommand)
        requires
            old(self)@.list_current is Some,
            old(self)@.row < usize::MAX,
        ensures
            command@ == old(self)@.drawn(
                label@,
                pair_of(old(self)@.list_current->Some_0, id as nat),
            ),
            final(self)@ == old(self)@.next_row(),
    {
        let pair = match self.list_current {
            Some(id_current) => if id_current == id {
                HIGHLIGHT_PAIR
            } else {
                REGULAR_PAIR
            },
            None => REGULAR_PAIR,
        };
        self.label(label, pair)
    }

    /// Closes the list, so that another may be opened.
    pub fn end_list(&mut self)
        ensures
            final(self)@ == (UiView { list_current: None, ..old(self)@ }),
    {
        self.list_current = None;
    }

    /// The command that draws `text` at the cursor in the given colour pair.
    /// The cursor moves one row down; the text is not wrapped. The cursor
    /// must not stand on the last row that a `usize` can number.
    pub fn label(&mut self, text: &str, pair: i16) -> (command: DrawCommand)
        requires
            old(self)@.row < usize::MAX,
        ensures
            command@ == old(self)@.drawn(text@, pair),
            final(self)@ == old(self)@.next_row(),
    {
        let command = DrawCommand {
            row: self.row,
            col: self.col,
            text: String::from_str(text),
            pair,
        };
        self.row = self.row + 1;
        command
    }

    /// Ends a frame. Nothing is left to do: the layer keeps no state that
    /// outlives the frame.
    pub fn end(&mut self)
        ensures
            final(self)@ == old(self)@,
    {
    }
}

} // verus!
