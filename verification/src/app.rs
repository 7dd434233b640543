//! The tracker as a whole: the two lists, the tab that is on screen, what
//! each key does to them, and the frame that shows them.
//!
//! The front end owns the terminal. It draws what [`App::render`] returns,
//! reads a key, hands it to [`App::handle_key`] and does what the returned
//! [`Action`] asks.

use crate::codec::{load_state, save_state, FormatError};
use crate::grammar::{all_tagged, is_first_untagged, items_of, lines_of, stored_text};
use crate::status::Status;
use crate::task_list::{list_down, list_transfer, list_up, transferred, TaskList, TaskListView};
use crate::ui::{pair_of, DrawCommand, DrawCommandView, Ui, UiView, REGULAR_PAIR};
use vstd::prelude::*;
use vstd::string::StringExecFns;

verus! {

/// What a key means to the tracker.
#[derive(Clone, Copy, Debug, PartialEq, Eq, Structural)]
pub enum Key {
    /// `q`: leave.
    Quit,
    /// `k`: move the selection up.
    Up,
    /// `j`: move the selection down.
    Down,
    /// Enter: move the selected item to the other list.
    Transfer,
    /// `s`: put a copy of the selected done item at the end of the todo list.
    Copy,
    /// `e`: write the lists to the export file.
    Export,
    /// Tab: show the other list.
    SwitchTab,
    /// Any other key.
    Other,
}

/// The character that a key code stands for: its low eight bits.
pub open spec fn key_char(code: i32) -> char {
    ((code & 0xff) as u8) as char
}

/// The meaning of a key code. Keys are told apart by character, and case
/// matters.
pub open spec fn key_of(code: i32) -> Key {
    let c = key_char(code);
    if c == 'q' {
        Key::Quit
    } else if c == 'k' {
        Key::Up
    } else if c == 'j' {
        Key::Down
    } else if c == '\n' {
        Key::Transfer
    } else if c == 's' {
        Key::Copy
    } else if c == 'e' {
        Key::Export
    } else if c == '\t' {
        Key::SwitchTab
    } else {
        Key::Other
    }
}

/// Tells what the key with the given code means.
pub fn decode_key(code: i32) -> (key: Key)
    ensures
        key == key_of(code),
{
    assert(0 <= code & 0xff < 256) by (bit_vector);
    let low: u8 = (code & 0xff) as u8;
    let c: char = low as char;
    match c {
        'q' => Key::Quit,
        'k' => Key::Up,
        'j' => Key::Down,
        '\n' => Key::Transfer,
        's' => Key::Copy,
        'e' => Key::Export,
        '\t' => Key::SwitchTab,
        _ => Key::Other,
    }
}

/// What the front end has to do after a key was handled.
#[derive(Clone, Copy, Debug, PartialEq, Eq, Structural)]
pub enum Action {
    /// Draw the next frame and read the next key.
    Continue,
    /// Write the stored form of the lists to the export file, then go on.
    Export,
    /// Stop: wait for one more key, save the lists and leave.
    Quit,
}

/// What the front end has to do after `key`.
pub open spec fn action_of(key: Key) -> Action {
    match key {
        Key::Quit => Action::Quit,
        Key::Export => Action::Export,
        _ => Action::Continue,
    }
}

/// The name of the file that an export writes, in the working directory.
pub const EXPORT_FILE: &'static str = "TODO";

/// The pattern by which the header's date is written: day, month and year
/// with slashes between them.
pub const DATE_PATTERN: &'static str = "%d/%m/%Y";

/// The header line of a tab: the names of both tabs with the current one in
/// brackets, then the date and a colon.
pub open spec fn header_text(tab: Status, date: Seq<char>) -> Seq<char> {
    match tab {
        Status::Todo => "[TODO] DONE  "@ + date + ":"@,
        Status::Done => " TODO [DONE] "@ + date + ":"@,
    }
}

/// The line under the header.
pub open spec fn rule_text() -> Seq<char> {
    "------------------------"@
}

/// The line of an item on a tab: a check box, empty or crossed, then the
/// item.
pub open spec fn row_text(tab: Status, item: Seq<char>) -> Seq<char> {
    match tab {
        Status::Todo => "[ ] "@ + item,
        Status::Done => "[x] "@ + item,
    }
}

/// What the todo tab says when nothing is left to do.
pub open spec fn idle_text() -> Seq<char> {
    "Everything done, enjoy the day"@
}

/// The tracker as a mathematical value.
#[verifier::ext_equal]
pub struct AppView {
    pub todos: TaskListView,
    pub dones: TaskListView,
    pub tab: Status,
    pub date: Seq<char>,
}

impl AppView {
    /// The list that is on screen.
    pub open spec fn active(self) -> TaskListView {
        match self.tab {
            Status::Todo => self.todos,
            Status::Done => self.dones,
        }
    }

    /// What is drawn for item `index` of the list on screen: its line, two
    /// rows below the top, highlighted if the item is the selected one.
    pub open spec fn row(self, index: int) -> DrawCommandView {
        DrawCommandView {
            row: (index + 2) as nat,
            col: 0,
            text: row_text(self.tab, self.active().items[index]),
            pair: pair_of(self.active().selected, index as nat),
        }
    }

    /// The two rows at the top: the header and the rule under it.
    pub open spec fn head_rows(self) -> Seq<DrawCommandView> {
        seq![
            DrawCommandView {
                row: 0,
                col: 0,
                text: header_text(self.tab, self.date),
                pair: REGULAR_PAIR,
            },
            DrawCommandView { row: 1, col: 0, text: rule_text(), pair: REGULAR_PAIR },
        ]
    }

    /// One row for each item of the list on screen, in order.
    pub open spec fn item_rows(self) -> Seq<DrawCommandView> {
        Seq::new(self.active().items.len(), |index: int| self.row(index))
    }

    /// The idle line, which stands under the rule of an empty todo tab and
    /// nowhere else.
    pub open spec fn idle_rows(self) -> Seq<DrawCommandView> {
        if self.tab == Status::Todo && self.todos.items.len() == 0 {
            seq![DrawCommandView { row: 2, col: 0, text: idle_text(), pair: REGULAR_PAIR }]
        } else {
            Seq::empty()
        }
    }

    /// The frame, from top to bottom.
    pub open spec fn frame(self) -> Seq<DrawCommandView> {
        self.head_rows() + self.item_rows() + self.idle_rows()
    }

    /// The tracker after `key`. Moving and transferring act on the list that
    /// is on screen; a transfer goes to the other list. Copying takes the
    /// selected done item whichever tab is on screen, and does nothing where
    /// the done list is empty.
    pub open spec fn after_key(self, key: Key) -> AppView {
        match key {
            Key::Up => match self.tab {
                Status::Todo => AppView { todos: self.todos.moved_up(), ..self },
                Status::Done => AppView { dones: self.dones.moved_up(), ..self },
            },
            Key::Down => match self.tab {
                Status::Todo => AppView { todos: self.todos.moved_down(), ..self },
                Status::Done => AppView { dones: self.dones.moved_down(), ..self },
            },
            Key::Transfer => match self.tab {
                Status::Todo => AppView {
                    todos: transferred(self.todos, self.dones).0,
                    dones: transferred(self.todos, self.dones).1,
                    ..self
                },
                Status::Done => AppView {
                    dones: transferred(self.dones, self.todos).0,
                    todos: transferred(self.dones, self.todos).1,
                    ..self
                },
            },
            Key::Copy => if self.dones.selected < self.dones.items.len() {
                AppView {
                    todos: self.todos.appended(self.dones.items[self.dones.selected as int]),
                    ..self
                }
            } else {
                self
            },
            Key::SwitchTab => AppView { tab: self.tab.toggled(), ..self },
            Key::Quit | Key::Export | Key::Other => self,
        }
    }
}

/// Whatever the key, both selections stay valid and the date stays as it is.
pub proof fn lemma_keys_keep_selections_valid(app: AppView, key: Key)
    requires
        app.todos.valid(),
        app.dones.valid(),
    ensures
        app.after_key(key).todos.valid(),
        app.after_key(key).dones.valid(),
        app.after_key(key).date == app.date,
{
}

/// Keys that neither transfer nor copy leave the items of both lists alone,
/// and only the tab key changes the tab.
pub proof fn lemma_keys_that_keep_the_items(app: AppView, key: Key)
    ensures
        key != Key::Transfer && key != Key::Copy ==> app.after_key(key).todos.items
            == app.todos.items,
        key != Key::Transfer && key != Key::Copy ==> app.after_key(key).dones.items
            == app.dones.items,
        key != Key::SwitchTab ==> app.after_key(key).tab == app.tab,
{
}

/// Asks chrono for the local date and time, `Local::now`, and has it written
/// out by `DateTime::format` under `pattern`. Nothing is promised of the text:
/// it depends on the clock and the time zone of the machine. The pattern is
/// held to the one this crate uses, which chrono can render; chrono stops the
/// program on a clock set before 1970.
#[verifier::external_body]
fn local_date(pattern: &str) -> (date: String)
    requires
        pattern@ == DATE_PATTERN@,
{
    chrono::Local::now().format(pattern).to_string()
}

/// The tracker: the two lists, the tab that is on screen, and the date shown
/// in the header.
#[derive(Debug)]
pub struct App {
    todos: TaskList,
    dones: TaskList,
    tab: Status,
    date: String,
}

impl View for App {
    type V = AppView;

    closed spec fn view(&self) -> AppView {
        AppView { todos: self.todos@, dones: self.dones@, tab: self.tab, date: self.date@ }
    }
}

impl App {
    /// A tracker of the given lists that shows the todo tab.
    pub fn new(todos: TaskList, dones: TaskList, date: String) -> (app: App)
        ensures
            app@ == (AppView { todos: todos@, dones: dones@, tab: Status::Todo, date: date@ }),
    {
        App { todos, dones, tab: Status::Todo, date }
    }

    /// Reads the stored text and starts a tracker on it: both lists select
    /// their first item, the todo tab is on screen, and the header shows
    /// today's date. A line without a tag is reported by its number.
    pub fn load(text: &str) -> (loaded: Result<App, FormatError>)
        ensures
            loaded is Ok <==> all_tagged(lines_of(text@)),
            loaded matches Ok(app) ==> app@.todos == (TaskListView {
                items: items_of(lines_of(text@), Status::Todo),
                selected: 0,
            }),
            loaded matches Ok(app) ==> app@.dones == (TaskListView {
                items: items_of(lines_of(text@), Status::Done),
                selected: 0,
            }),
            loaded matches Ok(app) ==> app@.tab == Status::Todo,
            loaded matches Err(error) ==> is_first_untagged(lines_of(text@), error.line as int),
    {
        match load_state(text) {
            Ok((todos, dones)) => {
                let date = local_date(DATE_PATTERN);
                Ok(App::new(TaskList::from_items(todos), TaskList::from_items(dones), date))
            },
            Err(error) => Err(error),
        }
    }

    /// The stored form of the two lists, for saving and for export.
    pub fn save(&self) -> (text: String)
        ensures
            text@ == stored_text(self@.todos.items, self@.dones.items),
    {
        save_state(self.todos.items(), self.dones.items())
    }

    /// The frame that shows the tracker, from top to bottom. The list on
    /// screen must be short enough for its rows to be numbered in a `usize`.
    pub fn render(&self) -> (frame: Vec<DrawCommand>)
        requires
            self@.active().items.len() + 2 <= usize::MAX,
        ensures
            frame.deep_view() == self@.frame(),
    {
        let mut ui = Ui::new();
        let mut frame: Vec<DrawCommand> = Vec::new();
        ui.begin(0, 0);
        let list = match self.tab {
            Status::Todo => &self.todos,
            Status::Done => &self.dones,
        };
        let tabs = match self.tab {
            Status::Todo => "[TODO] DONE  ",
            Status::Done => " TODO [DONE] ",
        };
        let header = String::from_str(tabs).concat(self.date.as_str()).concat(":");
        frame.push(ui.label(header.as_str(), REGULAR_PAIR));
        frame.push(ui.label("------------------------", REGULAR_PAIR));
        ui.begin_list(list.selected());
        let items = list.items();
        let mut index: usize = 0;
        while index < items.len()
            invariant
                index <= items.len(),
                items.deep_view() == self@.active().items,
                items.len() + 2 <= usize::MAX,
                ui@ == (UiView {
                    row: (index + 2) as nat,
                    col: 0,
                    list_current: Some(self@.active().selected),
                }),
                frame.deep_view() == self@.frame().take(index + 2),
            decreases items.len() - index,
        {
            let check_box = match self.tab {
                Status::Todo => "[ ] ",
                Status::Done => "[x] ",
            };
            let text = String::from_str(check_box).concat(items[index].as_str());
            frame.push(ui.list_element(text.as_str(), index));
            assert(self@.frame().take(index + 3) == self@.frame().take(index + 2).push(
                self@.row(index as int),
            ));
            index = index + 1;
        }
        ui.end_list();
        if self.tab == Status::Todo && items.len() < 1 {
            let ghost rows = frame.deep_view();
            let command = ui.label("Everything done, enjoy the day", REGULAR_PAIR);
            frame.push(command);
            assert(frame.deep_view() == rows.push(command@));
        }
        ui.end();
        frame
    }

    /// The todo list.
    pub fn todos(&self) -> (list: &TaskList)
        ensures
            list@ == self@.todos,
    {
        &self.todos
    }

    /// The done list.
    pub fn dones(&self) -> (list: &TaskList)
        ensures
            list@ == self@.dones,
    {
        &self.dones
    }

    /// The tab that is on screen.
    pub fn tab(&self) -> (tab: Status)
        ensures
            tab == self@.tab,
    {
        self.tab
    }

    /// The date that the header shows.
    pub fn date(&self) -> (date: &str)
        ensures
            date@ == self@.date,
    {
        self.date.as_str()
    }

    /// Applies `key` and says what the front end has to do next.
    pub fn handle_key(&mut self, key: Key) -> (action: Action)
        ensures
            final(self)@ == old(self)@.after_key(key),
            action == action_of(key),
    {
        match key {
            Key::Quit => Action::Quit,
            Key::Up => {
                match self.tab {
                    Status::Todo => list_up(&mut self.todos),
                    Status::Done => list_up(&mut self.dones),
                }
                Action::Continue
            },
            Key::Down => {
                match self.tab {
                    Status::Todo => list_down(&mut self.todos),
                    Status::Done => list_down(&mut self.dones),
                }
                Action::Continue
            },
            Key::Transfer => {
                match self.tab {
                    Status::Todo => list_transfer(&mut self.dones, &mut self.todos),
                    Status::Done => list_transfer(&mut self.todos, &mut self.dones),
                }
                Action::Continue
            },
            Key::Copy => {
                match self.dones.selected_item() {
                    Some(item) => {
                        let copy = item.clone();
                        self.todos.push(copy);
                    },
                    None => {},
                }
                Action::Continue
            },
            Key::Export => Action::Export,
            Key::SwitchTab => {
                self.tab = self.tab.toggle();
                Action::Continue
            },
            Key::Other => Action::Continue,
        }
    }
}

} // verus!
