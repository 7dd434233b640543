//! A list of items with a selection, and the rules by which the selection
//! moves and items pass from one list to another.

use vstd::prelude::*;

verus! {

/// What a task list is, mathematically: its items in display order and the
/// index of the selected one.
#[verifier::ext_equal]
pub struct TaskListView {
    pub items: Seq<Seq<char>>,
    pub selected: nat,
}

impl TaskListView {
    /// The selection points at an item whenever there is one. On an empty
    /// list it may be anything.
    pub open spec fn valid(self) -> bool {
        self.items.len() > 0 ==> self.selected < self.items.len()
    }

    /// The list after the selection moved one item up; it stays on the first.
    pub open spec fn moved_up(self) -> TaskListView {
        if self.items.len() > 0 && self.selected > 0 {
            TaskListView { selected: (self.selected - 1) as nat, ..self }
        } else {
            self
        }
    }

    /// The list after the selection moved one item down; it stays on the last.
    pub open spec fn moved_down(self) -> TaskListView {
        if self.selected + 1 < self.items.len() {
            TaskListView { selected: self.selected + 1, ..self }
        } else {
            self
        }
    }

    /// The list with `item` added at its end. A list that was empty selects
    /// its new, only item.
    pub open spec fn appended(self, item: Seq<char>) -> TaskListView {
        TaskListView {
            items: self.items.push(item),
            selected: if self.items.len() == 0 {
                0
            } else {
                self.selected
            },
        }
    }

    /// The list with its selected item taken out. The selection keeps its
    /// index, except that it steps back onto the new last item where it would
    /// point past it.
    pub open spec fn without_selected(self) -> TaskListView
        recommends
            self.selected < self.items.len(),
    {
        let items = self.items.remove(self.selected as int);
        TaskListView {
            items,
            selected: if items.len() > 0 && self.selected >= items.len() {
                (items.len() - 1) as nat
            } else {
                self.selected
            },
        }
    }
}

/// The two lists after the selected item of `src` went to the end of `dst`:
/// `src` first, then `dst`. Nothing changes where `src` selects no item, which
/// is so when it is empty.
pub open spec fn transferred(src: TaskListView, dst: TaskListView) -> (TaskListView, TaskListView) {
    if src.selected < src.items.len() {
        (src.without_selected(), dst.appended(src.items[src.selected as int]))
    } else {
        (src, dst)
    }
}

/// One step of the selection.
#[derive(Clone, Copy, Debug, PartialEq, Eq, Structural)]
pub enum Move {
    Up,
    Down,
}

/// The list after the moves were made one after the other.
pub open spec fn after_moves(list: TaskListView, moves: Seq<Move>) -> TaskListView
    decreases moves.len(),
{
    if moves.len() == 0 {
        list
    } else {
        let before = after_moves(list, moves.drop_last());
        match moves.last() {
            Move::Up => before.moved_up(),
            Move::Down => before.moved_down(),
        }
    }
}

/// However the selection of a non-empty list is moved up and down, it stays
/// on one of the items, and the items stay as they are.
pub proof fn lemma_moves_stay_in_range(list: TaskListView, moves: Seq<Move>)
    requires
        list.valid(),
        list.items.len() > 0,
    ensures
        after_moves(list, moves).items == list.items,
        0 <= after_moves(list, moves).selected <= list.items.len() - 1,
    decreases moves.len(),
{
    if moves.len() > 0 {
        lemma_moves_stay_in_range(list, moves.drop_last());
    }
}

/// Moving up from the first item changes nothing, and neither does moving
/// down from the last: doing either again is the same as doing it once.
pub proof fn lemma_moves_at_the_ends(list: TaskListView)
    ensures
        list.selected == 0 ==> list.moved_up() == list,
        list.selected == 0 ==> list.moved_up().moved_up() == list.moved_up(),
        list.selected == list.items.len() - 1 ==> list.moved_down() == list,
        list.selected == list.items.len() - 1 ==> list.moved_down().moved_down()
            == list.moved_down(),
{
}

/// A transfer out of a list that selects an item makes that list one shorter
/// and the other one longer; the item that went over is the one that was
/// selected, and it is the last of the other list. The items that stay keep
/// their order, as do those that were in the other list, and both selections
/// stay valid.
pub proof fn lemma_transfer_moves_selected(src: TaskListView, dst: TaskListView)
    requires
        src.valid(),
        dst.valid(),
        src.items.len() > 0,
    ensures
        transferred(src, dst).0.items.len() == src.items.len() - 1,
        transferred(src, dst).1.items.len() == dst.items.len() + 1,
        transferred(src, dst).1.items.last() == src.items[src.selected as int],
        transferred(src, dst).0.items == src.items.remove(src.selected as int),
        transferred(src, dst).1.items.drop_last() == dst.items,
        transferred(src, dst).0.valid(),
        transferred(src, dst).1.valid(),
{
}

/// A transfer out of an empty list changes neither list.
pub proof fn lemma_transfer_from_empty(src: TaskListView, dst: TaskListView)
    requires
        src.items.len() == 0,
    ensures
        transferred(src, dst) == (src, dst),
{
}

/// A list of items and the index of the selected one.
#[derive(Debug)]
pub struct TaskList {
    items: Vec<String>,
    selected: usize,
}

impl View for TaskList {
    type V = TaskListView;

    closed spec fn view(&self) -> TaskListView {
        TaskListView { items: self.items.deep_view(), selected: self.selected as nat }
    }
}

impl TaskList {
    #[verifier::type_invariant]
    spec fn selection_in_range(self) -> bool {
        self.items@.len() > 0 ==> self.selected < self.items@.len()
    }

    /// An empty list.
    pub fn new() -> (list: TaskList)
        ensures
            list@.items == Seq::<Seq<char>>::empty(),
            list@.selected == 0,
    {
        TaskList { items: Vec::new(), selected: 0 }
    }

    /// A list of the given items that selects the first of them.
    pub fn from_items(items: Vec<String>) -> (list: TaskList)
        ensures
            list@.items == items.deep_view(),
            list@.selected == 0,
    {
        TaskList { items, selected: 0 }
    }

    /// The items, in display order.
    pub fn items(&self) -> (items: &Vec<String>)
        ensures
            items.deep_view() == self@.items,
    {
        &self.items
    }

    /// The index of the selected item. It is below `len()` unless the list
    /// is empty.
    pub fn selected(&self) -> (index: usize)
        ensures
            index == self@.selected,
            self@.valid(),
    {
        proof {
            use_type_invariant(self);
        }
        self.selected
    }

    /// The number of items.
    pub fn len(&self) -> (len: usize)
        ensures
            len == self@.items.len(),
    {
        self.items.len()
    }

    /// Whether the list has no item.
    pub fn is_empty(&self) -> (empty: bool)
        ensures
            empty == (self@.items.len() == 0),
    {
        self.items.len() == 0
    }

    /// The selected item, if the list has one.
    pub fn selected_item(&self) -> (item: Option<&String>)
        ensures
            item is Some <==> self@.items.len() > 0,
            item matches Some(text) ==> text@ == self@.items[self@.selected as int],
            self@.valid(),
    {
        proof {
            use_type_invariant(self);
        }
        if self.selected < self.items.len() {
            Some(&self.items[self.selected])
        } else {
            None
        }
    }

    /// Adds `item` at the end. A list that was empty selects it.
    pub fn push(&mut self, item: String)
        ensures
            final(self)@ == old(self)@.appended(item@),
            final(self)@.valid(),
    {
        proof {
            use_type_invariant(&*self);
        }
        // The items leave the list while they change, so that the selection
        // is in range whenever the list holds them.
        let mut items: Vec<String> = Vec::new();
        core::mem::swap(&mut self.items, &mut items);
        if items.len() == 0 {
            self.selected = 0;
        }
        items.push(item);
        self.items = items;
    }
}

/// Moves the selection one item up, unless it is on the first item or the
/// list is empty.
pub fn list_up(list: &mut TaskList)
    ensures
        final(list)@ == old(list)@.moved_up(),
        final(list)@.valid(),
{
    proof {
        use_type_invariant(&*list);
    }
    if list.items.len() > 0 && list.selected > 0 {
        list.selected = list.selected - 1;
    }
}

/// Moves the selection one item down, unless it is on the last item or the
/// list is empty.
pub fn list_down(list: &mut TaskList)
    ensures
        final(list)@ == old(list)@.moved_down(),
        final(list)@.valid(),
{
    proof {
        use_type_invariant(&*list);
    }
    let len: usize = list.items.len();
    if list.selected < len && list.selected + 1 < len {
        list.selected = list.selected + 1;
    }
}

/// Takes the selected item out of `list_src` and puts it at the end of
/// `list_dst`. The selection of `list_src` stays where it was, or steps back
/// onto the new last item where the last one was taken. Nothing happens where
/// `list_src` is empty.
pub fn list_transfer(list_dst: &mut TaskList, list_src: &mut TaskList)
    ensures
        final(list_src)@ == transferred(old(list_src)@, old(list_dst)@).0,
        final(list_dst)@ == transferred(old(list_src)@, old(list_dst)@).1,
        final(list_src)@.valid(),
        final(list_dst)@.valid(),
{
    proof {
        use_type_invariant(&*list_src);
        use_type_invariant(&*list_dst);
    }
    let len: usize = list_src.items.len();
    let index: usize = list_src.selected;
    if index < len {
        let mut items: Vec<String> = Vec::new();
        core::mem::swap(&mut list_src.items, &mut items);
        let item = items.remove(index);
        if index >= items.len() && items.len() > 0 {
            list_src.selected = items.len() - 1;
        }
        list_src.items = items;
        list_dst.push(item);
    }
}

} // verus!
