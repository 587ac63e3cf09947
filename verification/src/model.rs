//! The values that travel between storage and the HTTP surface, each with the
//! mathematical value that contracts speak of.

use vstd::prelude::*;

verus! {

/// One row of the `todo_list` table: the key the database assigned and the text.
#[derive(Debug, Clone, PartialEq, Eq)]
pub struct TodoItem {
    pub id: i64,
    pub item: String,
}

/// What a [`TodoItem`] is in contracts.
pub struct TodoItemView {
    pub id: int,
    pub item: Seq<char>,
}

impl View for TodoItem {
    type V = TodoItemView;

    open spec fn view(&self) -> TodoItemView {
        TodoItemView { id: self.id as int, item: self.item@ }
    }
}

/// The rows of a sequence of items, one for one and in the same order.
pub open spec fn item_views(items: Seq<TodoItem>) -> Seq<TodoItemView> {
    items.map_values(|t: TodoItem| t@)
}

/// Body of a successful listing.
#[derive(Debug, Clone, PartialEq, Eq)]
pub struct TodoList {
    pub items: Vec<TodoItem>,
}

impl View for TodoList {
    type V = Seq<TodoItemView>;

    open spec fn view(&self) -> Seq<TodoItemView> {
        item_views(self.items@)
    }
}

/// Body of a successful insert or delete: one sentence that names the row count.
#[derive(Debug, Clone, PartialEq, Eq)]
pub struct StatusMessage {
    pub message: String,
}

impl View for StatusMessage {
    type V = Seq<char>;

    open spec fn view(&self) -> Seq<char> {
        self.message@
    }
}

/// An HTTP status line: the numeric code and its reason text.
#[derive(Debug, Clone, Copy, PartialEq, Eq)]
pub struct Status {
    pub code: u16,
    pub reason: &'static str,
}

/// What a [`Status`] is in contracts.
pub struct StatusView {
    pub code: int,
    pub reason: Seq<char>,
}

impl View for Status {
    type V = StatusView;

    open spec fn view(&self) -> StatusView {
        StatusView { code: self.code as int, reason: self.reason@ }
    }
}

} // verus!
