//! The commands: what each one does to a store that was opened. Reading and
//! writing the backing file, and printing, are left to the caller.

use crate::calendar::{date_from_input, date_label, date_to_label, input_date};
use crate::db::Database;
use crate::todo::{
    clone_strings, texts, Priority, Status, Timestamp, ToDo, ToDoList, ToDoUpdate, ToDoUpdateView,
    ToDoView,
};
use vstd::prelude::*;

verus! {

/// Adds a task.
#[derive(Debug)]
pub struct Add {
    pub todo: String,
    pub priority: Option<Priority>,
    /// As typed: day, month and year, or the name of a weekday.
    pub start_date: Option<String>,
    /// As typed, like the start.
    pub due_date: Option<String>,
    pub tags: Option<Vec<String>>,
}

/// Deletes the task at a position.
#[derive(Debug)]
pub struct Delete {
    pub todo_id: usize,
}

/// Marks the task at a position complete.
#[derive(Debug)]
pub struct Mark {
    pub todo_id: usize,
}

/// Lists tasks: the pending ones, the complete ones, those with one of the
/// tags; all of them where nothing is asked for.
#[derive(Debug)]
pub struct List {
    pub show_pending: bool,
    pub show_complete: bool,
    pub filter_tags: Option<Vec<String>>,
}

/// Changes fields of the task at a position.
#[derive(Debug)]
pub struct Modify {
    pub todo_id: usize,
    pub desc: Option<String>,
    pub status: Option<Status>,
    pub priority: Option<Option<Priority>>,
    pub start_date: Option<String>,
    pub due_date: Option<Option<String>>,
    pub tags: Option<Vec<String>>,
}

/// A date that was typed and cannot be read.
#[derive(Debug)]
pub struct BadDate(pub String);

/// A typed date that may be absent, read at the moment `now`: the outer
/// `None` says that a date was typed and cannot be read.
pub open spec fn optional_date(text: Option<String>, now: Timestamp) -> Option<Option<Timestamp>> {
    match text {
        Some(t) => match input_date(t@, now) {
            Some(stamp) => Some(Some(stamp)),
            None => None,
        },
        None => Some(None),
    }
}

fn read_optional_date(text: &Option<String>, now: Timestamp) -> (res: Result<
    Option<Timestamp>,
    BadDate,
>)
    ensures
        match optional_date(*text, now) {
            Some(date) => res == Ok::<Option<Timestamp>, BadDate>(date),
            None => res matches Err(BadDate(t)) && Some(t) == *text,
        },
{
    match text {
        Some(t) => match date_from_input(t.as_str(), now) {
            Some(stamp) => Ok(Some(stamp)),
            None => Err(BadDate(t.clone())),
        },
        None => Ok(None),
    }
}

fn clone_text(text: &Option<String>) -> (copy: Option<String>)
    ensures
        copy == *text,
{
    match text {
        Some(t) => Some(t.clone()),
        None => None,
    }
}

fn clone_tags(tags: &Option<Vec<String>>) -> (copy: Option<Vec<String>>)
    ensures
        copy is Some == tags is Some,
        copy is Some ==> copy.unwrap()@ == tags.unwrap()@,
{
    match tags {
        Some(t) => Some(clone_strings(t)),
        None => None,
    }
}

/// The task that an `Add` asks for at the moment `now`: pending, without
/// recurrence, with the start that was typed or else `now`. There is none
/// where a date cannot be read.
pub open spec fn new_task(command: Add, now: Timestamp) -> Option<ToDoView> {
    match (optional_date(command.start_date, now), optional_date(command.due_date, now)) {
        (Some(start), Some(due)) => Some(
            ToDoView {
                recur: None,
                due: due,
                prio: command.priority,
                start: match start {
                    Some(s) => s,
                    None => now,
                },
                desc: command.todo@,
                status: Status::Pending,
                tags: match command.tags {
                    Some(t) => texts(t@),
                    None => Seq::empty(),
                },
            },
        ),
        _ => None,
    }
}

/// The date of a command that cannot be read: the start, or else the due
/// date.
pub open spec fn unreadable_date(start: Option<String>, due: Option<String>, now: Timestamp) -> String {
    if optional_date(start, now) is None {
        start.unwrap()
    } else {
        due.unwrap()
    }
}

/// Adds the task that the command asks for, unless the store holds an equal
/// one. Says whether it was added. Where a date cannot be read the store is
/// left as it is and the date is handed back.
pub fn add(db: &mut Database, command: &Add, now: Timestamp) -> (res: Result<bool, BadDate>)
    ensures
        match new_task(*command, now) {
            Some(todo) => res == Ok::<bool, BadDate>(!old(db)@.todos.contains(todo)) && final(db)@
                == old(db)@.after_add(todo),
            None => res == Err::<bool, BadDate>(
                BadDate(unreadable_date(command.start_date, command.due_date, now)),
            ) && final(db)@ == old(db)@,
        },
{
    let start = match read_optional_date(&command.start_date, now) {
        Ok(Some(s)) => s,
        Ok(None) => now,
        Err(bad) => {
            return Err(bad);
        },
    };
    let due = match read_optional_date(&command.due_date, now) {
        Ok(d) => d,
        Err(bad) => {
            return Err(bad);
        },
    };
    let tags = match &command.tags {
        Some(t) => clone_strings(t),
        None => Vec::new(),
    };
    let todo = ToDo {
        desc: command.todo.clone(),
        start,
        prio: command.priority,
        due,
        tags,
        recur: None,
        status: Status::Pending,
    };
    assert(todo@.tags =~= new_task(*command, now).unwrap().tags);
    Ok(db.add(todo))
}

/// Deletes the task at the command's position. Says whether there was one.
pub fn del(db: &mut Database, command: Delete) -> (removed: bool)
    ensures
        removed == old(db)@.has(command.todo_id as int),
        final(db)@ == old(db)@.after_delete(command.todo_id as int),
{
    db.delete(command.todo_id)
}

/// Marks the task at the command's position complete. Says whether there was
/// one.
pub fn mark(db: &mut Database, command: Mark) -> (marked: bool)
    ensures
        marked == old(db)@.has(command.todo_id as int),
        final(db)@ == old(db)@.after_mark_complete(command.todo_id as int),
{
    db.update(command.todo_id, ToDoUpdate::new().with_status(Status::Complete))
}

/// The update that a `Modify` asks for at the moment `now`; none where a date
/// cannot be read. A due date that was asked for without a value clears the
/// task's due date.
pub open spec fn modification(mods: Modify, now: Timestamp) -> Option<ToDoUpdateView> {
    let due = match mods.due_date {
        Some(d) => match optional_date(d, now) {
            Some(date) => Some(Some(date)),
            None => None,
        },
        None => Some(None),
    };
    match (optional_date(mods.start_date, now), due) {
        (Some(start), Some(due)) => Some(
            ToDoUpdateView {
                due: due,
                prio: mods.priority,
                recur: None,
                desc: match mods.desc {
                    Some(d) => Some(d@),
                    None => None,
                },
                status: mods.status,
                start: start,
                tags: match mods.tags {
                    Some(t) => Some(texts(t@)),
                    None => None,
                },
            },
        ),
        _ => None,
    }
}

/// Applies the update that the command asks for to the task at its position.
/// Says whether there was a task. Where a date cannot be read the store is
/// left as it is and the date is handed back.
pub fn modify(db: &mut Database, mods: &Modify, now: Timestamp) -> (res: Result<bool, BadDate>)
    ensures
        match modification(*mods, now) {
            Some(update) => res == Ok::<bool, BadDate>(old(db)@.has(mods.todo_id as int))
                && final(db)@ == old(db)@.after_update(mods.todo_id as int, update),
            None => res == Err::<bool, BadDate>(
                BadDate(
                    unreadable_date(
                        mods.start_date,
                        match mods.due_date {
                            Some(d) => d,
                            None => None,
                        },
                        now,
                    ),
                ),
            ) && final(db)@ == old(db)@,
        },
{
    let mut update = ToDoUpdate::new();
    update.desc = clone_text(&mods.desc);
    update.tags = clone_tags(&mods.tags);
    update.prio = mods.priority;
    update.status = mods.status;
    update.start = match read_optional_date(&mods.start_date, now) {
        Ok(s) => s,
        Err(bad) => {
            return Err(bad);
        },
    };
    update.due = match &mods.due_date {
        Some(d) => match read_optional_date(d, now) {
            Ok(date) => Some(date),
            Err(bad) => {
                return Err(bad);
            },
        },
        None => None,
    };
    Ok(db.update(mods.todo_id, update))
}

/// One line of a listing.
#[derive(Debug)]
pub struct ListRow {
    /// The task's position in the store.
    pub id: usize,
    pub status: String,
    pub desc: String,
    pub start: String,
    pub priority: String,
    pub due_date: String,
    pub tags: Vec<String>,
}

/// What a line of a listing holds, as mathematical values.
pub ghost struct ListRowView {
    pub id: int,
    pub status: Seq<char>,
    pub desc: Seq<char>,
    pub start: Seq<char>,
    pub priority: Seq<char>,
    pub due_date: Seq<char>,
    pub tags: Seq<Seq<char>>,
}

impl View for ListRow {
    type V = ListRowView;

    open spec fn view(&self) -> ListRowView {
        ListRowView {
            id: self.id as int,
            status: self.status@,
            desc: self.desc@,
            start: self.start@,
            priority: self.priority@,
            due_date: self.due_date@,
            tags: texts(self.tags@),
        }
    }
}

pub open spec fn rows_view(rows: Seq<ListRow>) -> Seq<ListRowView> {
    Seq::new(rows.len(), |i: int| rows[i]@)
}

/// Whether a task carries one of the tags.
pub open spec fn has_any_tag(todo: ToDoView, tags: Seq<Seq<char>>) -> bool {
    exists|i: int| 0 <= i < tags.len() && todo.tags.contains(#[trigger] tags[i])
}

/// Whether a listing shows a task: it is complete and the complete ones are
/// asked for, or pending and the pending ones are asked for, or it carries
/// one of the tags asked for. Where nothing is asked for, every task is
/// shown.
pub open spec fn shown(
    todo: ToDoView,
    show_pending: bool,
    show_complete: bool,
    filter: Option<Seq<Seq<char>>>,
) -> bool {
    ||| show_complete && todo.status == Status::Complete
    ||| show_pending && todo.status == Status::Pending
    ||| match filter {
        Some(tags) => has_any_tag(todo, tags),
        None => !show_pending && !show_complete,
    }
}

/// The line for the task at a position.
pub open spec fn row_of(id: int, todo: ToDoView) -> ListRowView {
    ListRowView {
        id: id,
        status: todo.status.symbol(),
        desc: todo.desc,
        start: date_label(Some(todo.start)),
        priority: match todo.prio {
            Some(p) => p.label(),
            None => "None"@,
        },
        due_date: date_label(todo.due),
        tags: todo.tags,
    }
}

/// The listing of the first `n` tasks of a list: the lines of those that are
/// shown, in the order of the list, each with its position.
pub open spec fn listing(
    todos: Seq<ToDoView>,
    show_pending: bool,
    show_complete: bool,
    filter: Option<Seq<Seq<char>>>,
    n: nat,
) -> Seq<ListRowView>
    decreases n,
{
    if n == 0 {
        Seq::empty()
    } else {
        let before = listing(todos, show_pending, show_complete, filter, (n - 1) as nat);
        if shown(todos[n - 1], show_pending, show_complete, filter) {
            before.push(row_of(n - 1, todos[n - 1]))
        } else {
            before
        }
    }
}

/// A listing holds the line of every task that is shown and no other line,
/// each with the task's position, in the order of the positions.
pub proof fn lemma_listing_is_the_shown_tasks(
    todos: Seq<ToDoView>,
    show_pending: bool,
    show_complete: bool,
    filter: Option<Seq<Seq<char>>>,
    n: nat,
)
    requires
        n <= todos.len(),
    ensures
        forall|j: int|
            0 <= j < listing(todos, show_pending, show_complete, filter, n).len() ==> {
                let row = #[trigger] listing(todos, show_pending, show_complete, filter, n)[j];
                &&& 0 <= row.id < n
                &&& shown(todos[row.id], show_pending, show_complete, filter)
                &&& row == row_of(row.id, todos[row.id])
            },
        forall|j: int, k: int|
            0 <= j < k < listing(todos, show_pending, show_complete, filter, n).len() ==> (
            #[trigger] listing(todos, show_pending, show_complete, filter, n)[j]).id < (
            #[trigger] listing(todos, show_pending, show_complete, filter, n)[k]).id,
        forall|i: int|
            0 <= i < n && shown(#[trigger] todos[i], show_pending, show_complete, filter)
                ==> listing(todos, show_pending, show_complete, filter, n).contains(
                row_of(i, todos[i]),
            ),
    decreases n,
{
    if n > 0 {
        let before = listing(todos, show_pending, show_complete, filter, (n - 1) as nat);
        let all = listing(todos, show_pending, show_complete, filter, n);
        lemma_listing_is_the_shown_tasks(todos, show_pending, show_complete, filter, (n - 1) as nat);
        let last = row_of(n - 1, todos[n - 1]);
        if shown(todos[n - 1], show_pending, show_complete, filter) {
            assert(all == before.push(last));
            assert(all[before.len() as int] == last);
            assert forall|i: int|
                0 <= i < n && shown(
                    #[trigger] todos[i],
                    show_pending,
                    show_complete,
                    filter,
                ) implies all.contains(row_of(i, todos[i])) by {
                if i < n - 1 {
                    let j = choose|j: int| 0 <= j < before.len() && before[j] == row_of(i, todos[i]);
                    assert(all[j] == row_of(i, todos[i]));
                }
            }
        } else {
            assert(all == before);
        }
    }
}

/// The tags that a `List` asks for, if it asks for any.
pub open spec fn filter_of(command: List) -> Option<Seq<Seq<char>>> {
    match command.filter_tags {
        Some(t) => Some(texts(t@)),
        None => None,
    }
}

fn carries_any(todo: &ToDo, tags: &Vec<String>) -> (found: bool)
    ensures
        found == has_any_tag(todo@, texts(tags@)),
{
    let mut i: usize = 0;
    while i < tags.len()
        invariant
            i <= tags.len(),
            forall|k: int| 0 <= k < i ==> !todo@.tags.contains(#[trigger] texts(tags@)[k]),
        decreases tags.len() - i,
    {
        if todo.has_tag(&tags[i]) {
            assert(todo@.tags.contains(texts(tags@)[i as int]));
            return true;
        }
        i += 1;
    }
    false
}

fn row_for(id: usize, todo: &ToDo) -> (row: ListRow)
    ensures
        row@ == row_of(id as int, todo@),
{
    ListRow {
        id,
        status: todo.status.as_symbol().to_owned(),
        desc: todo.desc.clone(),
        start: date_to_label(Some(todo.start)),
        priority: match todo.prio {
            Some(p) => p.to_string(),
            None => "None".to_owned(),
        },
        due_date: date_to_label(todo.due),
        tags: clone_strings(&todo.tags),
    }
}

/// The lines of the tasks that the command asks for, in the order of the
/// store. The store is left as it is.
pub fn list(db: &Database, command: &List) -> (rows: Vec<ListRow>)
    ensures
        rows_view(rows@) == listing(
            db@.todos,
            command.show_pending,
            command.show_complete,
            filter_of(*command),
            db@.todos.len(),
        ),
{
    let todos: &ToDoList = db.todos();
    let ghost filter = filter_of(*command);
    let mut rows: Vec<ListRow> = Vec::new();
    let mut id: usize = 0;
    while id < todos.len()
        invariant
            id <= todos@.len(),
            todos@ == db@.todos,
            filter == filter_of(*command),
            rows_view(rows@) == listing(
                todos@,
                command.show_pending,
                command.show_complete,
                filter,
                id as nat,
            ),
        decreases todos@.len() - id,
    {
        let todo: &ToDo = &todos.0[id];
        let keep = (command.show_complete && todo.status == Status::Complete) || (
        command.show_pending && todo.status == Status::Pending) || match &command.filter_tags {
            Some(tags) => carries_any(todo, tags),
            None => !command.show_pending && !command.show_complete,
        };
        let ghost before = rows_view(rows@);
        if keep {
            rows.push(row_for(id, todo));
            assert(rows_view(rows@) =~= before.push(row_of(id as int, todo@)));
        }
        id += 1;
    }
    rows
}

} // verus!
