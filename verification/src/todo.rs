//! The task record and the types of its fields.

use crate::text::str_eq;
use vstd::prelude::*;

verus! {

/// A naive date and time of day: the day counted from the first day of the
/// common era (day 1 is 1 January of year 1), the seconds since midnight and
/// the nanoseconds within that second.
#[derive(Clone, Copy, Debug, PartialEq, Eq, Structural)]
pub struct Timestamp {
    pub day: i32,
    pub secs: u32,
    pub nano: u32,
}

#[derive(Clone, Copy, Debug, PartialEq, Eq, Structural)]
pub enum Status {
    Complete,
    Pending,
}

impl Status {
    /// The mark shown for a status in a listing.
    pub open spec fn symbol(self) -> Seq<char> {
        match self {
            Status::Complete => "\u{2713}"@,
            Status::Pending => "x"@,
        }
    }

    pub fn as_symbol(&self) -> (s: &'static str)
        ensures
            s@ == self.symbol(),
    {
        match self {
            Status::Complete => "\u{2713}",
            Status::Pending => "x",
        }
    }
}

#[derive(Clone, Copy, Debug, PartialEq, Eq, PartialOrd, Ord, Structural)]
pub enum Priority {
    Low,
    Medium,
    High,
}

impl Priority {
    /// The name shown for a priority in a listing.
    pub open spec fn label(self) -> Seq<char> {
        match self {
            Priority::Low => "Low"@,
            Priority::Medium => "Medium"@,
            Priority::High => "High"@,
        }
    }

    pub fn to_string(&self) -> (s: String)
        ensures
            s@ == self.label(),
    {
        match self {
            Priority::Low => "Low".to_owned(),
            Priority::Medium => "Medium".to_owned(),
            Priority::High => "High".to_owned(),
        }
    }

    /// The priority that a word given on the command line names, if any.
    pub open spec fn named(word: Option<Seq<char>>) -> Option<Priority> {
        match word {
            Some(w) => if w == "high"@ {
                Some(Priority::High)
            } else if w == "medium"@ {
                Some(Priority::Medium)
            } else if w == "low"@ {
                Some(Priority::Low)
            } else {
                None
            },
            None => None,
        }
    }

    /// Reads a priority from an optional word: `high`, `medium` or `low`.
    /// Anything else, and no word at all, is refused.
    pub fn try_from(string: Option<&str>) -> (res: Result<Priority, ()>)
        ensures
            match Priority::named(
                match string {
                    Some(w) => Some(w@),
                    None => None,
                },
            ) {
                Some(p) => res == Ok::<Priority, ()>(p),
                None => res.is_err(),
            },
    {
        match string {
            Some(w) => if str_eq(w, "high") {
                Ok(Priority::High)
            } else if str_eq(w, "medium") {
                Ok(Priority::Medium)
            } else if str_eq(w, "low") {
                Ok(Priority::Low)
            } else {
                Err(())
            },
            None => Err(()),
        }
    }
}

/// How a task repeats, with the date that anchors the repetition. The store
/// keeps it and hands it back; nothing interprets it.
#[derive(Clone, Copy, Debug, PartialEq, Eq, Structural)]
pub enum Recurrence {
    Daily(Timestamp),
    Weekly(Timestamp),
    Monthly(Timestamp),
    Yearly(Timestamp),
    Quarterly(Timestamp),
}

/// The characters of each string of a sequence.
pub open spec fn texts(v: Seq<String>) -> Seq<Seq<char>> {
    Seq::new(v.len(), |i: int| v[i]@)
}

/// A copy of a list of strings.
pub fn clone_strings(v: &Vec<String>) -> (copy: Vec<String>)
    ensures
        copy@ == v@,
{
    let mut copy: Vec<String> = Vec::new();
    let mut i: usize = 0;
    while i < v.len()
        invariant
            i <= v.len(),
            copy@ == v@.subrange(0, i as int),
        decreases v.len() - i,
    {
        copy.push(v[i].clone());
        i += 1;
        assert(copy@ == v@.subrange(0, i as int));
    }
    assert(v@.subrange(0, v.len() as int) == v@);
    copy
}

/// Whether two lists of strings hold the same texts in the same order.
pub fn same_strings(a: &Vec<String>, b: &Vec<String>) -> (same: bool)
    ensures
        same == (texts(a@) == texts(b@)),
{
    if a.len() != b.len() {
        assert(texts(a@).len() != texts(b@).len());
        return false;
    }
    let mut i: usize = 0;
    while i < a.len()
        invariant
            i <= a.len(),
            a.len() == b.len(),
            forall|k: int| 0 <= k < i ==> a@[k]@ == b@[k]@,
        decreases a.len() - i,
    {
        if a[i] != b[i] {
            assert(texts(a@)[i as int] != texts(b@)[i as int]);
            return false;
        }
        i += 1;
    }
    assert(texts(a@) =~= texts(b@));
    true
}

/// Whether a list of strings holds the given text.
pub fn has_string(v: &Vec<String>, word: &String) -> (found: bool)
    ensures
        found == texts(v@).contains(word@),
{
    let mut i: usize = 0;
    while i < v.len()
        invariant
            i <= v.len(),
            forall|k: int| 0 <= k < i ==> texts(v@)[k] != word@,
        decreases v.len() - i,
    {
        if v[i] == *word {
            assert(texts(v@)[i as int] == word@);
            return true;
        }
        i += 1;
    }
    false
}

/// One task.
#[derive(Debug)]
pub struct ToDo {
    pub recur: Option<Recurrence>,
    pub due: Option<Timestamp>,
    pub prio: Option<Priority>,
    pub start: Timestamp,
    pub desc: String,
    pub status: Status,
    /// May be empty.
    pub tags: Vec<String>,
}

/// What a task holds, as mathematical values.
pub ghost struct ToDoView {
    pub recur: Option<Recurrence>,
    pub due: Option<Timestamp>,
    pub prio: Option<Priority>,
    pub start: Timestamp,
    pub desc: Seq<char>,
    pub status: Status,
    pub tags: Seq<Seq<char>>,
}

impl View for ToDo {
    type V = ToDoView;

    open spec fn view(&self) -> ToDoView {
        ToDoView {
            recur: self.recur,
            due: self.due,
            prio: self.prio,
            start: self.start,
            desc: self.desc@,
            status: self.status,
            tags: texts(self.tags@),
        }
    }
}

impl Clone for ToDo {
    fn clone(&self) -> (copy: ToDo)
        ensures
            copy@ == self@,
    {
        ToDo {
            recur: self.recur,
            due: self.due,
            prio: self.prio,
            start: self.start,
            desc: self.desc.clone(),
            status: self.status,
            tags: clone_strings(&self.tags),
        }
    }
}

impl PartialEq for ToDo {
    fn eq(&self, other: &ToDo) -> (same: bool) {
        self.same_as(other)
    }
}

impl vstd::std_specs::cmp::PartialEqSpecImpl for ToDo {
    open spec fn obeys_eq_spec() -> bool {
        true
    }

    open spec fn eq_spec(&self, other: &ToDo) -> bool {
        self@ == other@
    }
}

impl ToDo {
    /// A pending task with the given description and start; every other field
    /// is absent.
    pub fn new(desc: String, start: Timestamp) -> (todo: ToDo)
        ensures
            todo@ == (ToDoView {
                recur: None,
                due: None,
                prio: None,
                start: start,
                desc: desc@,
                status: Status::Pending,
                tags: Seq::empty(),
            }),
    {
        let todo = ToDo {
            recur: None,
            due: None,
            prio: None,
            start,
            desc,
            status: Status::Pending,
            tags: Vec::new(),
        };
        assert(todo@.tags =~= Seq::empty());
        todo
    }

    /// Structural equality: every field of the two tasks is equal.
    pub fn same_as(&self, other: &ToDo) -> (same: bool)
        ensures
            same == (self@ == other@),
    {
        self.recur == other.recur && self.due == other.due && self.prio == other.prio
            && self.start == other.start && self.desc == other.desc && self.status == other.status
            && same_strings(&self.tags, &other.tags)
    }

    /// Whether the task carries the given tag.
    pub fn has_tag(&self, tag: &String) -> (found: bool)
        ensures
            found == self@.tags.contains(tag@),
    {
        has_string(&self.tags, tag)
    }
}

/// A partial change to one task. A field that is `None` leaves the task's
/// field as it is; for a field that the task may lack, `Some(None)` clears it.
#[derive(Debug)]
pub struct ToDoUpdate {
    pub due: Option<Option<Timestamp>>,
    pub prio: Option<Option<Priority>>,
    pub recur: Option<Option<Recurrence>>,
    pub desc: Option<String>,
    pub status: Option<Status>,
    pub start: Option<Timestamp>,
    pub tags: Option<Vec<String>>,
}

/// What an update holds, as mathematical values.
pub ghost struct ToDoUpdateView {
    pub due: Option<Option<Timestamp>>,
    pub prio: Option<Option<Priority>>,
    pub recur: Option<Option<Recurrence>>,
    pub desc: Option<Seq<char>>,
    pub status: Option<Status>,
    pub start: Option<Timestamp>,
    pub tags: Option<Seq<Seq<char>>>,
}

impl ToDoUpdateView {
    /// The update that changes nothing.
    pub open spec fn nothing() -> ToDoUpdateView {
        ToDoUpdateView {
            due: None,
            prio: None,
            recur: None,
            desc: None,
            status: None,
            start: None,
            tags: None,
        }
    }

    /// The task that results from this update: each field that the update
    /// names takes the update's value, every other field stays.
    pub open spec fn apply_to(self, todo: ToDoView) -> ToDoView {
        ToDoView {
            recur: match self.recur {
                Some(r) => r,
                None => todo.recur,
            },
            due: match self.due {
                Some(d) => d,
                None => todo.due,
            },
            prio: match self.prio {
                Some(p) => p,
                None => todo.prio,
            },
            start: match self.start {
                Some(s) => s,
                None => todo.start,
            },
            desc: match self.desc {
                Some(d) => d,
                None => todo.desc,
            },
            status: match self.status {
                Some(s) => s,
                None => todo.status,
            },
            tags: match self.tags {
                Some(t) => t,
                None => todo.tags,
            },
        }
    }
}

impl View for ToDoUpdate {
    type V = ToDoUpdateView;

    open spec fn view(&self) -> ToDoUpdateView {
        ToDoUpdateView {
            due: self.due,
            prio: self.prio,
            recur: self.recur,
            desc: match self.desc {
                Some(d) => Some(d@),
                None => None,
            },
            status: self.status,
            start: self.start,
            tags: match self.tags {
                Some(t) => Some(texts(t@)),
                None => None,
            },
        }
    }
}

impl Default for ToDoUpdate {
    fn default() -> (update: ToDoUpdate)
        ensures
            update@ == ToDoUpdateView::nothing(),
    {
        ToDoUpdate {
            due: None,
            prio: None,
            recur: None,
            desc: None,
            status: None,
            start: None,
            tags: None,
        }
    }
}

impl ToDoUpdate {
    /// The update that changes nothing.
    pub fn new() -> (update: ToDoUpdate)
        ensures
            update@ == ToDoUpdateView::nothing(),
    {
        ToDoUpdate {
            due: None,
            prio: None,
            recur: None,
            desc: None,
            status: None,
            start: None,
            tags: None,
        }
    }

    /// The same update, which now also sets the status.
    pub fn with_status(self, status: Status) -> (update: ToDoUpdate)
        ensures
            update@ == (ToDoUpdateView { status: Some(status), ..self@ }),
    {
        let mut update = self;
        update.status = Some(status);
        update
    }
}

impl ToDo {
    /// Overwrites the fields that the update names and leaves the others
    /// untouched. Nothing is checked across fields.
    pub fn apply_update(&mut self, update: ToDoUpdate)
        ensures
            final(self)@ == update@.apply_to(old(self)@),
    {
        if let Some(desc) = update.desc {
            self.desc = desc;
        }
        if let Some(due) = update.due {
            self.due = due;
        }
        if let Some(start) = update.start {
            self.start = start;
        }
        if let Some(prio) = update.prio {
            self.prio = prio;
        }
        if let Some(tags) = update.tags {
            self.tags = tags;
        }
        if let Some(recur) = update.recur {
            self.recur = recur;
        }
        if let Some(status) = update.status {
            self.status = status;
        }
    }
}

/// An update that names only the status leaves the description, the start,
/// the due date, the priority, the tags and the recurrence of a task as they
/// were, and sets its status.
pub proof fn lemma_status_update_is_sparse(todo: ToDoView, status: Status)
    ensures
        (ToDoUpdateView { status: Some(status), ..ToDoUpdateView::nothing() }).apply_to(todo) == (
        ToDoView { status: status, ..todo }),
{
}

/// An update that names no field changes nothing.
pub proof fn lemma_empty_update_is_identity(todo: ToDoView)
    ensures
        ToDoUpdateView::nothing().apply_to(todo) == todo,
{
}

/// An ordered list of tasks. A task's position is the identifier that the
/// commands use; it is valid only until a task is removed.
#[derive(Debug)]
pub struct ToDoList(pub Vec<ToDo>);

impl View for ToDoList {
    type V = Seq<ToDoView>;

    open spec fn view(&self) -> Seq<ToDoView> {
        Seq::new(self.0@.len(), |i: int| self.0@[i]@)
    }
}

impl From<Vec<ToDo>> for ToDoList {
    fn from(todos: Vec<ToDo>) -> (list: ToDoList) {
        ToDoList(todos)
    }
}

impl vstd::std_specs::convert::FromSpecImpl<Vec<ToDo>> for ToDoList {
    open spec fn obeys_from_spec() -> bool {
        true
    }

    open spec fn from_spec(todos: Vec<ToDo>) -> ToDoList {
        ToDoList(todos)
    }
}

impl ToDoList {
    /// The empty list.
    pub fn new() -> (list: ToDoList)
        ensures
            list@ == Seq::<ToDoView>::empty(),
    {
        let list = ToDoList(Vec::new());
        assert(list@ =~= Seq::<ToDoView>::empty());
        list
    }

    pub fn len(&self) -> (n: usize)
        ensures
            n == self@.len(),
    {
        self.0.len()
    }

    /// The task at a position, if there is one.
    pub fn get(&self, id: usize) -> (found: Option<&ToDo>)
        ensures
            match found {
                Some(todo) => id < self@.len() && todo@ == self@[id as int],
                None => id >= self@.len(),
            },
    {
        if id < self.0.len() {
            Some(&self.0[id])
        } else {
            None
        }
    }

    /// Whether the list holds a task equal to the given one in every field.
    pub fn contains(&self, todo: &ToDo) -> (found: bool)
        ensures
            found == self@.contains(todo@),
    {
        let mut i: usize = 0;
        while i < self.0.len()
            invariant
                i <= self.0.len(),
                forall|k: int| 0 <= k < i ==> self@[k] != todo@,
            decreases self.0.len() - i,
        {
            if self.0[i].same_as(todo) {
                assert(self@[i as int] == todo@);
                return true;
            }
            i += 1;
        }
        false
    }

    /// Whether two lists hold equal tasks in the same order.
    pub fn same_as(&self, other: &ToDoList) -> (same: bool)
        ensures
            same == (self@ == other@),
    {
        if self.0.len() != other.0.len() {
            assert(self@.len() != other@.len());
            return false;
        }
        let mut i: usize = 0;
        while i < self.0.len()
            invariant
                i <= self.0.len(),
                self.0.len() == other.0.len(),
                forall|k: int| 0 <= k < i ==> self@[k] == other@[k],
            decreases self.0.len() - i,
        {
            if !self.0[i].same_as(&other.0[i]) {
                assert(self@[i as int] != other@[i as int]);
                return false;
            }
            i += 1;
        }
        assert(self@ =~= other@);
        true
    }

    /// Adds a task at the end.
    pub fn push(&mut self, todo: ToDo)
        ensures
            final(self)@ == old(self)@.push(todo@),
    {
        self.0.push(todo);
        assert(self@ =~= old(self)@.push(todo@));
    }

    /// Removes the task at a position and moves the later ones down by one,
    /// so that the others keep their order. Says whether there was a task.
    pub fn remove_at(&mut self, id: usize) -> (removed: bool)
        ensures
            removed == (id < old(self)@.len()),
            removed ==> final(self)@ == old(self)@.remove(id as int),
            !removed ==> final(self)@ == old(self)@,
    {
        if id < self.0.len() {
            self.0.remove(id);
            assert(self@ =~= old(self)@.remove(id as int));
            true
        } else {
            false
        }
    }

    /// Applies an update to the task at a position. Says whether there was a
    /// task; where there was none, nothing changes.
    pub fn update_at(&mut self, id: usize, update: ToDoUpdate) -> (updated: bool)
        ensures
            updated == (id < old(self)@.len()),
            updated ==> final(self)@ == old(self)@.update(
                id as int,
                update@.apply_to(old(self)@[id as int]),
            ),
            !updated ==> final(self)@ == old(self)@,
    {
        if id < self.0.len() {
            self.0[id].apply_update(update);
            assert(self@ =~= old(self)@.update(id as int, update@.apply_to(old(self)@[id as int])));
            true
        } else {
            false
        }
    }
}

} // verus!
