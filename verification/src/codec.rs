//! The byte image of a task list.
//!
//! A list is written as a sequence of rows of plain values, one row for each
//! task, and the rows are turned into bytes, and back, by `bincode`.

use crate::todo::{
    clone_strings, texts, Priority, Recurrence, Status, Timestamp, ToDo, ToDoList, ToDoView,
};
use vstd::prelude::*;

verus! {

/// A timestamp as plain numbers: the day, the seconds, the nanoseconds.
pub type Stamp = (i32, u32, u32);

/// A task as plain values, in the order: recurrence (its kind and its anchor),
/// due, priority, start, description, status, tags.
pub type Row = (Option<(u32, Stamp)>, Option<Stamp>, Option<u32>, Stamp, String, u32, Vec<String>);

/// What a row holds, as mathematical values.
pub ghost struct RowView {
    pub recur: Option<(u32, Stamp)>,
    pub due: Option<Stamp>,
    pub prio: Option<u32>,
    pub start: Stamp,
    pub desc: Seq<char>,
    pub status: u32,
    pub tags: Seq<Seq<char>>,
}

pub open spec fn row_view(row: Row) -> RowView {
    RowView {
        recur: row.0,
        due: row.1,
        prio: row.2,
        start: row.3,
        desc: row.4@,
        status: row.5,
        tags: texts(row.6@),
    }
}

pub open spec fn rows_view(rows: Seq<Row>) -> Seq<RowView> {
    Seq::new(rows.len(), |i: int| row_view(rows[i]))
}

pub open spec fn stamp_of(t: Timestamp) -> Stamp {
    (t.day, t.secs, t.nano)
}

pub open spec fn timestamp_of(s: Stamp) -> Timestamp {
    Timestamp { day: s.0, secs: s.1, nano: s.2 }
}

pub open spec fn status_code(s: Status) -> u32 {
    match s {
        Status::Complete => 0,
        Status::Pending => 1,
    }
}

pub open spec fn status_of(code: u32) -> Option<Status> {
    if code == 0 {
        Some(Status::Complete)
    } else if code == 1 {
        Some(Status::Pending)
    } else {
        None
    }
}

pub open spec fn priority_code(p: Priority) -> u32 {
    match p {
        Priority::Low => 0,
        Priority::Medium => 1,
        Priority::High => 2,
    }
}

pub open spec fn priority_of(code: u32) -> Option<Priority> {
    if code == 0 {
        Some(Priority::Low)
    } else if code == 1 {
        Some(Priority::Medium)
    } else if code == 2 {
        Some(Priority::High)
    } else {
        None
    }
}

pub open spec fn recurrence_code(r: Recurrence) -> (u32, Stamp) {
    match r {
        Recurrence::Daily(t) => (0, stamp_of(t)),
        Recurrence::Weekly(t) => (1, stamp_of(t)),
        Recurrence::Monthly(t) => (2, stamp_of(t)),
        Recurrence::Yearly(t) => (3, stamp_of(t)),
        Recurrence::Quarterly(t) => (4, stamp_of(t)),
    }
}

pub open spec fn recurrence_of(code: (u32, Stamp)) -> Option<Recurrence> {
    let t = timestamp_of(code.1);
    if code.0 == 0 {
        Some(Recurrence::Daily(t))
    } else if code.0 == 1 {
        Some(Recurrence::Weekly(t))
    } else if code.0 == 2 {
        Some(Recurrence::Monthly(t))
    } else if code.0 == 3 {
        Some(Recurrence::Yearly(t))
    } else if code.0 == 4 {
        Some(Recurrence::Quarterly(t))
    } else {
        None
    }
}

/// The row that stands for a task.
pub open spec fn todo_row(todo: ToDoView) -> RowView {
    RowView {
        recur: match todo.recur {
            Some(r) => Some(recurrence_code(r)),
            None => None,
        },
        due: match todo.due {
            Some(d) => Some(stamp_of(d)),
            None => None,
        },
        prio: match todo.prio {
            Some(p) => Some(priority_code(p)),
            None => None,
        },
        start: stamp_of(todo.start),
        desc: todo.desc,
        status: status_code(todo.status),
        tags: todo.tags,
    }
}

/// A row stands for a task when its status, its priority and the kind of its
/// recurrence are codes of this format.
pub open spec fn row_ok(row: RowView) -> bool {
    &&& status_of(row.status) is Some
    &&& row.prio matches Some(p) ==> priority_of(p) is Some
    &&& row.recur matches Some(r) ==> recurrence_of(r) is Some
}

/// The task that a row stands for, if it stands for one.
pub open spec fn row_todo(row: RowView) -> Option<ToDoView> {
    if row_ok(row) {
        Some(
            ToDoView {
                recur: match row.recur {
                    Some(r) => recurrence_of(r),
                    None => None,
                },
                due: match row.due {
                    Some(d) => Some(timestamp_of(d)),
                    None => None,
                },
                prio: match row.prio {
                    Some(p) => priority_of(p),
                    None => None,
                },
                start: timestamp_of(row.start),
                desc: row.desc,
                status: status_of(row.status).unwrap(),
                tags: row.tags,
            },
        )
    } else {
        None
    }
}

/// The rows that stand for a list, in the list's order.
pub open spec fn list_rows(list: Seq<ToDoView>) -> Seq<RowView> {
    Seq::new(list.len(), |i: int| todo_row(list[i]))
}

/// The list that a sequence of rows stands for: each row's task, in the order
/// of the rows. There is none where a row stands for no task.
pub open spec fn rows_list(rows: Seq<RowView>) -> Option<Seq<ToDoView>> {
    if forall|i: int| 0 <= i < rows.len() ==> row_ok(#[trigger] rows[i]) {
        Some(Seq::new(rows.len(), |i: int| row_todo(rows[i]).unwrap()))
    } else {
        None
    }
}

/// A task's row stands for that task.
pub proof fn lemma_row_round_trip(todo: ToDoView)
    ensures
        row_todo(todo_row(todo)) == Some(todo),
{
}

/// The rows of a list stand for that list, field for field and in the same
/// order.
pub proof fn lemma_rows_round_trip(list: Seq<ToDoView>)
    ensures
        rows_list(list_rows(list)) == Some(list),
{
    let rows = list_rows(list);
    assert forall|i: int| 0 <= i < rows.len() implies row_ok(#[trigger] rows[i]) by {
        lemma_row_round_trip(list[i]);
    }
    assert forall|i: int| 0 <= i < rows.len() implies row_todo(rows[i]).unwrap() == list[i] by {
        lemma_row_round_trip(list[i]);
    }
    assert(rows_list(rows).unwrap() =~= list);
}

fn stamp(t: Timestamp) -> (s: Stamp)
    ensures
        s == stamp_of(t),
{
    (t.day, t.secs, t.nano)
}

fn timestamp(s: Stamp) -> (t: Timestamp)
    ensures
        t == timestamp_of(s),
{
    Timestamp { day: s.0, secs: s.1, nano: s.2 }
}

fn recurrence(code: (u32, Stamp)) -> (r: Option<Recurrence>)
    ensures
        r == recurrence_of(code),
{
    let t = timestamp(code.1);
    if code.0 == 0 {
        Some(Recurrence::Daily(t))
    } else if code.0 == 1 {
        Some(Recurrence::Weekly(t))
    } else if code.0 == 2 {
        Some(Recurrence::Monthly(t))
    } else if code.0 == 3 {
        Some(Recurrence::Yearly(t))
    } else if code.0 == 4 {
        Some(Recurrence::Quarterly(t))
    } else {
        None
    }
}

fn priority(code: u32) -> (p: Option<Priority>)
    ensures
        p == priority_of(code),
{
    if code == 0 {
        Some(Priority::Low)
    } else if code == 1 {
        Some(Priority::Medium)
    } else if code == 2 {
        Some(Priority::High)
    } else {
        None
    }
}

impl ToDo {
    /// The row that stands for the record.
    pub fn to_row(&self) -> (row: Row)
        ensures
            row_view(row) == todo_row(self@),
    {
        let recur: Option<(u32, Stamp)> = match self.recur {
            Some(Recurrence::Daily(t)) => Some((0, stamp(t))),
            Some(Recurrence::Weekly(t)) => Some((1, stamp(t))),
            Some(Recurrence::Monthly(t)) => Some((2, stamp(t))),
            Some(Recurrence::Yearly(t)) => Some((3, stamp(t))),
            Some(Recurrence::Quarterly(t)) => Some((4, stamp(t))),
            None => None,
        };
        let due: Option<Stamp> = match self.due {
            Some(d) => Some(stamp(d)),
            None => None,
        };
        let prio: Option<u32> = match self.prio {
            Some(Priority::Low) => Some(0),
            Some(Priority::Medium) => Some(1),
            Some(Priority::High) => Some(2),
            None => None,
        };
        let status: u32 = match self.status {
            Status::Complete => 0,
            Status::Pending => 1,
        };
        (recur, due, prio, stamp(self.start), self.desc.clone(), status, clone_strings(&self.tags))
    }

    /// The task that a row stands for; none where the row's status, priority
    /// or kind of recurrence is no code of this format.
    pub fn from_row(row: Row) -> (todo: Option<ToDo>)
        ensures
            match row_todo(row_view(row)) {
                Some(t) => todo is Some && todo.unwrap()@ == t,
                None => todo is None,
            },
    {
        let (recur_code, due_code, prio_code, start_code, desc, status_code, tags) = row;
        let status = if status_code == 0 {
            Status::Complete
        } else if status_code == 1 {
            Status::Pending
        } else {
            return None;
        };
        let prio = match prio_code {
            Some(code) => match priority(code) {
                Some(p) => Some(p),
                None => {
                    return None;
                },
            },
            None => None,
        };
        let recur = match recur_code {
            Some(code) => match recurrence(code) {
                Some(r) => Some(r),
                None => {
                    return None;
                },
            },
            None => None,
        };
        let due = match due_code {
            Some(d) => Some(timestamp(d)),
            None => None,
        };
        Some(ToDo { recur, due, prio, start: timestamp(start_code), desc, status, tags })
    }
}

impl ToDoList {
    /// The rows that stand for this list.
    pub fn to_rows(&self) -> (rows: Vec<Row>)
        ensures
            rows_view(rows@) == list_rows(self@),
    {
        let mut rows: Vec<Row> = Vec::new();
        let mut i: usize = 0;
        while i < self.0.len()
            invariant
                i <= self.0.len(),
                rows@.len() == i,
                forall|k: int| 0 <= k < i ==> row_view(#[trigger] rows@[k]) == todo_row(self@[k]),
            decreases self.0.len() - i,
        {
            rows.push(self.0[i].to_row());
            i += 1;
        }
        assert(rows_view(rows@) =~= list_rows(self@));
        rows
    }

    /// The list that a sequence of rows stands for; none where a row stands
    /// for no task.
    pub fn from_rows(rows: Vec<Row>) -> (list: Option<ToDoList>)
        ensures
            match rows_list(rows_view(rows@)) {
                Some(l) => list is Some && list.unwrap()@ == l,
                None => list is None,
            },
    {
        let ghost all = rows_view(rows@);
        let mut todos: Vec<ToDo> = Vec::new();
        for row in iter: rows
            invariant
                all == rows_view(rows@),
                iter.seq() == rows@,
                todos@.len() == iter.index(),
                forall|k: int|
                    0 <= k < todos@.len() ==> row_todo(all[k]) == Some((#[trigger] todos@[k])@),
        {
            match ToDo::from_row(row) {
                Some(todo) => {
                    todos.push(todo);
                },
                None => {
                    assert(!row_ok(all[todos@.len() as int]));
                    return None;
                },
            }
        }
        let list = ToDoList(todos);
        assert forall|i: int| 0 <= i < all.len() implies row_ok(#[trigger] all[i]) by {
            assert(row_todo(all[i]) == Some(todos@[i]@));
        }
        assert(list@ =~= rows_list(all).unwrap());
        Some(list)
    }
}

/// The bytes that `bincode`, in its default configuration, writes for a
/// sequence of rows; none where it refuses to write them.
pub uninterp spec fn bincode_image(rows: Seq<RowView>) -> Option<Seq<u8>>;

/// The rows that `bincode`, in its default configuration, reads from bytes;
/// none where it refuses them.
pub uninterp spec fn bincode_rows(bytes: Seq<u8>) -> Option<Seq<RowView>>;

/// The bytes that are written for a list: those that `bincode` writes for
/// the list's rows, provided that they read back as the list. There are none
/// where `bincode` refuses the rows or the bytes do not read back.
pub open spec fn encoded(list: Seq<ToDoView>) -> Option<Seq<u8>> {
    match bincode_image(list_rows(list)) {
        Some(bytes) => if decoded(bytes) == Some(list) {
            Some(bytes)
        } else {
            None
        },
        None => None,
    }
}

/// What was written for a list reads back as that list: field for field, in
/// the same order.
pub proof fn lemma_round_trip(list: Seq<ToDoView>)
    ensures
        encoded(list) matches Some(bytes) ==> decoded(bytes) == Some(list),
{
}

/// The list that is read from bytes: the list that the rows in the bytes
/// stand for.
pub open spec fn decoded(bytes: Seq<u8>) -> Option<Seq<ToDoView>> {
    match bincode_rows(bytes) {
        Some(rows) => rows_list(rows),
        None => None,
    }
}

/// Calls `bincode::serialize` on the rows. The result is taken to depend on
/// the rows' contents alone; what the bytes are is not stated. The error, if
/// any, is handed back as its message.
#[verifier::external_body]
fn serialize_rows(rows: &Vec<Row>) -> (res: Result<Vec<u8>, String>)
    ensures
        match bincode_image(rows_view(rows@)) {
            Some(bytes) => res is Ok && res.unwrap()@ == bytes,
            None => res is Err,
        },
{
    match bincode::serialize(rows) {
        Ok(bytes) => Ok(bytes),
        Err(e) => Err(e.to_string()),
    }
}

/// Calls `bincode::deserialize` on the bytes, for a sequence of rows. The
/// result is taken to depend on the bytes alone; which bytes are accepted is
/// not stated. The error, if any, is handed back as its message.
#[verifier::external_body]
fn deserialize_rows(bytes: &Vec<u8>) -> (res: Result<Vec<Row>, String>)
    ensures
        match bincode_rows(bytes@) {
            Some(rows) => res is Ok && rows_view(res.unwrap()@) == rows,
            None => res is Err,
        },
{
    match bincode::deserialize::<Vec<Row>>(bytes.as_slice()) {
        Ok(rows) => Ok(rows),
        Err(e) => Err(e.to_string()),
    }
}

/// Why bytes could not be read as a list.
#[derive(Debug)]
pub enum DecodeError {
    /// The bytes are no sequence of rows; with the reader's message.
    Malformed(String),
    /// A row holds a code that stands for nothing.
    BadRow,
}

/// Why a list could not be written as bytes.
#[derive(Debug)]
pub enum EncodeError {
    /// The writer refused the rows; with its message.
    Refused(String),
    /// The bytes that were written do not read back as the list.
    Unfaithful,
}

/// Writes a list as bytes, and makes sure that the bytes read back as the
/// list before it hands them out.
pub fn encode(list: &ToDoList) -> (res: Result<Vec<u8>, EncodeError>)
    ensures
        match encoded(list@) {
            Some(bytes) => res is Ok && res.unwrap()@ == bytes,
            None => res is Err && (res.unwrap_err() is Refused <==> bincode_image(
                list_rows(list@),
            ) is None),
        },
        res is Ok ==> decoded(res.unwrap()@) == Some(list@),
{
    let rows = list.to_rows();
    let bytes = match serialize_rows(&rows) {
        Ok(bytes) => bytes,
        Err(cause) => {
            return Err(EncodeError::Refused(cause));
        },
    };
    match decode(&bytes) {
        Ok(back) => if back.same_as(list) {
            Ok(bytes)
        } else {
            Err(EncodeError::Unfaithful)
        },
        Err(_) => Err(EncodeError::Unfaithful),
    }
}

/// Reads a list from bytes. Fails where the bytes are no rows, and where a
/// row stands for no task.
pub fn decode(bytes: &Vec<u8>) -> (res: Result<ToDoList, DecodeError>)
    ensures
        res is Ok <==> decoded(bytes@) is Some,
        match bincode_rows(bytes@) {
            Some(rows) => match rows_list(rows) {
                Some(list) => res is Ok && res.unwrap()@ == list,
                None => res matches Err(DecodeError::BadRow),
            },
            None => res matches Err(DecodeError::Malformed(_)),
        },
{
    match deserialize_rows(bytes) {
        Ok(rows) => match ToDoList::from_rows(rows) {
            Some(list) => Ok(list),
            None => Err(DecodeError::BadRow),
        },
        Err(cause) => Err(DecodeError::Malformed(cause)),
    }
}

} // verus!
