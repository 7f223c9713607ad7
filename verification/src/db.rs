//! The store: the task list in memory, the directory it belongs to, and
//! whether it holds changes that the backing file does not have yet.

use crate::codec::{bincode_rows, decode, decoded, encode, encoded};
use crate::storage::{ReadOutcome, Saver, SaverView, StorageError};
use crate::todo::{Status, ToDo, ToDoList, ToDoUpdate, ToDoUpdateView, ToDoView};
use vstd::prelude::*;

verus! {

pub struct Database {
    todos: ToDoList,
    data_dir: String,
    dirty: bool,
}

/// What a store holds, as mathematical values.
pub ghost struct DatabaseView {
    pub todos: Seq<ToDoView>,
    pub dir: Seq<char>,
    pub dirty: bool,
}

impl DatabaseView {
    /// The clean, empty store of a directory.
    pub open spec fn empty(dir: Seq<char>) -> DatabaseView {
        DatabaseView { todos: Seq::empty(), dir: dir, dirty: false }
    }

    /// Whether a position names a task.
    pub open spec fn has(self, id: int) -> bool {
        0 <= id < self.todos.len()
    }

    /// The store after an attempt to add a task: a task equal to one of the
    /// list in every field is not added; any other is appended, and the store
    /// is dirty.
    pub open spec fn after_add(self, todo: ToDoView) -> DatabaseView {
        if self.todos.contains(todo) {
            self
        } else {
            DatabaseView { todos: self.todos.push(todo), dirty: true, ..self }
        }
    }

    /// The store after an attempt to delete at a position: the task there is
    /// taken out and the later ones move down by one; the store is dirty.
    /// Nothing changes where the position names no task.
    pub open spec fn after_delete(self, id: int) -> DatabaseView {
        if self.has(id) {
            DatabaseView { todos: self.todos.remove(id), dirty: true, ..self }
        } else {
            self
        }
    }

    /// The store after an attempt to update at a position: the task there
    /// takes the update; the store is dirty. Nothing changes where the
    /// position names no task.
    pub open spec fn after_update(self, id: int, update: ToDoUpdateView) -> DatabaseView {
        if self.has(id) {
            DatabaseView {
                todos: self.todos.update(id, update.apply_to(self.todos[id])),
                dirty: true,
                ..self
            }
        } else {
            self
        }
    }

    /// The store after an attempt to mark the task at a position complete.
    pub open spec fn after_mark_complete(self, id: int) -> DatabaseView {
        self.after_update(
            id,
            ToDoUpdateView { status: Some(Status::Complete), ..ToDoUpdateView::nothing() },
        )
    }

    /// The store after a save that succeeded.
    pub open spec fn after_save(self) -> DatabaseView {
        DatabaseView { dirty: false, ..self }
    }

    /// Whether a save has put the list, as it is, into the backing file: the
    /// save is finished and its bytes read back as the list.
    pub open spec fn written_by(self, saver: SaverView) -> bool {
        saver.step is Finished && decoded(saver.bytes) == Some(self.todos)
    }

    /// The bytes that a save writes: none while the store is clean.
    pub open spec fn bytes_to_write(self) -> Option<Seq<u8>> {
        if self.dirty {
            encoded(self.todos)
        } else {
            None
        }
    }
}

impl View for Database {
    type V = DatabaseView;

    closed spec fn view(&self) -> DatabaseView {
        DatabaseView { todos: self.todos@, dir: self.data_dir@, dirty: self.dirty }
    }
}

/// A store that was opened, and whether its directory has to be created.
pub struct Opened {
    pub db: Database,
    pub create_dir: bool,
}

impl Database {
    /// The clean, empty store of a directory.
    pub fn new(data_dir: String) -> (db: Database)
        ensures
            db@ == DatabaseView::empty(data_dir@),
    {
        Database { todos: ToDoList::new(), data_dir, dirty: false }
    }

    /// Opens the store of a directory from what reading its backing file
    /// gave. The file's contents give the list that they stand for. A missing
    /// file gives the empty list, and the directory is to be created. The
    /// store is clean either way. A file that holds no list, and a read that
    /// failed otherwise, are errors that name the directory and the cause:
    /// for a file, whether its bytes are no rows at all or hold a row that
    /// stands for no task.
    pub fn from_path(data_dir: String, read: ReadOutcome) -> (res: Result<Opened, StorageError>)
        ensures
            match read {
                ReadOutcome::Found(bytes) => match decoded(bytes@) {
                    Some(list) => res is Ok && !res.unwrap().create_dir && res.unwrap().db@ == (
                    DatabaseView { todos: list, dir: data_dir@, dirty: false }),
                    None => res matches Err(StorageError::Deserialize { dir, reason }) && dir
                        == data_dir && (reason is BadRow <==> bincode_rows(bytes@) is Some),
                },
                ReadOutcome::NotFound => res is Ok && res.unwrap().create_dir && res.unwrap().db@
                    == DatabaseView::empty(data_dir@),
                ReadOutcome::Failed(cause) => res == Err::<Opened, StorageError>(
                    StorageError::Read { dir: data_dir, cause: cause },
                ),
            },
    {
        match read {
            ReadOutcome::Found(bytes) => match decode(&bytes) {
                Ok(todos) => Ok(
                    Opened { db: Database { todos, data_dir, dirty: false }, create_dir: false },
                ),
                Err(reason) => Err(StorageError::Deserialize { dir: data_dir, reason }),
            },
            ReadOutcome::NotFound => Ok(Opened { db: Database::new(data_dir), create_dir: true }),
            ReadOutcome::Failed(cause) => Err(StorageError::Read { dir: data_dir, cause }),
        }
    }

    /// Adds a task, unless the list holds one equal to it in every field.
    /// Says whether the task was added.
    pub fn add(&mut self, todo: ToDo) -> (added: bool)
        ensures
            added == !old(self)@.todos.contains(todo@),
            final(self)@ == old(self)@.after_add(todo@),
    {
        if self.todos.contains(&todo) {
            false
        } else {
            self.todos.push(todo);
            self.dirty = true;
            true
        }
    }

    /// Deletes the task at a position; the later tasks move down by one. Says
    /// whether there was a task.
    pub fn delete(&mut self, id: usize) -> (removed: bool)
        ensures
            removed == old(self)@.has(id as int),
            final(self)@ == old(self)@.after_delete(id as int),
    {
        if self.todos.remove_at(id) {
            self.dirty = true;
            true
        } else {
            false
        }
    }

    /// Marks the task at a position complete. Says whether there was a task.
    pub fn mark_complete(&mut self, id: usize) -> (marked: bool)
        ensures
            marked == old(self)@.has(id as int),
            final(self)@ == old(self)@.after_mark_complete(id as int),
    {
        self.update(id, ToDoUpdate::new().with_status(Status::Complete))
    }

    /// Applies an update to the task at a position. Says whether there was a
    /// task.
    pub fn update(&mut self, id: usize, update: ToDoUpdate) -> (updated: bool)
        ensures
            updated == old(self)@.has(id as int),
            final(self)@ == old(self)@.after_update(id as int, update@),
    {
        if self.todos.update_at(id, update) {
            self.dirty = true;
            true
        } else {
            false
        }
    }

    /// The tasks, for reading.
    pub fn todos(&self) -> (list: &ToDoList)
        ensures
            list@ == self@.todos,
    {
        &self.todos
    }

    /// Whether the store holds changes that were not saved.
    pub fn is_dirty(&self) -> (dirty: bool)
        ensures
            dirty == self@.dirty,
    {
        self.dirty
    }

    /// The directory of the store.
    pub fn data_dir(&self) -> (dir: &String)
        ensures
            dir@ == self@.dir,
    {
        &self.data_dir
    }

    /// Begins a save. A clean store needs none. A dirty store gives a save of
    /// the whole list as bytes, and fails exactly where the list cannot be
    /// turned into bytes. `atomic_rename` says whether the platform replaces
    /// a file by a rename in one step. The store itself is left as it is.
    pub fn save(&self, atomic_rename: bool) -> (res: Result<Option<Saver>, StorageError>)
        ensures
            !self@.dirty ==> res matches Ok(None),
            self@.dirty ==> match self@.bytes_to_write() {
                Some(bytes) => res matches Ok(Some(saver)) && saver@ == SaverView::begin(
                    bytes,
                    atomic_rename,
                ) && saver@.wf(),
                None => res matches Err(StorageError::Serialize { .. }),
            },
    {
        if !self.dirty {
            return Ok(None);
        }
        match encode(&self.todos) {
            Ok(bytes) => Ok(Some(Saver::new(bytes, atomic_rename))),
            Err(cause) => Err(StorageError::Serialize { cause }),
        }
    }

    /// Takes note of a save that was begun on this store. The store becomes
    /// clean if the save is finished and wrote the list as it is now; else it
    /// is left as it is, so that a change made while the save went on is not
    /// taken for saved. Says whether the store is now clean.
    pub fn saved(&mut self, saver: &Saver) -> (clean: bool)
        ensures
            final(self)@ == if old(self)@.written_by(saver@) {
                old(self)@.after_save()
            } else {
                old(self)@
            },
            clean == !final(self)@.dirty,
    {
        if self.dirty && saver.is_finished() {
            match decode(saver.bytes()) {
                Ok(written) => {
                    if written.same_as(&self.todos) {
                        self.dirty = false;
                    }
                },
                Err(_) => {},
            }
        }
        !self.dirty
    }
}

/// The directory of a backing file, with the bytes that were last read from
/// the file.
pub struct DatabaseFile {
    data_dir: String,
    buffer: Vec<u8>,
}

impl DatabaseFile {
    /// The directory.
    pub closed spec fn dir(&self) -> Seq<char> {
        self.data_dir@
    }

    /// The bytes that were last read from the file.
    pub closed spec fn contents(&self) -> Seq<u8> {
        self.buffer@
    }

    /// The file of a directory, of which nothing was read yet.
    pub fn new(data_dir: String) -> (file: DatabaseFile)
        ensures
            file.dir() == data_dir@,
            file.contents() == Seq::<u8>::empty(),
    {
        DatabaseFile { data_dir, buffer: Vec::new() }
    }

    /// Opens the store from what reading the file gave, as `from_path` does
    /// for the directory, and keeps the bytes that were read.
    pub fn open(&mut self, read: ReadOutcome) -> (res: Result<Opened, StorageError>)
        ensures
            final(self).dir() == old(self).dir(),
            final(self).contents() == match read {
                ReadOutcome::Found(bytes) => bytes@,
                _ => old(self).contents(),
            },
            match read {
                ReadOutcome::Found(bytes) => match decoded(bytes@) {
                    Some(list) => res is Ok && !res.unwrap().create_dir && res.unwrap().db@ == (
                    DatabaseView { todos: list, dir: old(self).dir(), dirty: false }),
                    None => res matches Err(StorageError::Deserialize { dir, reason }) && dir@
                        == old(self).dir() && (reason is BadRow <==> bincode_rows(bytes@) is Some),
                },
                ReadOutcome::NotFound => res is Ok && res.unwrap().create_dir && res.unwrap().db@
                    == DatabaseView::empty(old(self).dir()),
                ReadOutcome::Failed(cause) => res matches Err(
                    StorageError::Read { dir, cause: c },
                ) && dir@ == old(self).dir() && c == cause,
            },
    {
        let data_dir = self.data_dir.clone();
        match read {
            ReadOutcome::Found(bytes) => {
                let decoded = decode(&bytes);
                self.buffer = bytes;
                match decoded {
                    Ok(todos) => Ok(
                        Opened {
                            db: Database { todos, data_dir, dirty: false },
                            create_dir: false,
                        },
                    ),
                    Err(reason) => Err(StorageError::Deserialize { dir: data_dir, reason }),
                }
            },
            ReadOutcome::NotFound => Ok(Opened { db: Database::new(data_dir), create_dir: true }),
            ReadOutcome::Failed(cause) => Err(StorageError::Read { dir: data_dir, cause }),
        }
    }
}

/// Adding a task that is equal in every field to one of the list changes
/// nothing: the list keeps its length and the store its state.
pub proof fn lemma_duplicate_is_rejected(db: DatabaseView, todo: ToDoView)
    requires
        db.todos.contains(todo),
    ensures
        db.after_add(todo) == db,
        db.after_add(todo).todos.len() == db.todos.len(),
{
}

/// Adding a task that the list does not hold puts it at the end, behind the
/// tasks that were there, and the store is dirty.
pub proof fn lemma_new_task_is_appended(db: DatabaseView, todo: ToDoView)
    requires
        !db.todos.contains(todo),
    ensures
        db.after_add(todo).todos.len() == db.todos.len() + 1,
        db.after_add(todo).todos.last() == todo,
        db.after_add(todo).todos.drop_last() == db.todos,
        db.after_add(todo).dirty,
{
    assert(db.todos.push(todo).drop_last() =~= db.todos);
}

/// A list in which no task occurs twice stays so when a task is added.
pub proof fn lemma_add_keeps_tasks_distinct(db: DatabaseView, todo: ToDoView)
    requires
        db.todos.no_duplicates(),
    ensures
        db.after_add(todo).todos.no_duplicates(),
{
}

/// Deleting at a position that names a task shortens the list by one and
/// keeps the other tasks in their order: those before the position stay where
/// they are, those behind it move down by one.
pub proof fn lemma_delete_keeps_the_others(db: DatabaseView, k: int)
    requires
        db.has(k),
    ensures
        db.after_delete(k).todos.len() == db.todos.len() - 1,
        forall|i: int| 0 <= i < k ==> db.after_delete(k).todos[i] == db.todos[i],
        forall|i: int| k <= i < db.todos.len() - 1 ==> db.after_delete(k).todos[i] == db.todos[i + 1],
{
}

/// After a delete at a position that names a task, the list no longer holds
/// that task, provided that it held it only once.
pub proof fn lemma_deleted_task_is_gone(db: DatabaseView, k: int)
    requires
        db.has(k),
        db.todos.no_duplicates(),
    ensures
        !db.after_delete(k).todos.contains(db.todos[k]),
{
    let after = db.after_delete(k).todos;
    assert forall|i: int| 0 <= i < after.len() implies after[i] != db.todos[k] by {
        if i < k {
            assert(after[i] == db.todos[i]);
        } else {
            assert(after[i] == db.todos[i + 1]);
        }
    }
}

/// After a delete, a position at or beyond the new length names no task:
/// a delete, an update or a mark there finds nothing and changes nothing.
pub proof fn lemma_stale_id_is_not_found(
    db: DatabaseView,
    k: int,
    id: int,
    update: ToDoUpdateView,
)
    requires
        db.has(k),
        id >= db.todos.len() - 1,
    ensures
        !db.after_delete(k).has(id),
        db.after_delete(k).after_delete(id) == db.after_delete(k),
        db.after_delete(k).after_update(id, update) == db.after_delete(k),
        db.after_delete(k).after_mark_complete(id) == db.after_delete(k),
{
}

/// Marking a task complete sets its status and leaves its description, start,
/// due date, priority, tags and recurrence, and every other task, as they
/// were.
pub proof fn lemma_mark_changes_status_only(db: DatabaseView, id: int)
    requires
        db.has(id),
    ensures
        db.after_mark_complete(id).todos.len() == db.todos.len(),
        db.after_mark_complete(id).todos[id] == (ToDoView {
            status: Status::Complete,
            ..db.todos[id]
        }),
        forall|i: int|
            0 <= i < db.todos.len() && i != id ==> db.after_mark_complete(id).todos[i]
                == db.todos[i],
{
}

/// No change of the list makes a dirty store clean, and a store that was
/// changed is dirty.
pub proof fn lemma_changes_mark_dirty(
    db: DatabaseView,
    todo: ToDoView,
    id: int,
    update: ToDoUpdateView,
)
    ensures
        db.dirty ==> db.after_add(todo).dirty && db.after_delete(id).dirty && db.after_update(
            id,
            update,
        ).dirty,
        db.after_add(todo) != db ==> db.after_add(todo).dirty,
        db.after_delete(id) != db ==> db.after_delete(id).dirty,
        db.after_update(id, update) != db ==> db.after_update(id, update).dirty,
{
}

/// What a save writes for a store reads back as the store's list: opening
/// the store again from those bytes gives the same tasks in the same order.
pub proof fn lemma_saved_list_reads_back(db: DatabaseView)
    ensures
        db.bytes_to_write() matches Some(bytes) ==> decoded(bytes) == Some(db.todos),
{
}

/// A save leaves the list as it is and the store clean. A second save right
/// after it has nothing to write and changes nothing; and what a save writes
/// depends on the list alone, so that the same list gives the same bytes.
pub proof fn lemma_save_is_idempotent(db: DatabaseView)
    ensures
        !db.after_save().dirty,
        db.after_save().todos == db.todos,
        db.after_save().bytes_to_write() is None,
        db.after_save().after_save() == db.after_save(),
        encoded(db.after_save().todos) == encoded(db.todos),
{
}

} // verus!
