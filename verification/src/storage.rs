//! What the store exchanges with the code that touches the disk: where the
//! store lives, the outcome of reading the backing file, and the steps of a
//! save, which replaces the backing file by a freshly written one.

use crate::codec::{DecodeError, EncodeError};
use vstd::prelude::*;

verus! {

/// The name of the backing file inside the data directory.
pub const DB_FILENAME: &'static str = "clido.db";

/// The variable that names the data directory.
pub const DIR_VARIABLE: &'static str = "_CLIDO_DIR";

/// The folder of the store inside the platform's directory for local data.
pub const DIR_FOLDER: &'static str = "clido";

/// What is said where no data directory can be found.
pub const NO_DIR_HELP: &'static str = "Could not find data directory. Please set _CLIDO_DIR.";

/// Where the store lives.
#[derive(Debug)]
pub enum DataDir {
    /// In this directory.
    Given(String),
    /// In the folder `DIR_FOLDER` of this directory.
    InLocalData(String),
}

/// Chooses the data directory: the one that `DIR_VARIABLE` names if it is
/// set, else the store's folder in the platform's directory for local data.
/// Where there is neither, the answer is a hint to set the variable.
pub fn clido_dir(named: Option<String>, local_data: Option<String>) -> (res: Result<DataDir, String>)
    ensures
        match (named, local_data) {
            (Some(dir), _) => res == Ok::<DataDir, String>(DataDir::Given(dir)),
            (None, Some(dir)) => res == Ok::<DataDir, String>(DataDir::InLocalData(dir)),
            (None, None) => res is Err && res.unwrap_err()@ == NO_DIR_HELP@,
        },
{
    match named {
        Some(dir) => Ok(DataDir::Given(dir)),
        None => match local_data {
            Some(dir) => Ok(DataDir::InLocalData(dir)),
            None => Err(NO_DIR_HELP.to_owned()),
        },
    }
}

/// What reading the backing file gave.
#[derive(Debug)]
pub enum ReadOutcome {
    /// The file's whole contents.
    Found(Vec<u8>),
    /// There is no such file.
    NotFound,
    /// Any other failure, with its message.
    Failed(String),
}

/// Why the store could not be opened or saved.
#[derive(Debug)]
pub enum StorageError {
    /// The backing file in this directory could not be read.
    Read { dir: String, cause: String },
    /// The backing file in this directory holds no task list.
    Deserialize { dir: String, reason: DecodeError },
    /// The task list could not be turned into bytes.
    Serialize { cause: EncodeError },
}

/// How often the replacement is tried where a rename is not atomic.
pub const MAX_TRIES: usize = 10;

/// Bounds of the pause before the replacement is tried again, in
/// milliseconds: from the first up to, but not including, the second.
pub const PAUSE_MIN: u64 = 50;

pub const PAUSE_END: u64 = 150;

/// How a step of a save ended.
#[derive(Debug)]
pub enum StepOutcome {
    Done,
    /// Refused because another process holds the file (permission denied).
    Busy(String),
    /// Any other failure, with its message.
    Failed(String),
}

/// What to do after an attempt to put the temporary file in the backing
/// file's place.
#[derive(Debug)]
pub enum PersistAction {
    /// The backing file is replaced.
    Done,
    /// Pause for this many milliseconds, then try again.
    RetryAfter(u64),
    /// Stop: the save has failed, for this reason.
    GiveUp(String),
}

/// The action after the `attempt`-th attempt (counted from 1) ended with
/// `outcome`. Where the platform renames atomically the replacement is tried
/// once. Elsewhere a busy file is tried again after `pause` milliseconds,
/// until `MAX_TRIES` attempts have been made.
pub open spec fn persist_action(
    atomic_rename: bool,
    attempt: usize,
    outcome: StepOutcome,
    pause: u64,
) -> PersistAction {
    match outcome {
        StepOutcome::Done => PersistAction::Done,
        StepOutcome::Busy(cause) => if !atomic_rename && attempt < MAX_TRIES {
            PersistAction::RetryAfter(pause)
        } else {
            PersistAction::GiveUp(cause)
        },
        StepOutcome::Failed(cause) => PersistAction::GiveUp(cause),
    }
}

/// Whether an outcome is answered by another attempt.
pub open spec fn retries(atomic_rename: bool, attempt: usize, outcome: StepOutcome) -> bool {
    outcome is Busy && !atomic_rename && attempt < MAX_TRIES
}

/// Decides what follows an attempt, given the pause to use before a retry.
pub fn persist_with_pause(
    atomic_rename: bool,
    attempt: usize,
    outcome: StepOutcome,
    pause: u64,
) -> (action: PersistAction)
    ensures
        action == persist_action(atomic_rename, attempt, outcome, pause),
{
    match outcome {
        StepOutcome::Done => PersistAction::Done,
        StepOutcome::Busy(cause) => if !atomic_rename && attempt < MAX_TRIES {
            PersistAction::RetryAfter(pause)
        } else {
            PersistAction::GiveUp(cause)
        },
        StepOutcome::Failed(cause) => PersistAction::GiveUp(cause),
    }
}

/// Draws a number from `low` up to, but not including, `high` with
/// `rand::distributions::Uniform` on the thread's generator. Only the range
/// is claimed of the result.
#[verifier::external_body]
fn sample_between(low: u64, high: u64) -> (n: u64)
    requires
        low < high,
    ensures
        low <= n < high,
{
    rand::distributions::Distribution::sample(
        &rand::distributions::Uniform::from(low..high),
        &mut rand::thread_rng(),
    )
}

/// Decides what follows an attempt. Before a retry it asks for a pause of a
/// random length within the bounds, so that two processes that collided do not
/// collide again.
pub fn persist(atomic_rename: bool, attempt: usize, outcome: StepOutcome) -> (action:
    PersistAction)
    ensures
        !retries(atomic_rename, attempt, outcome) ==> action == persist_action(
            atomic_rename,
            attempt,
            outcome,
            0,
        ),
        retries(atomic_rename, attempt, outcome) ==> (action matches PersistAction::RetryAfter(pause)
            && PAUSE_MIN <= pause < PAUSE_END),
{
    let retry = match &outcome {
        StepOutcome::Busy(_) => !atomic_rename && attempt < MAX_TRIES,
        _ => false,
    };
    let pause: u64 = if retry {
        sample_between(PAUSE_MIN, PAUSE_END)
    } else {
        0
    };
    persist_with_pause(atomic_rename, attempt, outcome, pause)
}

/// What the caller of a save has to do next.
#[derive(Debug)]
pub enum SaveStep {
    /// Create a new temporary file in the store's directory.
    CreateTemp,
    /// Set the temporary file's length to that of the bytes, which may fail,
    /// and write all the bytes to it.
    Write,
    /// Put the temporary file in the backing file's place, in one step.
    Replace,
    /// Pause for this many milliseconds.
    Pause(u64),
    /// Nothing more: the backing file holds the bytes.
    Finished,
    /// Nothing more: the save has failed, and the backing file is as it was.
    Failed(SaveError),
}

/// The step at which a save failed, with the cause.
#[derive(Debug)]
pub enum SaveError {
    TempFile(String),
    Write(String),
    Replace(String),
}

/// A save in progress: the bytes to write and the step that is due. The
/// caller carries out the step, reports how it ended, and goes on with the
/// next one until the save is finished or has failed.
pub struct Saver {
    step: SaveStep,
    bytes: Vec<u8>,
    attempts: usize,
    atomic_rename: bool,
}

/// What a save in progress holds, as mathematical values.
pub ghost struct SaverView {
    pub step: SaveStep,
    pub bytes: Seq<u8>,
    /// How often the replacement was asked for.
    pub attempts: int,
    pub atomic_rename: bool,
}

impl SaverView {
    /// A save that has not begun.
    pub open spec fn begin(bytes: Seq<u8>, atomic_rename: bool) -> SaverView {
        SaverView { step: SaveStep::CreateTemp, bytes: bytes, attempts: 0, atomic_rename: atomic_rename }
    }

    /// The replacement is asked for at most `MAX_TRIES` times; once where a
    /// rename is atomic.
    pub open spec fn wf(self) -> bool {
        &&& 0 <= self.attempts <= MAX_TRIES
        &&& self.atomic_rename ==> self.attempts <= 1
        &&& self.step is Pause ==> self.attempts < MAX_TRIES && !self.atomic_rename
    }

    /// Whether the save has come to an end.
    pub open spec fn ended(self) -> bool {
        self.step is Finished || self.step is Failed
    }

    /// The save after the step that was due ended with `outcome`; `pause` is
    /// the length of the pause to take before the replacement is tried again.
    /// The temporary file is created, then written, then put in the backing
    /// file's place. A step that fails ends the save, except a replacement
    /// that found the file busy, which is tried again as `persist_action`
    /// says. How a pause ended is of no account.
    pub open spec fn after(self, outcome: StepOutcome, pause: u64) -> SaverView {
        match self.step {
            SaveStep::CreateTemp => match outcome {
                StepOutcome::Done => SaverView { step: SaveStep::Write, ..self },
                StepOutcome::Busy(cause) => SaverView {
                    step: SaveStep::Failed(SaveError::TempFile(cause)),
                    ..self
                },
                StepOutcome::Failed(cause) => SaverView {
                    step: SaveStep::Failed(SaveError::TempFile(cause)),
                    ..self
                },
            },
            SaveStep::Write => match outcome {
                StepOutcome::Done => SaverView { step: SaveStep::Replace, attempts: 1, ..self },
                StepOutcome::Busy(cause) => SaverView {
                    step: SaveStep::Failed(SaveError::Write(cause)),
                    ..self
                },
                StepOutcome::Failed(cause) => SaverView {
                    step: SaveStep::Failed(SaveError::Write(cause)),
                    ..self
                },
            },
            SaveStep::Replace => match persist_action(
                self.atomic_rename,
                self.attempts as usize,
                outcome,
                pause,
            ) {
                PersistAction::Done => SaverView { step: SaveStep::Finished, ..self },
                PersistAction::RetryAfter(ms) => SaverView { step: SaveStep::Pause(ms), ..self },
                PersistAction::GiveUp(cause) => SaverView {
                    step: SaveStep::Failed(SaveError::Replace(cause)),
                    ..self
                },
            },
            SaveStep::Pause(_) => SaverView {
                step: SaveStep::Replace,
                attempts: self.attempts + 1,
                ..self
            },
            SaveStep::Finished => self,
            SaveStep::Failed(_) => self,
        }
    }

    /// Whether the step that is due is a replacement that will be answered by
    /// a pause if it finds the file busy.
    pub open spec fn would_retry(self, outcome: StepOutcome) -> bool {
        self.step is Replace && retries(self.atomic_rename, self.attempts as usize, outcome)
    }
}

impl View for Saver {
    type V = SaverView;

    closed spec fn view(&self) -> SaverView {
        SaverView {
            step: self.step,
            bytes: self.bytes@,
            attempts: self.attempts as int,
            atomic_rename: self.atomic_rename,
        }
    }
}

impl Saver {
    #[verifier::type_invariant]
    spec fn well_formed(self) -> bool {
        self@.wf()
    }

    /// A save of the given bytes that has not begun. `atomic_rename` says
    /// whether the platform replaces a file by a rename in one step.
    pub fn new(bytes: Vec<u8>, atomic_rename: bool) -> (saver: Saver)
        ensures
            saver@ == SaverView::begin(bytes@, atomic_rename),
            saver@.wf(),
    {
        Saver { step: SaveStep::CreateTemp, bytes, attempts: 0, atomic_rename }
    }

    /// The step that is due.
    pub fn step(&self) -> (step: &SaveStep)
        ensures
            *step == self@.step,
    {
        &self.step
    }

    /// The bytes to write.
    pub fn bytes(&self) -> (bytes: &Vec<u8>)
        ensures
            bytes@ == self@.bytes,
    {
        &self.bytes
    }

    /// Whether the backing file holds the bytes.
    pub fn is_finished(&self) -> (finished: bool)
        ensures
            finished == self@.step is Finished,
    {
        match &self.step {
            SaveStep::Finished => true,
            _ => false,
        }
    }

    /// Takes note of how the step that was due ended, given the pause to take
    /// before a retry.
    pub fn advance_with_pause(&mut self, outcome: StepOutcome, pause: u64)
        ensures
            final(self)@ == old(self)@.after(outcome, pause),
            final(self)@.wf(),
    {
        proof {
            use_type_invariant(&*self);
        }
        match &self.step {
            SaveStep::CreateTemp => match outcome {
                StepOutcome::Done => {
                    self.step = SaveStep::Write;
                },
                StepOutcome::Busy(cause) => {
                    self.step = SaveStep::Failed(SaveError::TempFile(cause));
                },
                StepOutcome::Failed(cause) => {
                    self.step = SaveStep::Failed(SaveError::TempFile(cause));
                },
            },
            SaveStep::Write => match outcome {
                StepOutcome::Done => {
                    self.step = SaveStep::Replace;
                    self.attempts = 1;
                },
                StepOutcome::Busy(cause) => {
                    self.step = SaveStep::Failed(SaveError::Write(cause));
                },
                StepOutcome::Failed(cause) => {
                    self.step = SaveStep::Failed(SaveError::Write(cause));
                },
            },
            SaveStep::Replace => match persist_with_pause(
                self.atomic_rename,
                self.attempts,
                outcome,
                pause,
            ) {
                PersistAction::Done => {
                    self.step = SaveStep::Finished;
                },
                PersistAction::RetryAfter(ms) => {
                    self.step = SaveStep::Pause(ms);
                },
                PersistAction::GiveUp(cause) => {
                    self.step = SaveStep::Failed(SaveError::Replace(cause));
                },
            },
            SaveStep::Pause(_) => {
                self.step = SaveStep::Replace;
                self.attempts = self.attempts + 1;
            },
            SaveStep::Finished => {},
            SaveStep::Failed(_) => {},
        }
    }

    /// Takes note of how the step that was due ended. Where a replacement
    /// found the file busy and is to be tried again, the pause before the
    /// retry has a random length within the bounds.
    pub fn advance(&mut self, outcome: StepOutcome)
        ensures
            final(self)@.wf(),
            !old(self)@.would_retry(outcome) ==> final(self)@ == old(self)@.after(outcome, 0),
            old(self)@.would_retry(outcome) ==> exists|pause: u64|
                PAUSE_MIN <= pause < PAUSE_END && final(self)@ == #[trigger] old(self)@.after(
                    outcome,
                    pause,
                ),
    {
        proof {
            use_type_invariant(&*self);
        }
        let retry = match (&self.step, &outcome) {
            (SaveStep::Replace, StepOutcome::Busy(_)) => !self.atomic_rename && self.attempts
                < MAX_TRIES,
            _ => false,
        };
        let pause: u64 = if retry {
            sample_between(PAUSE_MIN, PAUSE_END)
        } else {
            0
        };
        self.advance_with_pause(outcome, pause);
    }
}

/// A save stays well-formed: the replacement is never asked for more than
/// `MAX_TRIES` times, and only once where a rename is atomic.
pub proof fn lemma_attempts_are_bounded(saver: SaverView, outcome: StepOutcome, pause: u64)
    requires
        saver.wf(),
    ensures
        saver.after(outcome, pause).wf(),
        saver.after(outcome, pause).attempts <= MAX_TRIES,
        saver.atomic_rename ==> saver.after(outcome, pause).attempts <= 1,
{
}

/// The backing file is touched by a replacement alone, and a replacement is
/// asked for only once the temporary file was written in full, or after the
/// pause that follows a replacement that found the file busy.
pub proof fn lemma_replace_follows_write(saver: SaverView, outcome: StepOutcome, pause: u64)
    requires
        saver.wf(),
        saver.after(outcome, pause).step is Replace,
    ensures
        (saver.step is Write && outcome is Done) || saver.step is Pause,
{
}

/// A save finishes only by a replacement that succeeded, and a save that
/// failed or finished stays as it is.
pub proof fn lemma_finish_follows_replace(saver: SaverView, outcome: StepOutcome, pause: u64)
    requires
        saver.wf(),
    ensures
        saver.after(outcome, pause).step is Finished && !(saver.step is Finished) ==> saver.step is Replace
            && outcome is Done,
        saver.ended() ==> saver.after(outcome, pause) == saver,
        saver.after(outcome, pause).bytes == saver.bytes,
{
}

} // verus!
