use vstd::prelude::*;

verus! {

#[verifier::external_type_specification]
#[verifier::external_body]
pub struct ExIoError(std::io::Error);

/// The path that `Path::join` makes of a directory and a file name, on the
/// target's path rules.
pub uninterp spec fn joined_path(dir: Seq<char>, name: Seq<char>) -> Seq<char>;

/// Relies on `std::path::Path::join`: the file name adjoined to the directory.
/// Both parts are text, so the joined path is text too and the conversion
/// back to a `String` loses nothing.
#[verifier::external_body]
fn join_path(directory: &str, file_name: &str) -> (r: String)
    ensures
        r@ == joined_path(directory@, file_name@),
{
    std::path::Path::new(directory).join(file_name).to_string_lossy().into_owned()
}

/// A filesystem action that a driver performs for a task.
#[derive(PartialEq, Eq, Structural, Clone, Copy, Debug)]
pub enum Action {
    /// Report whether the task's directory exists.
    ProbeDir,
    /// Create the task's directory with all its missing ancestors.
    MakeDirAll,
    /// Create the file at the task's path, truncating it if it exists.
    MakeFile,
    /// Read the whole file at the task's path as text.
    ReadText,
    /// Remove the file at the task's path.
    RemoveFile,
}

/// What the driver observed on performing a task's pending action.
#[derive(Debug)]
pub enum Event {
    /// Whether the directory exists, after `Action::ProbeDir`.
    DirPresent(bool),
    /// The outcome of `Action::MakeDirAll`, `Action::MakeFile` or
    /// `Action::RemoveFile`.
    Done(Result<(), std::io::Error>),
    /// The outcome of `Action::ReadText`.
    Text(Result<String, std::io::Error>),
}

/// What a task asks of its driver after an event.
#[derive(Debug)]
pub enum Next {
    /// Perform this action and report the event.
    Perform(Action),
    /// The operation finished successfully, with nothing to hand back.
    Succeeded,
    /// The operation finished successfully with the file's text.
    Content(String),
    /// The operation failed with this error, as the host reported it.
    Failed(std::io::Error),
}

/// Whether `event` is an outcome of the action `pending`.
pub open spec fn expects(pending: Option<Action>, event: Event) -> bool {
    match pending {
        None => false,
        Some(Action::ProbeDir) => event is DirPresent,
        Some(Action::ReadText) => event is Text,
        Some(_) => event is Done,
    }
}

/// The next pending action and the reply to the driver, once `event` has
/// been observed for `pending`. Meaningful where `expects(pending, event)`.
pub open spec fn transition(pending: Option<Action>, event: Event) -> (Option<Action>, Next) {
    match event {
        Event::DirPresent(true) => (Some(Action::MakeFile), Next::Perform(Action::MakeFile)),
        Event::DirPresent(false) => (Some(Action::MakeDirAll), Next::Perform(Action::MakeDirAll)),
        Event::Done(Ok(())) => if pending == Some(Action::MakeDirAll) {
            (Some(Action::MakeFile), Next::Perform(Action::MakeFile))
        } else {
            (None, Next::Succeeded)
        },
        Event::Done(Err(e)) => (None, Next::Failed(e)),
        Event::Text(Ok(text)) => (None, Next::Content(text)),
        Event::Text(Err(e)) => (None, Next::Failed(e)),
    }
}

/// An upper bound on the number of actions that remain before `pending` is
/// finished.
pub open spec fn actions_left(pending: Option<Action>) -> nat {
    match pending {
        None => 0,
        Some(Action::ProbeDir) => 3,
        Some(Action::MakeDirAll) => 2,
        Some(_) => 1,
    }
}

/// One of the three operations on a file, under way.
pub struct FileTask {
    /// The directory that holds the file.
    pub dir: String,
    /// The file's path: the file name joined to the directory.
    pub path: String,
    /// The action that the driver is to perform next; `None` once finished.
    pub pending: Option<Action>,
}

impl FileTask {
    /// Starts creating an empty file `file_name` in `directory`, making the
    /// directory first if it is missing.
    pub fn create(directory: &str, file_name: &str) -> (r: FileTask)
        ensures
            r.dir@ == directory@,
            r.path@ == joined_path(directory@, file_name@),
            r.pending == Some(Action::ProbeDir),
    {
        FileTask {
            dir: String::from_str(directory),
            path: join_path(directory, file_name),
            pending: Some(Action::ProbeDir),
        }
    }

    /// Starts reading the file `file_name` in `directory` as text.
    pub fn read(directory: &str, file_name: &str) -> (r: FileTask)
        ensures
            r.dir@ == directory@,
            r.path@ == joined_path(directory@, file_name@),
            r.pending == Some(Action::ReadText),
    {
        FileTask {
            dir: String::from_str(directory),
            path: join_path(directory, file_name),
            pending: Some(Action::ReadText),
        }
    }

    /// Starts deleting the file `file_name` in `directory`.
    pub fn delete(directory: &str, file_name: &str) -> (r: FileTask)
        ensures
            r.dir@ == directory@,
            r.path@ == joined_path(directory@, file_name@),
            r.pending == Some(Action::RemoveFile),
    {
        FileTask {
            dir: String::from_str(directory),
            path: join_path(directory, file_name),
            pending: Some(Action::RemoveFile),
        }
    }

    /// Whether `event` is an outcome of the pending action.
    pub fn accepts(&self, event: &Event) -> (r: bool)
        ensures
            r == expects(self.pending, *event),
    {
        match self.pending {
            None => false,
            Some(Action::ProbeDir) => matches!(event, Event::DirPresent(_)),
            Some(Action::ReadText) => matches!(event, Event::Text(_)),
            Some(_) => matches!(event, Event::Done(_)),
        }
    }

    /// Takes in the outcome of the pending action: decides the next action,
    /// or finishes the task with its result. Errors are handed back as the
    /// host reported them.
    pub fn advance(&mut self, event: Event) -> (r: Next)
        requires
            expects(old(self).pending, event),
        ensures
            final(self).dir == old(self).dir,
            final(self).path == old(self).path,
            (final(self).pending, r) == transition(old(self).pending, event),
            actions_left(final(self).pending) < actions_left(old(self).pending),
    {
        let (pending, next) = match event {
            Event::DirPresent(true) => (Some(Action::MakeFile), Next::Perform(Action::MakeFile)),
            Event::DirPresent(false) => (Some(Action::MakeDirAll), Next::Perform(Action::MakeDirAll)),
            Event::Done(Ok(())) => if self.pending == Some(Action::MakeDirAll) {
                (Some(Action::MakeFile), Next::Perform(Action::MakeFile))
            } else {
                (None, Next::Succeeded)
            },
            Event::Done(Err(e)) => (None, Next::Failed(e)),
            Event::Text(Ok(text)) => (None, Next::Content(text)),
            Event::Text(Err(e)) => (None, Next::Failed(e)),
        };
        self.pending = pending;
        next
    }
}

/// Every failure of an action ends the task with that very error: nothing is
/// retried, wrapped or recovered.
pub proof fn lemma_failure_surfaces(pending: Option<Action>, e: std::io::Error)
    ensures
        transition(pending, Event::Done(Err(e))) == (None::<Action>, Next::Failed(e)),
        transition(pending, Event::Text(Err(e))) == (None::<Action>, Next::Failed(e)),
{
}

/// Reading hands back exactly the text that was read from the file.
pub proof fn lemma_read_hands_back_text(text: String)
    ensures
        transition(Some(Action::ReadText), Event::Text(Ok(text))) == (None::<Action>, Next::Content(
            text,
        )),
{
}

/// Creating makes the file whether or not the directory was there, making the
/// directory first exactly when it was missing; once the file is made, the
/// task succeeds.
pub proof fn lemma_create_reaches_file(present: bool)
    ensures
        present ==> transition(Some(Action::ProbeDir), Event::DirPresent(present)).0 == Some(
            Action::MakeFile,
        ),
        !present ==> transition(Some(Action::ProbeDir), Event::DirPresent(present)).0 == Some(
            Action::MakeDirAll,
        ),
        transition(Some(Action::MakeDirAll), Event::Done(Ok(()))).0 == Some(Action::MakeFile),
        transition(Some(Action::MakeFile), Event::Done(Ok(()))) == (None::<Action>, Next::Succeeded),
{
}

/// Deleting ends the task once the removal is done: with success where the
/// file was removed, with the host's error where it was not.
pub proof fn lemma_removal_ends_task(outcome: Result<(), std::io::Error>)
    ensures
        transition(Some(Action::RemoveFile), Event::Done(outcome)) == (None::<Action>, match outcome {
            Ok(()) => Next::Succeeded,
            Err(e) => Next::Failed(e),
        }),
{
}

} // verus!
