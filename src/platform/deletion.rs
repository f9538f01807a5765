//! The operations that remove a startup entry, and the decisions between
//! them. The caller performs each operation and reports its outcome; the
//! next step then follows from the operation and the outcome alone.
use crate::text::{console_text, console_text_of, lossy_text, utf8_lossy_text, views};
use vstd::prelude::*;

verus! {

/// An external program and its arguments.
#[derive(Debug)]
pub struct ExternalCommand {
    pub program: String,
    pub args: Vec<String>,
}

/// Whether `c` runs `program` with the arguments `args`.
pub open spec fn runs(c: ExternalCommand, program: Seq<char>, args: Seq<Seq<char>>) -> bool {
    c.program@ == program && views(c.args@) == args
}

/// One operation against a backing store.
#[derive(Debug)]
pub enum Operation {
    /// Unload the launch job described by the file at `path`.
    UnloadJob { command: ExternalCommand, path: String },
    /// Remove the file at `path`; `unloaded` tells whether a launch job was
    /// unloaded from it first.
    RemoveFile { path: String, unloaded: bool },
    /// Remove the login item `name` through the automation facility.
    RemoveLoginItem { command: ExternalCommand, name: String },
    /// Delete the value `name` of the per-user Run key.
    DeleteRunValue { command: ExternalCommand, name: String },
}

/// How an operation ended.
#[derive(Debug)]
pub enum Outcome {
    Succeeded,
    /// The command ran and exited with a non-zero status.
    ExitFailure { stderr: Vec<u8> },
    /// The command could not be run, or the file operation failed.
    Error { message: String },
}

/// Why a deletion failed. Each carries the diagnostic text of the failure.
#[derive(Debug)]
pub enum DeletionError {
    /// The launch job could not be unloaded; the file was left in place.
    UnloadFailed { path: String, diagnostic: String },
    /// The file could not be removed; `unloaded` tells whether its launch
    /// job had been unloaded before, which makes this a partial failure.
    FileRemoveFailed { path: String, unloaded: bool, diagnostic: String },
    /// The automation script that removes a login item failed.
    AutomationFailed { name: String, diagnostic: String },
    /// The registry tool failed to delete the Run value.
    RegistryDeleteFailed { name: String, diagnostic: String },
    /// The record has no path, though its kind is removed through one.
    MissingPath { label: String },
}

/// What to do next in a deletion.
#[derive(Debug)]
pub enum DeletionStep {
    Perform(Operation),
    Finished(Result<(), DeletionError>),
}

/// The diagnostic text of a failed outcome; `console` selects the console
/// tools' legacy encoding for process output, else UTF-8.
pub open spec fn diagnostic_of(o: Outcome, console: bool) -> Seq<char> {
    match o {
        Outcome::Succeeded => Seq::empty(),
        Outcome::ExitFailure { stderr } => if console {
            console_text_of(stderr@)
        } else {
            utf8_lossy_text(stderr@)
        },
        Outcome::Error { message } => message@,
    }
}

/// `s` ends the deletion with success.
pub open spec fn finished_ok(s: DeletionStep) -> bool {
    s matches DeletionStep::Finished(Ok(()))
}

/// `s` is the step that follows `done` with outcome `o`.
pub open spec fn resumes(done: Operation, o: Outcome, s: DeletionStep) -> bool {
    if o is Succeeded {
        match done {
            Operation::UnloadJob { path, .. } => match s {
                DeletionStep::Perform(Operation::RemoveFile { path: p, unloaded }) => p@ == path@
                    && unloaded,
                _ => false,
            },
            _ => finished_ok(s),
        }
    } else {
        match (done, s) {
            (
                Operation::UnloadJob { path, .. },
                DeletionStep::Finished(Err(DeletionError::UnloadFailed { path: p, diagnostic })),
            ) => p@ == path@ && diagnostic@ == diagnostic_of(o, false),
            (
                Operation::RemoveFile { path, unloaded },
                DeletionStep::Finished(
                    Err(DeletionError::FileRemoveFailed { path: p, unloaded: u, diagnostic }),
                ),
            ) => p@ == path@ && u == unloaded && diagnostic@ == diagnostic_of(o, false),
            (
                Operation::RemoveLoginItem { name, .. },
                DeletionStep::Finished(Err(DeletionError::AutomationFailed { name: n, diagnostic })),
            ) => n@ == name@ && diagnostic@ == diagnostic_of(o, false),
            (
                Operation::DeleteRunValue { name, .. },
                DeletionStep::Finished(
                    Err(DeletionError::RegistryDeleteFailed { name: n, diagnostic }),
                ),
            ) => n@ == name@ && diagnostic@ == diagnostic_of(o, true),
            _ => false,
        }
    }
}

fn diagnostic(o: &Outcome, console: bool) -> (r: String)
    ensures
        r@ == diagnostic_of(*o, console),
{
    match o {
        Outcome::Succeeded => String::new(),
        Outcome::ExitFailure { stderr } => if console {
            console_text(stderr)
        } else {
            lossy_text(stderr)
        },
        Outcome::Error { message } => message.clone(),
    }
}

/// The step after the operation `done` ended with the outcome `o`: a
/// successful unload is followed by the removal of the same file, any other
/// success ends the deletion, and a failure ends it with the error of that
/// operation. Nothing is attempted after a failure.
pub fn resume_deletion(done: &Operation, o: &Outcome) -> (r: DeletionStep)
    ensures
        resumes(*done, *o, r),
{
    if let Outcome::Succeeded = o {
        match done {
            Operation::UnloadJob { path, .. } => DeletionStep::Perform(
                Operation::RemoveFile { path: path.clone(), unloaded: true },
            ),
            _ => DeletionStep::Finished(Ok(())),
        }
    } else {
        let err = match done {
            Operation::UnloadJob { path, .. } => DeletionError::UnloadFailed {
                path: path.clone(),
                diagnostic: diagnostic(o, false),
            },
            Operation::RemoveFile { path, unloaded } => DeletionError::FileRemoveFailed {
                path: path.clone(),
                unloaded: *unloaded,
                diagnostic: diagnostic(o, false),
            },
            Operation::RemoveLoginItem { name, .. } => DeletionError::AutomationFailed {
                name: name.clone(),
                diagnostic: diagnostic(o, false),
            },
            Operation::DeleteRunValue { name, .. } => DeletionError::RegistryDeleteFailed {
                name: name.clone(),
                diagnostic: diagnostic(o, true),
            },
        };
        DeletionStep::Finished(Err(err))
    }
}

} // verus!
