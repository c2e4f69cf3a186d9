use vstd::prelude::*;
use vstd::utf8::*;

use crate::error::TerminalError;
use crate::ident::{is_session_id, random_identifier};
use crate::registry::TerminalState;
use crate::shell::{default_shell_command, session_shell, text_of, Platform, ShellCommand};

verus! {

/// The size of a terminal, in character cells and in pixels.
#[derive(Clone, Copy, Debug, PartialEq, Eq, Structural)]
pub struct PtySize {
    pub rows: u16,
    pub cols: u16,
    pub pixel_width: u16,
    pub pixel_height: u16,
}

/// A size given in character cells alone: the pixel dimensions are not tracked and stay zero.
pub open spec fn cells(cols: u16, rows: u16) -> PtySize {
    PtySize { rows, cols, pixel_width: 0, pixel_height: 0 }
}

/// What is needed to bring a new session up: the identifier it will be known by, the size
/// of its pseudo-terminal and the command to run on the slave side.
#[derive(Clone, Debug, PartialEq, Eq)]
pub struct SessionPlan {
    pub id: String,
    pub size: PtySize,
    pub command: ShellCommand,
}

/// The steps that bring a session up, in the order in which they are taken.
#[derive(Clone, Copy, Debug, PartialEq, Eq, Structural)]
pub enum CreateStep {
    /// Allocate the pseudo-terminal pair.
    OpenPty,
    /// Launch the shell on the slave side.
    Spawn,
    /// Get an independent reader from the master side.
    CloneReader,
    /// Take the writer from the master side.
    TakeWriter,
}

/// A step that failed while a session was brought up, with the operating system's description.
#[derive(Clone, Debug, PartialEq, Eq)]
pub struct CreateFailure {
    pub step: CreateStep,
    pub message: String,
}

/// An operation on a live session that reaches the operating system.
#[derive(Clone, Copy, Debug, PartialEq, Eq, Structural)]
pub enum IoStep {
    /// Write the whole payload to the session's writer.
    Write,
    /// Flush the writer after a write.
    Flush,
    /// Resize the pseudo-terminal.
    Resize,
    /// Ask the shell to terminate.
    Kill,
}

/// The error that a failed step of bringing a session up is reported as.
pub open spec fn create_error(failure: CreateFailure) -> TerminalError {
    match failure.step {
        CreateStep::OpenPty => TerminalError::Allocation(failure.message),
        CreateStep::Spawn => TerminalError::Spawn(failure.message),
        CreateStep::CloneReader => TerminalError::Handle(failure.message),
        CreateStep::TakeWriter => TerminalError::Handle(failure.message),
    }
}

/// What the caller is told after an operation on a live session: a failed flush or kill is
/// passed over, a failed write or resize is reported with the operating system's description.
pub open spec fn settled(step: IoStep, outcome: Result<(), String>) -> Result<(), TerminalError> {
    match outcome {
        Ok(_) => Ok(()),
        Err(message) => match step {
            IoStep::Flush => Ok(()),
            IoStep::Kill => Ok(()),
            IoStep::Write => Err(TerminalError::Io(message)),
            IoStep::Resize => Err(TerminalError::Io(message)),
        },
    }
}

/// The session that an operation on `id` works on, or the error for an unknown identifier.
pub open spec fn lookup<S>(sessions: Map<Seq<char>, S>, id: Seq<char>) -> Result<S, TerminalError> {
    if sessions.contains_key(id) {
        Ok(sessions[id])
    } else {
        Err(TerminalError::UnknownSession)
    }
}

/// Builds the size of a pseudo-terminal with `cols` columns and `rows` rows.
pub fn pty_size(cols: u16, rows: u16) -> (size: PtySize)
    ensures
        size == cells(cols, rows),
{
    PtySize { rows, cols, pixel_width: 0, pixel_height: 0 }
}

/// Plans a session under the identifier `id`: a pseudo-terminal of `cols` by `rows` cells
/// and the default shell of `platform`, started in `cwd` where one is given.
pub fn plan_session_as(
    id: String,
    platform: Platform,
    shell: Option<String>,
    cols: u16,
    rows: u16,
    cwd: Option<String>,
) -> (plan: SessionPlan)
    ensures
        plan.id == id,
        plan.size == cells(cols, rows),
        plan.command@ == session_shell(platform, text_of(shell), text_of(cwd)),
{
    let mut command = default_shell_command(platform, shell);
    if let Some(dir) = cwd {
        command.cwd(dir);
    }
    SessionPlan { id, size: pty_size(cols, rows), command }
}

/// Plans a session under a newly drawn identifier.
pub fn plan_session(
    platform: Platform,
    shell: Option<String>,
    cols: u16,
    rows: u16,
    cwd: Option<String>,
) -> (plan: SessionPlan)
    ensures
        is_session_id(plan.id@),
        plan.size == cells(cols, rows),
        plan.command@ == session_shell(platform, text_of(shell), text_of(cwd)),
{
    plan_session_as(random_identifier(), platform, shell, cols, rows, cwd)
}

/// Completes the creation of a session. `opened` says how bringing the planned session up
/// went: the session's handle, or the step that failed.
///
/// A session that came up is registered under the plan's identifier, which is returned. A
/// failure is reported by its kind, and the registry stays as it was.
pub fn terminal_create<S>(
    state: &mut TerminalState<S>,
    plan: SessionPlan,
    opened: Result<S, CreateFailure>,
) -> (created: Result<String, TerminalError>)
    ensures
        match opened {
            Ok(session) => created == Ok::<String, TerminalError>(plan.id) && final(state)@ == old(
                state,
            )@.insert(plan.id@, session),
            Err(failure) => created == Err::<String, TerminalError>(create_error(failure))
                && final(state)@ == old(state)@,
        },
{
    match opened {
        Ok(session) => {
            let id = plan.id;
            let _ = state.insert(id.clone(), session);
            Ok(id)
        },
        Err(failure) => {
            let CreateFailure { step, message } = failure;
            Err(
                match step {
                    CreateStep::OpenPty => TerminalError::Allocation(message),
                    CreateStep::Spawn => TerminalError::Spawn(message),
                    CreateStep::CloneReader => TerminalError::Handle(message),
                    CreateStep::TakeWriter => TerminalError::Handle(message),
                },
            )
        },
    }
}

/// Begins a write to the session `id`: gives the session for exclusive use and the bytes
/// to write to it, which are the UTF-8 encoding of `data`.
///
/// Fails exactly when no session is registered under `id`. The registry keeps its
/// identifiers; under `id` it afterwards holds the session as the caller left it.
pub fn terminal_write<'a, S>(state: &'a mut TerminalState<S>, id: String, data: &'a str) -> (begun:
    Result<(&'a mut S, &'a [u8]), TerminalError>)
    ensures
        match begun {
            Ok((session, bytes)) => lookup(old(state)@, id@) == Ok::<S, TerminalError>(*session)
                && bytes@ == encode_utf8(data@) && final(state)@ == old(state)@.insert(
                id@,
                *final(session),
            ),
            Err(error) => lookup(old(state)@, id@) == Err::<S, TerminalError>(error)
                && final(state)@ == old(state)@,
        },
{
    match state.get_mut(&id) {
        Some(session) => Ok((session, data.as_bytes())),
        None => Err(TerminalError::UnknownSession),
    }
}

/// Begins a resize of the session `id`: gives the session and the size to request, which
/// is `cols` by `rows` cells with the pixel dimensions zeroed.
///
/// Fails exactly when no session is registered under `id`.
pub fn terminal_resize<'a, S>(state: &'a TerminalState<S>, id: String, cols: u16, rows: u16) -> (begun:
    Result<(&'a S, PtySize), TerminalError>)
    ensures
        match begun {
            Ok((session, size)) => lookup(state@, id@) == Ok::<S, TerminalError>(*session) && size
                == cells(cols, rows),
            Err(error) => lookup(state@, id@) == Err::<S, TerminalError>(error),
        },
{
    match state.get(&id) {
        Some(session) => Ok((session, pty_size(cols, rows))),
        None => Err(TerminalError::UnknownSession),
    }
}

/// Takes the session `id` out of the registry and hands it back for its shell to be
/// terminated. Never fails: where no session is registered under `id`, nothing changes and
/// nothing is handed back.
pub fn terminal_kill<S>(state: &mut TerminalState<S>, id: String) -> (killed: Result<
    Option<S>,
    TerminalError,
>)
    ensures
        killed == Ok::<Option<S>, TerminalError>(old(state)@.get(id@)),
        final(state)@ == old(state)@.remove(id@),
{
    Ok(state.remove(&id))
}

/// Decides what the caller is told after `step` ended with `outcome`.
pub fn settle(step: IoStep, outcome: Result<(), String>) -> (result: Result<(), TerminalError>)
    ensures
        result == settled(step, outcome),
{
    match outcome {
        Ok(_) => Ok(()),
        Err(message) => match step {
            IoStep::Flush => Ok(()),
            IoStep::Kill => Ok(()),
            IoStep::Write => Err(TerminalError::Io(message)),
            IoStep::Resize => Err(TerminalError::Io(message)),
        },
    }
}

} // verus!
