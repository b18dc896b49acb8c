//! One call of `copy(destination, source)` as a state machine.
//!
//! The machine makes every decision of the call and does none of its work.
//! It hands out one [`Action`] at a time; whoever drives it performs the
//! action against the host runtime or the kernel and hands back what came of
//! it as an [`Event`]. The destination is decoded first and the source is
//! opened first; a file that was opened is released before the host hears of
//! the call's end.

use crate::error::{CopyError, CopyErrorView, OsError, OsErrorView};
use crate::host::{
    invalid_argument_message,
    invalid_argument_text,
    throw_failure_message,
    throw_failure_text,
    Exception,
};
use crate::open::{mode_of, open_mode, open_outcome, OpenMode, Role};
use crate::reflink::{clone_outcome, clone_request, FICLONE};
use vstd::prelude::*;

verus! {

/// Where a call stands. A state that is not terminal is named for the
/// action whose result it awaits.
#[derive(Debug, PartialEq, Eq)]
pub enum State {
    /// The host has not called yet.
    Entered,
    /// The destination argument is being decoded.
    DecodeDst,
    /// The source argument is being decoded.
    DecodeSrc { dst: String },
    /// The source file is being opened.
    OpenSrc { dst: String, src: String },
    /// The destination file is being opened; the source file is open.
    OpenDst { dst: String },
    /// The kernel is cloning; both files are open.
    Ioctl,
    /// The destination file is being released; the source file is open.
    ReleaseDst { failure: Option<CopyError> },
    /// The source file is being released; it is the last one open.
    ReleaseSrc { failure: Option<CopyError> },
    /// An exception is being raised in the host.
    Throwing { exception: Exception },
    /// The call came back without an exception: the clone was made.
    Returned,
    /// The call came back with an illegal-argument exception.
    ThrewIllegalArgument,
    /// The call came back with an I/O exception.
    ThrewIO,
    /// The process was ended through the host's fatal-error channel.
    Aborted,
}

/// What came of the action that the machine handed out last.
#[derive(Debug, PartialEq, Eq)]
pub enum Event {
    /// The host called.
    Called,
    /// An argument was decoded to a path, or could not be, with the
    /// decoder's rendering of its error.
    Decoded(Result<String, String>),
    /// A file was opened, or the kernel refused.
    Opened(Result<(), OsError>),
    /// The clone ioctl came back with `status`; `last_error` is the last
    /// error of the operating system, captured right after it.
    Cloned { status: i32, last_error: OsError },
    /// A file was released.
    Released,
    /// The exception was raised in the host, or the host refused it, with
    /// the rendering of its error.
    Thrown(Result<(), String>),
}

/// What the driver is to do next.
#[derive(Debug, PartialEq, Eq)]
pub enum Action {
    /// Decode the argument of the given role.
    Decode(Role),
    /// Open the file at `path` in `mode`, and keep it as the file of `role`.
    Open { role: Role, path: String, mode: OpenMode },
    /// Issue `ioctl(destination, request, source)` on the two open files.
    Clone { request: u32 },
    /// Release the file of the given role.
    Release(Role),
    /// Raise the exception in the host.
    Throw { exception: Exception, message: String },
    /// Give control back to the host.
    Return,
    /// End the process through the host's fatal-error channel.
    Abort { message: String },
}

/// What a [`State`] stands for.
pub enum StateView {
    Entered,
    DecodeDst,
    DecodeSrc { dst: Seq<char> },
    OpenSrc { dst: Seq<char>, src: Seq<char> },
    OpenDst { dst: Seq<char> },
    Ioctl,
    ReleaseDst { failure: Option<CopyErrorView> },
    ReleaseSrc { failure: Option<CopyErrorView> },
    Throwing { exception: Exception },
    Returned,
    ThrewIllegalArgument,
    ThrewIO,
    Aborted,
}

/// What an [`Event`] stands for.
pub enum EventView {
    Called,
    Decoded(Result<Seq<char>, Seq<char>>),
    Opened(Result<(), OsErrorView>),
    Cloned { status: i32, last_error: OsErrorView },
    Released,
    Thrown(Result<(), Seq<char>>),
}

/// What an [`Action`] stands for.
pub enum ActionView {
    Decode(Role),
    Open { role: Role, path: Seq<char>, mode: OpenMode },
    Clone { request: u32 },
    Release(Role),
    Throw { exception: Exception, message: Seq<char> },
    Return,
    Abort { message: Seq<char> },
}

/// What a failure that a state keeps for later stands for.
pub open spec fn failure_view(failure: Option<CopyError>) -> Option<CopyErrorView> {
    match failure {
        Some(error) => Some(error@),
        None => None,
    }
}

impl View for State {
    type V = StateView;

    open spec fn view(&self) -> StateView {
        match self {
            State::Entered => StateView::Entered,
            State::DecodeDst => StateView::DecodeDst,
            State::DecodeSrc { dst } => StateView::DecodeSrc { dst: dst@ },
            State::OpenSrc { dst, src } => StateView::OpenSrc { dst: dst@, src: src@ },
            State::OpenDst { dst } => StateView::OpenDst { dst: dst@ },
            State::Ioctl => StateView::Ioctl,
            State::ReleaseDst { failure } => StateView::ReleaseDst {
                failure: failure_view(*failure),
            },
            State::ReleaseSrc { failure } => StateView::ReleaseSrc {
                failure: failure_view(*failure),
            },
            State::Throwing { exception } => StateView::Throwing { exception: *exception },
            State::Returned => StateView::Returned,
            State::ThrewIllegalArgument => StateView::ThrewIllegalArgument,
            State::ThrewIO => StateView::ThrewIO,
            State::Aborted => StateView::Aborted,
        }
    }
}

impl View for Event {
    type V = EventView;

    open spec fn view(&self) -> EventView {
        match self {
            Event::Called => EventView::Called,
            Event::Decoded(Ok(path)) => EventView::Decoded(Ok(path@)),
            Event::Decoded(Err(why)) => EventView::Decoded(Err(why@)),
            Event::Opened(Ok(())) => EventView::Opened(Ok(())),
            Event::Opened(Err(why)) => EventView::Opened(Err(why@)),
            Event::Cloned { status, last_error } => EventView::Cloned {
                status: *status,
                last_error: last_error@,
            },
            Event::Released => EventView::Released,
            Event::Thrown(Ok(())) => EventView::Thrown(Ok(())),
            Event::Thrown(Err(why)) => EventView::Thrown(Err(why@)),
        }
    }
}

impl View for Action {
    type V = ActionView;

    open spec fn view(&self) -> ActionView {
        match self {
            Action::Decode(role) => ActionView::Decode(*role),
            Action::Open { role, path, mode } => ActionView::Open {
                role: *role,
                path: path@,
                mode: *mode,
            },
            Action::Clone { request } => ActionView::Clone { request: *request },
            Action::Release(role) => ActionView::Release(*role),
            Action::Throw { exception, message } => ActionView::Throw {
                exception: *exception,
                message: message@,
            },
            Action::Return => ActionView::Return,
            Action::Abort { message } => ActionView::Abort { message: message@ },
        }
    }
}

impl StateView {
    /// Whether the call is over.
    pub open spec fn is_terminal(self) -> bool {
        self is Returned || self is ThrewIllegalArgument || self is ThrewIO || self is Aborted
    }
}

/// The state in which a call ends once the host has accepted the exception.
pub open spec fn threw(exception: Exception) -> StateView {
    match exception {
        Exception::IllegalArgument => StateView::ThrewIllegalArgument,
        Exception::Io => StateView::ThrewIO,
    }
}

/// The step that raises `exception` with `message` in the host.
pub open spec fn raise(exception: Exception, message: Seq<char>) -> (StateView, ActionView) {
    (StateView::Throwing { exception }, ActionView::Throw { exception, message })
}

/// The step that follows the release of the last open file: with nothing
/// held against the call it returns, else the failure is raised as an I/O
/// exception under its display form.
pub open spec fn conclude(failure: Option<CopyErrorView>) -> (StateView, ActionView) {
    match failure {
        None => (StateView::Returned, ActionView::Return),
        Some(error) => raise(Exception::Io, error.message()),
    }
}

/// The transition relation: the state and the action that follow `event` in
/// `state`, or `None` where the state does not await that event. No
/// terminal state awaits any.
pub open spec fn next(state: StateView, event: EventView) -> Option<(StateView, ActionView)> {
    match (state, event) {
        (StateView::Entered, EventView::Called) => Some(
            (StateView::DecodeDst, ActionView::Decode(Role::Destination)),
        ),
        (StateView::DecodeDst, EventView::Decoded(Ok(dst))) => Some(
            (StateView::DecodeSrc { dst }, ActionView::Decode(Role::Source)),
        ),
        (StateView::DecodeDst, EventView::Decoded(Err(why))) => Some(
            raise(Exception::IllegalArgument, invalid_argument_text(Role::Destination, why)),
        ),
        (StateView::DecodeSrc { dst }, EventView::Decoded(Ok(src))) => Some(
            (
                StateView::OpenSrc { dst, src },
                ActionView::Open { role: Role::Source, path: src, mode: mode_of(Role::Source) },
            ),
        ),
        (StateView::DecodeSrc { dst }, EventView::Decoded(Err(why))) => Some(
            raise(Exception::IllegalArgument, invalid_argument_text(Role::Source, why)),
        ),
        (StateView::OpenSrc { dst, src }, EventView::Opened(Ok(()))) => Some(
            (
                StateView::OpenDst { dst },
                ActionView::Open {
                    role: Role::Destination,
                    path: dst,
                    mode: mode_of(Role::Destination),
                },
            ),
        ),
        (StateView::OpenSrc { dst, src }, EventView::Opened(Err(why))) => Some(
            conclude(Some(CopyErrorView::FileOpenError(src, why))),
        ),
        (StateView::OpenDst { dst }, EventView::Opened(Ok(()))) => Some(
            (StateView::Ioctl, ActionView::Clone { request: FICLONE }),
        ),
        (StateView::OpenDst { dst }, EventView::Opened(Err(why))) => Some(
            (
                StateView::ReleaseSrc { failure: Some(CopyErrorView::FileOpenError(dst, why)) },
                ActionView::Release(Role::Source),
            ),
        ),
        (StateView::Ioctl, EventView::Cloned { status, last_error }) => Some(
            (
                StateView::ReleaseDst {
                    failure: if status == 0 {
                        None
                    } else {
                        Some(CopyErrorView::IoctlError(last_error))
                    },
                },
                ActionView::Release(Role::Destination),
            ),
        ),
        (StateView::ReleaseDst { failure }, EventView::Released) => Some(
            (StateView::ReleaseSrc { failure }, ActionView::Release(Role::Source)),
        ),
        (StateView::ReleaseSrc { failure }, EventView::Released) => Some(conclude(failure)),
        (StateView::Throwing { exception }, EventView::Thrown(Ok(()))) => Some(
            (threw(exception), ActionView::Return),
        ),
        (StateView::Throwing { exception }, EventView::Thrown(Err(why))) => Some(
            (StateView::Aborted, ActionView::Abort { message: throw_failure_text(why) }),
        ),
        _ => None,
    }
}

/// What a step that was taken stands for.
pub open spec fn step_view(taken: Option<(State, Action)>) -> Option<(StateView, ActionView)> {
    match taken {
        Some((state, action)) => Some((state@, action@)),
        None => None,
    }
}

impl State {
    /// Whether the call is over: the host has control again, or the process
    /// has been ended.
    pub fn is_terminal(&self) -> (over: bool)
        ensures
            over == self@.is_terminal(),
    {
        match self {
            State::Returned | State::ThrewIllegalArgument | State::ThrewIO | State::Aborted => true,
            _ => false,
        }
    }
}

/// Starts to raise `exception` with `message` in the host.
fn raise_in_host(exception: Exception, message: String) -> (step: (State, Action))
    ensures
        (step.0@, step.1@) == raise(exception, message@),
{
    (State::Throwing { exception }, Action::Throw { exception, message })
}

/// Ends a call that holds no file any more.
fn conclude_call(failure: Option<CopyError>) -> (step: (State, Action))
    ensures
        (step.0@, step.1@) == conclude(failure_view(failure)),
{
    match failure {
        None => (State::Returned, Action::Return),
        Some(error) => raise_in_host(Exception::Io, error.message()),
    }
}

/// Takes one step of the call: from the state that the call is in and the
/// event that came of the last action, to the next state and the action to
/// perform now. It is `None` exactly where the state does not await the
/// event.
pub fn step(state: State, event: Event) -> (taken: Option<(State, Action)>)
    ensures
        step_view(taken) == next(state@, event@),
{
    match state {
        State::Entered => match event {
            Event::Called => Some((State::DecodeDst, Action::Decode(Role::Destination))),
            _ => None,
        },
        State::DecodeDst => match event {
            Event::Decoded(Ok(dst)) => Some((State::DecodeSrc { dst }, Action::Decode(Role::Source))),
            Event::Decoded(Err(why)) => Some(
                raise_in_host(
                    Exception::IllegalArgument,
                    invalid_argument_message(Role::Destination, why.as_str()),
                ),
            ),
            _ => None,
        },
        State::DecodeSrc { dst } => match event {
            Event::Decoded(Ok(src)) => {
                let path = src.clone();
                Some(
                    (
                        State::OpenSrc { dst, src },
                        Action::Open { role: Role::Source, path, mode: open_mode(Role::Source) },
                    ),
                )
            },
            Event::Decoded(Err(why)) => Some(
                raise_in_host(
                    Exception::IllegalArgument,
                    invalid_argument_message(Role::Source, why.as_str()),
                ),
            ),
            _ => None,
        },
        State::OpenSrc { dst, src } => match event {
            Event::Opened(opened) => match open_outcome(src, opened) {
                Ok(()) => {
                    let path = dst.clone();
                    Some(
                        (
                            State::OpenDst { dst },
                            Action::Open {
                                role: Role::Destination,
                                path,
                                mode: open_mode(Role::Destination),
                            },
                        ),
                    )
                },
                Err(error) => Some(conclude_call(Some(error))),
            },
            _ => None,
        },
        State::OpenDst { dst } => match event {
            Event::Opened(opened) => match open_outcome(dst, opened) {
                Ok(()) => Some((State::Ioctl, Action::Clone { request: clone_request() })),
                Err(error) => Some(
                    (State::ReleaseSrc { failure: Some(error) }, Action::Release(Role::Source)),
                ),
            },
            _ => None,
        },
        State::Ioctl => match event {
            Event::Cloned { status, last_error } => {
                let failure = match clone_outcome(status, last_error) {
                    Ok(()) => None,
                    Err(error) => Some(error),
                };
                Some((State::ReleaseDst { failure }, Action::Release(Role::Destination)))
            },
            _ => None,
        },
        State::ReleaseDst { failure } => match event {
            Event::Released => Some((State::ReleaseSrc { failure }, Action::Release(Role::Source))),
            _ => None,
        },
        State::ReleaseSrc { failure } => match event {
            Event::Released => Some(conclude_call(failure)),
            _ => None,
        },
        State::Throwing { exception } => match event {
            Event::Thrown(Ok(())) => match exception {
                Exception::IllegalArgument => Some((State::ThrewIllegalArgument, Action::Return)),
                Exception::Io => Some((State::ThrewIO, Action::Return)),
            },
            Event::Thrown(Err(why)) => Some(
                (State::Aborted, Action::Abort { message: throw_failure_message(why.as_str()) }),
            ),
            _ => None,
        },
        State::Returned | State::ThrewIllegalArgument | State::ThrewIO | State::Aborted => None,
    }
}

} // verus!
