//! Whole calls: what holds of every run of the machine, and how a call
//! ends for each way in which the host and the kernel can answer.
//!
//! A run is the sequence of events that a driver fed to the machine, from
//! the host's call on. With it come the actions that the machine handed out
//! and the files that the driver holds open, which follow from the two: a
//! file is held from the moment its opening succeeded until its release was
//! carried out.

use crate::call::{next, ActionView, EventView, StateView};
use crate::error::{CopyErrorView, OsErrorView};
use crate::host::{invalid_argument_text, throw_failure_text, Exception};
use crate::open::{mode_of, Role};
use crate::reflink::FICLONE;
use vstd::prelude::*;

verus! {

/// The files that the driver holds open.
pub struct Held {
    pub source: bool,
    pub destination: bool,
}

/// A call under way.
pub struct Progress {
    /// The events that the machine took, oldest first.
    pub events: Seq<EventView>,
    /// The state that the machine is in.
    pub state: StateView,
    /// The actions that it handed out, oldest first, one for each event.
    /// The last one is the one that the driver is to answer next.
    pub actions: Seq<ActionView>,
    /// The files held open once the last event was taken in.
    pub held: Held,
}

impl Held {
    /// No file is held.
    pub open spec fn none() -> Held {
        Held { source: false, destination: false }
    }

    /// The same files, but for the one of `role`, which is held or not as
    /// `open` says.
    pub open spec fn with(self, role: Role, open: bool) -> Held {
        match role {
            Role::Source => Held { source: open, destination: self.destination },
            Role::Destination => Held { source: self.source, destination: open },
        }
    }

    /// Whether the file of `role` is held.
    pub open spec fn has(self, role: Role) -> bool {
        match role {
            Role::Source => self.source,
            Role::Destination => self.destination,
        }
    }
}

/// The files held after `event` answered `action`: an opening that
/// succeeded adds its file, a release takes its file away, and nothing else
/// changes what is held.
pub open spec fn settle(held: Held, action: ActionView, event: EventView) -> Held {
    match (action, event) {
        (ActionView::Open { role, .. }, EventView::Opened(Ok(()))) => held.with(role, true),
        (ActionView::Release(role), EventView::Released) => held.with(role, false),
        _ => held,
    }
}

/// A call before the host has called.
pub open spec fn start() -> Progress {
    Progress {
        events: Seq::empty(),
        state: StateView::Entered,
        actions: Seq::empty(),
        held: Held::none(),
    }
}

/// The call after one more event, where the machine awaits it.
pub open spec fn advance(progress: Progress, event: EventView) -> Option<Progress> {
    match next(progress.state, event) {
        None => None,
        Some((state, action)) => Some(
            Progress {
                events: progress.events.push(event),
                state,
                actions: progress.actions.push(action),
                held: if progress.actions.len() > 0 {
                    settle(progress.held, progress.actions.last(), event)
                } else {
                    progress.held
                },
            },
        ),
    }
}

/// The call after the given events, oldest first, or `None` where the
/// machine did not await one of them.
pub open spec fn run(events: Seq<EventView>) -> Option<Progress>
    decreases events.len(),
{
    if events.len() == 0 {
        Some(start())
    } else {
        match run(events.drop_last()) {
            None => None,
            Some(progress) => advance(progress, events.last()),
        }
    }
}

/// The greatest number of events that a call in `state` can still take.
pub open spec fn remaining(state: StateView) -> nat {
    match state {
        StateView::Entered => 9,
        StateView::DecodeDst => 8,
        StateView::DecodeSrc { .. } => 7,
        StateView::OpenSrc { .. } => 6,
        StateView::OpenDst { .. } => 5,
        StateView::Ioctl => 4,
        StateView::ReleaseDst { .. } => 3,
        StateView::ReleaseSrc { .. } => 2,
        StateView::Throwing { .. } => 1,
        StateView::Returned => 0,
        StateView::ThrewIllegalArgument => 0,
        StateView::ThrewIO => 0,
        StateView::Aborted => 0,
    }
}

/// The files that are open in each state.
pub open spec fn held_in(state: StateView) -> Held {
    Held {
        source: state is OpenDst || state is Ioctl || state is ReleaseDst || state is ReleaseSrc,
        destination: state is Ioctl || state is ReleaseDst,
    }
}

/// Whether `action` is the one that a call in `state` has handed out last.
pub open spec fn awaits(state: StateView, action: ActionView) -> bool {
    match state {
        StateView::Entered => false,
        StateView::DecodeDst => action == ActionView::Decode(Role::Destination),
        StateView::DecodeSrc { .. } => action == ActionView::Decode(Role::Source),
        StateView::OpenSrc { src, .. } => action == (ActionView::Open {
            role: Role::Source,
            path: src,
            mode: mode_of(Role::Source),
        }),
        StateView::OpenDst { dst } => action == (ActionView::Open {
            role: Role::Destination,
            path: dst,
            mode: mode_of(Role::Destination),
        }),
        StateView::Ioctl => action == (ActionView::Clone { request: FICLONE }),
        StateView::ReleaseDst { .. } => action == ActionView::Release(Role::Destination),
        StateView::ReleaseSrc { .. } => action == ActionView::Release(Role::Source),
        StateView::Throwing { exception } => action is Throw && action->exception == exception,
        StateView::Returned => action == ActionView::Return,
        StateView::ThrewIllegalArgument => action == ActionView::Return,
        StateView::ThrewIO => action == ActionView::Return,
        StateView::Aborted => action is Abort,
    }
}

/// A run that is one event longer is the shorter run, advanced by that
/// event.
pub proof fn lemma_run_push(events: Seq<EventView>, event: EventView)
    ensures
        run(events.push(event)) == match run(events) {
            None => None,
            Some(progress) => advance(progress, event),
        },
{
    assert(events.push(event).drop_last() =~= events);
}

/// Whatever came before a point of a run is a run too, so that what holds
/// of every run holds at every point of each.
pub proof fn lemma_run_prefix(events: Seq<EventView>, taken: int)
    requires
        run(events) is Some,
        0 <= taken <= events.len(),
    ensures
        run(events.take(taken)) is Some,
    decreases events.len(),
{
    if taken == events.len() {
        assert(events.take(taken) =~= events);
    } else {
        assert(events.drop_last().take(taken) =~= events.take(taken));
        lemma_run_prefix(events.drop_last(), taken);
    }
}

/// Every step brings the end of the call nearer.
pub proof fn lemma_step_descends(state: StateView, event: EventView)
    ensures
        next(state, event) matches Some((after, _)) ==> remaining(after) < remaining(state),
{
}

/// A terminal state awaits no event, and every other state awaits one.
pub proof fn lemma_terminal_is_final(state: StateView)
    ensures
        state.is_terminal() <==> forall|event: EventView| next(state, event) is None,
{
    if !state.is_terminal() {
        let event = match state {
            StateView::Entered => EventView::Called,
            StateView::DecodeDst | StateView::DecodeSrc { .. } => EventView::Decoded(
                Ok(Seq::empty()),
            ),
            StateView::OpenSrc { .. } | StateView::OpenDst { .. } => EventView::Opened(Ok(())),
            StateView::Ioctl => EventView::Cloned {
                status: 0,
                last_error: OsErrorView { code: None, text: Seq::empty() },
            },
            StateView::ReleaseDst { .. } | StateView::ReleaseSrc { .. } => EventView::Released,
            _ => EventView::Thrown(Ok(())),
        };
        assert(next(state, event) is Some);
    }
}

/// Nothing is retried: a call takes nine events at most. It keeps the
/// events that it took, and has handed out one action for each.
pub proof fn lemma_run_is_short(events: Seq<EventView>)
    requires
        run(events) is Some,
    ensures
        events.len() <= 9,
        remaining(run(events)->Some_0.state) + events.len() <= 9,
        run(events)->Some_0.events == events,
        run(events)->Some_0.actions.len() == events.len(),
    decreases events.len(),
{
    if events.len() > 0 {
        lemma_run_is_short(events.drop_last());
        lemma_step_descends(run(events.drop_last())->Some_0.state, events.last());
        assert(events.drop_last().push(events.last()) =~= events);
    } else {
        assert(events =~= Seq::empty());
    }
}

/// Each state of a run is the one that awaits the action handed out last,
/// and the files held open are those of that state.
pub proof fn lemma_state_tells_held(events: Seq<EventView>)
    requires
        run(events) is Some,
    ensures
        events.len() > 0 ==> awaits(
            run(events)->Some_0.state,
            run(events)->Some_0.actions.last(),
        ),
        events.len() == 0 ==> run(events)->Some_0.state is Entered,
        run(events)->Some_0.held == held_in(run(events)->Some_0.state),
    decreases events.len(),
{
    if events.len() > 0 {
        lemma_state_tells_held(events.drop_last());
        lemma_run_is_short(events.drop_last());
    }
}

/// Files are released on every path. In every run: a file is opened only
/// while none is held in its place, the kernel is asked to clone only while
/// both files are held, a file is released only while it is held, and
/// nothing is held any more when an exception is raised, control goes back
/// to the host or the process is ended.
pub proof fn lemma_files_released(events: Seq<EventView>)
    requires
        run(events) is Some,
        events.len() > 0,
    ensures
        ({
            let progress = run(events)->Some_0;
            match progress.actions.last() {
                ActionView::Decode(_) => progress.held == Held::none(),
                ActionView::Open { role, .. } => !progress.held.has(role),
                ActionView::Clone { .. } => progress.held.source && progress.held.destination,
                ActionView::Release(role) => progress.held.has(role),
                ActionView::Throw { .. } => progress.held == Held::none(),
                ActionView::Return => progress.held == Held::none(),
                ActionView::Abort { .. } => progress.held == Held::none(),
            }
        }),
        run(events)->Some_0.state.is_terminal() ==> run(events)->Some_0.held == Held::none(),
{
    lemma_state_tells_held(events);
    lemma_run_is_short(events);
}

/// What the host and the kernel answer in the course of one call. An
/// answer that the call never asks for does not matter.
pub struct Answers {
    /// The destination argument decoded, or the decoder's error.
    pub dst: Result<Seq<char>, Seq<char>>,
    /// The source argument decoded, or the decoder's error.
    pub src: Result<Seq<char>, Seq<char>>,
    /// Whether the kernel opens the source.
    pub open_src: Result<(), OsErrorView>,
    /// Whether the kernel opens the destination.
    pub open_dst: Result<(), OsErrorView>,
    /// The status with which the clone ioctl comes back.
    pub status: i32,
    /// The operating system's last error after the ioctl.
    pub last_error: OsErrorView,
    /// Whether the host accepts an exception.
    pub thrown: Result<(), Seq<char>>,
}

/// What the host sees of a call.
pub enum Outcome {
    /// The call came back without an exception.
    Returned,
    /// The call came back with an exception.
    Threw { exception: Exception, message: Seq<char> },
    /// The process was ended with a message.
    Aborted { message: Seq<char> },
}

/// The event with which a driver answers `action`, or `None` for an action
/// that ends the call.
pub open spec fn answer(answers: Answers, action: ActionView) -> Option<EventView> {
    match action {
        ActionView::Decode(Role::Destination) => Some(EventView::Decoded(answers.dst)),
        ActionView::Decode(Role::Source) => Some(EventView::Decoded(answers.src)),
        ActionView::Open { role: Role::Source, .. } => Some(EventView::Opened(answers.open_src)),
        ActionView::Open { role: Role::Destination, .. } => Some(
            EventView::Opened(answers.open_dst),
        ),
        ActionView::Clone { .. } => Some(
            EventView::Cloned { status: answers.status, last_error: answers.last_error },
        ),
        ActionView::Release(_) => Some(EventView::Released),
        ActionView::Throw { .. } => Some(EventView::Thrown(answers.thrown)),
        ActionView::Return => None,
        ActionView::Abort { .. } => None,
    }
}

/// The call as a driver carries it on from `progress` with `event`: each
/// action is answered as `answers` says, for `steps` further steps at most.
pub open spec fn play(answers: Answers, progress: Progress, event: EventView, steps: nat) -> Progress
    decreases steps,
{
    match advance(progress, event) {
        None => progress,
        Some(after) => match answer(answers, after.actions.last()) {
            None => after,
            Some(reply) => if steps == 0 {
                after
            } else {
                play(answers, after, reply, (steps - 1) as nat)
            },
        },
    }
}

/// A whole call, from the host's call to its end.
pub open spec fn call(answers: Answers) -> Progress {
    play(answers, start(), EventView::Called, 9)
}

/// What the host has seen of a call that is over: the exception that was
/// raised last, if any was, or the message with which the process ended.
pub open spec fn observed(progress: Progress) -> Outcome {
    let last = progress.actions.len() - 1;
    match progress.actions[last] {
        ActionView::Abort { message } => Outcome::Aborted { message },
        _ => if last >= 1 && progress.actions[last - 1] is Throw {
            Outcome::Threw {
                exception: progress.actions[last - 1]->exception,
                message: progress.actions[last - 1]->Throw_message,
            }
        } else {
            Outcome::Returned
        },
    }
}

/// What stands against a call, with the kind of exception that tells the
/// host of it: the first thing that went wrong, in the order destination
/// argument, source argument, source file, destination file, clone. A call
/// that nothing stands against has made the clone.
pub open spec fn failure_of(answers: Answers) -> Option<(Exception, Seq<char>)> {
    match (answers.dst, answers.src) {
        (Err(why), _) => Some(
            (Exception::IllegalArgument, invalid_argument_text(Role::Destination, why)),
        ),
        (Ok(_), Err(why)) => Some(
            (Exception::IllegalArgument, invalid_argument_text(Role::Source, why)),
        ),
        (Ok(dst), Ok(src)) => match (answers.open_src, answers.open_dst) {
            (Err(why), _) => Some(
                (Exception::Io, CopyErrorView::FileOpenError(src, why).message()),
            ),
            (Ok(()), Err(why)) => Some(
                (Exception::Io, CopyErrorView::FileOpenError(dst, why).message()),
            ),
            (Ok(()), Ok(())) => if answers.status == 0 {
                None
            } else {
                Some((Exception::Io, CopyErrorView::IoctlError(answers.last_error).message()))
            },
        },
    }
}

/// What the host is to see of a call: nothing where the clone was made,
/// else the exception for what went wrong, or the end of the process where
/// the host refuses that exception.
pub open spec fn outcome_of(answers: Answers) -> Outcome {
    match failure_of(answers) {
        None => Outcome::Returned,
        Some((exception, message)) => match answers.thrown {
            Ok(()) => Outcome::Threw { exception, message },
            Err(why) => Outcome::Aborted { message: throw_failure_text(why) },
        },
    }
}

/// The actions of a call up to the opening of the source.
pub open spec fn decoding(src: Seq<char>) -> Seq<ActionView> {
    Seq::empty().push(ActionView::Decode(Role::Destination)).push(
        ActionView::Decode(Role::Source),
    ).push(ActionView::Open { role: Role::Source, path: src, mode: mode_of(Role::Source) })
}

/// The actions of a call up to the clone.
pub open spec fn opening(dst: Seq<char>, src: Seq<char>) -> Seq<ActionView> {
    decoding(src).push(
        ActionView::Open {
            role: Role::Destination,
            path: dst,
            mode: mode_of(Role::Destination),
        },
    ).push(ActionView::Clone { request: FICLONE })
}

/// The actions of a call after the clone: the destination is released
/// before the source.
pub open spec fn releasing(dst: Seq<char>, src: Seq<char>) -> Seq<ActionView> {
    opening(dst, src).push(ActionView::Release(Role::Destination)).push(
        ActionView::Release(Role::Source),
    )
}

/// `actions`, then the exception, then what the host's answer to it leads
/// to: control goes back to the host, or the process is ended with the
/// host's reason for refusing.
pub open spec fn raising(
    actions: Seq<ActionView>,
    exception: Exception,
    message: Seq<char>,
    thrown: Result<(), Seq<char>>,
) -> Seq<ActionView> {
    actions.push(ActionView::Throw { exception, message }).push(
        match thrown {
            Ok(()) => ActionView::Return,
            Err(why) => ActionView::Abort { message: "failed to throw new exception: "@ + why },
        },
    )
}

/// What `play` makes of a run is a run.
proof fn lemma_play_is_a_run(answers: Answers, progress: Progress, event: EventView, steps: nat)
    requires
        run(progress.events) == Some(progress),
    ensures
        run(play(answers, progress, event, steps).events) == Some(
            play(answers, progress, event, steps),
        ),
    decreases steps,
{
    lemma_run_push(progress.events, event);
    if let Some(after) = advance(progress, event) {
        if let Some(reply) = answer(answers, after.actions.last()) {
            if steps > 0 {
                lemma_play_is_a_run(answers, after, reply, (steps - 1) as nat);
            }
        }
    }
}

/// A call is a run: the run of the events that the driver fed. So what
/// holds of every run holds of every call, and at every point of it.
pub proof fn lemma_call_is_a_run(answers: Answers)
    ensures
        run(call(answers).events) == Some(call(answers)),
{
    lemma_play_is_a_run(answers, start(), EventView::Called, 9);
}

/// The machine and a driver together do what a call is to do. Whatever the
/// host and the kernel answer, the call comes to an end, no file is held
/// then, and the host has seen exactly the outcome that the answers call
/// for. In particular the call returns without an exception only where
/// both arguments decoded, both files opened and the ioctl came back with
/// zero, and every other call raises its exception or ends the process.
pub proof fn lemma_call_outcome(answers: Answers)
    ensures
        call(answers).state.is_terminal(),
        call(answers).held == Held::none(),
        observed(call(answers)) == outcome_of(answers),
        call(answers).state is Returned <==> outcome_of(answers) is Returned,
        call(answers).state is Aborted <==> outcome_of(answers) is Aborted,
        call(answers).state is ThrewIO <==> outcome_of(answers) matches Outcome::Threw {
            exception: Exception::Io,
            ..
        },
        call(answers).state is ThrewIllegalArgument <==> outcome_of(answers) matches Outcome::Threw {
            exception: Exception::IllegalArgument,
            ..
        },
{
    reveal_with_fuel(play, 10);
}

/// A clone that the kernel made: the kernel was asked once, with both files
/// open; the destination is released, then the source, and the call
/// returns without an exception. What the operating system's last error
/// was does not matter.
pub proof fn lemma_clone_made(answers: Answers, dst: Seq<char>, src: Seq<char>)
    requires
        answers.dst == Ok::<Seq<char>, Seq<char>>(dst),
        answers.src == Ok::<Seq<char>, Seq<char>>(src),
        answers.open_src is Ok,
        answers.open_dst is Ok,
        answers.status == 0,
    ensures
        call(answers).state is Returned,
        call(answers).actions == releasing(dst, src).push(ActionView::Return),
{
    reveal_with_fuel(play, 10);
}

/// A destination argument that does not decode: an illegal-argument
/// exception that says so is raised, and nothing else was attempted,
/// whatever the source argument is.
pub proof fn lemma_invalid_destination(answers: Answers, why: Seq<char>)
    requires
        answers.dst == Err::<Seq<char>, Seq<char>>(why),
    ensures
        call(answers).actions == raising(
            seq![ActionView::Decode(Role::Destination)],
            Exception::IllegalArgument,
            "invalid dst: "@ + why,
            answers.thrown,
        ),
{
    reveal_with_fuel(play, 10);
}

/// A source argument that does not decode: an illegal-argument exception
/// that says so is raised, and no file was opened.
pub proof fn lemma_invalid_source(answers: Answers, why: Seq<char>)
    requires
        answers.dst is Ok,
        answers.src == Err::<Seq<char>, Seq<char>>(why),
    ensures
        call(answers).actions == raising(
            seq![ActionView::Decode(Role::Destination)].push(ActionView::Decode(Role::Source)),
            Exception::IllegalArgument,
            "invalid src: "@ + why,
            answers.thrown,
        ),
{
    reveal_with_fuel(play, 10);
}

/// A source that cannot be opened, one that does not exist among them: an
/// I/O exception is raised whose message is that of the `FileOpenError`
/// naming the source path with the kernel's error. The destination was not
/// opened, so the call did not create it.
pub proof fn lemma_source_refused(
    answers: Answers,
    dst: Seq<char>,
    src: Seq<char>,
    why: OsErrorView,
)
    requires
        answers.dst == Ok::<Seq<char>, Seq<char>>(dst),
        answers.src == Ok::<Seq<char>, Seq<char>>(src),
        answers.open_src == Err::<(), OsErrorView>(why),
    ensures
        call(answers).actions == raising(
            decoding(src),
            Exception::Io,
            "error opening file `"@ + src + "`: "@ + why.text,
            answers.thrown,
        ),
{
    reveal_with_fuel(play, 10);
}

/// A destination that cannot be opened, be it a directory or a path whose
/// parent is missing: the source is released, then an I/O exception is
/// raised whose message is that of the `FileOpenError` naming the
/// destination path with the kernel's error. The kernel was not asked to
/// clone.
pub proof fn lemma_destination_refused(
    answers: Answers,
    dst: Seq<char>,
    src: Seq<char>,
    why: OsErrorView,
)
    requires
        answers.dst == Ok::<Seq<char>, Seq<char>>(dst),
        answers.src == Ok::<Seq<char>, Seq<char>>(src),
        answers.open_src is Ok,
        answers.open_dst == Err::<(), OsErrorView>(why),
    ensures
        call(answers).actions == raising(
            decoding(src).push(
                ActionView::Open {
                    role: Role::Destination,
                    path: dst,
                    mode: mode_of(Role::Destination),
                },
            ).push(ActionView::Release(Role::Source)),
            Exception::Io,
            "error opening file `"@ + dst + "`: "@ + why.text,
            answers.thrown,
        ),
{
    reveal_with_fuel(play, 10);
}

/// A clone that the kernel refused, across file systems or on one without
/// reflinks: both files are released, the destination first, then an I/O
/// exception is raised whose message is that of the `IoctlError` with the
/// operating system's error as it was captured, whatever the status other
/// than zero.
pub proof fn lemma_clone_refused(answers: Answers, dst: Seq<char>, src: Seq<char>)
    requires
        answers.dst == Ok::<Seq<char>, Seq<char>>(dst),
        answers.src == Ok::<Seq<char>, Seq<char>>(src),
        answers.open_src is Ok,
        answers.open_dst is Ok,
        answers.status != 0,
    ensures
        call(answers).actions == raising(
            releasing(dst, src),
            Exception::Io,
            "ioctl error: "@ + answers.last_error.text,
            answers.thrown,
        ),
{
    reveal_with_fuel(play, 10);
}

} // verus!
