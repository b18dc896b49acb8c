use kbackup_cow::call::{step, Action, Event, State};
use kbackup_cow::error::OsError;
use kbackup_cow::host::Exception;
use kbackup_cow::logger::{init, Logger};
use kbackup_cow::open::{open_mode, Role};

/// What the host and the kernel answer in one call.
struct World {
    dst: Result<String, String>,
    src: Result<String, String>,
    open_src: Result<(), OsError>,
    open_dst: Result<(), OsError>,
    status: i32,
    last_error: OsError,
    thrown: Result<(), String>,
}

/// What a driver saw of one call.
struct Seen {
    state: State,
    actions: Vec<Action>,
    events: usize,
    source_held: bool,
    destination_held: bool,
}

fn os_error(code: i32) -> OsError {
    let error = std::io::Error::from_raw_os_error(code);
    OsError { code: error.raw_os_error(), text: error.to_string() }
}

fn copy_of(error: &OsError) -> OsError {
    OsError { code: error.code, text: error.text.clone() }
}

fn fine(dst: &str, src: &str) -> World {
    World {
        dst: Ok(String::from(dst)),
        src: Ok(String::from(src)),
        open_src: Ok(()),
        open_dst: Ok(()),
        status: 0,
        last_error: OsError { code: Some(0), text: String::from("Success (os error 0)") },
        thrown: Ok(()),
    }
}

/// Drives one call to its end, answering each action as the world says, and
/// checks on the way that files are opened, used and released in order.
fn drive(world: &World) -> Seen {
    let mut seen = Seen {
        state: State::Entered,
        actions: Vec::new(),
        events: 0,
        source_held: false,
        destination_held: false,
    };
    let mut event = Event::Called;
    loop {
        let state = std::mem::replace(&mut seen.state, State::Entered);
        let (next, action) = step(state, event).expect("the machine awaits the driver's answer");
        seen.events += 1;
        seen.state = next;
        let answer = match &action {
            Action::Decode(Role::Destination) => {
                assert!(!seen.source_held && !seen.destination_held);
                Some(Event::Decoded(world.dst.clone()))
            }
            Action::Decode(Role::Source) => {
                assert!(!seen.source_held && !seen.destination_held);
                Some(Event::Decoded(world.src.clone()))
            }
            Action::Open { role: Role::Source, mode, .. } => {
                assert!(!seen.source_held);
                assert_eq!(*mode, open_mode(Role::Source));
                seen.source_held = world.open_src.is_ok();
                Some(Event::Opened(world.open_src.as_ref().map(|_| ()).map_err(copy_of)))
            }
            Action::Open { role: Role::Destination, mode, .. } => {
                assert!(!seen.destination_held);
                assert_eq!(*mode, open_mode(Role::Destination));
                seen.destination_held = world.open_dst.is_ok();
                Some(Event::Opened(world.open_dst.as_ref().map(|_| ()).map_err(copy_of)))
            }
            Action::Clone { request } => {
                assert!(seen.source_held && seen.destination_held);
                assert_eq!(*request, 0x4004_9409);
                Some(Event::Cloned { status: world.status, last_error: copy_of(&world.last_error) })
            }
            Action::Release(Role::Source) => {
                assert!(seen.source_held);
                seen.source_held = false;
                Some(Event::Released)
            }
            Action::Release(Role::Destination) => {
                assert!(seen.destination_held);
                seen.destination_held = false;
                Some(Event::Released)
            }
            Action::Throw { .. } => {
                assert!(!seen.source_held && !seen.destination_held);
                Some(Event::Thrown(world.thrown.clone()))
            }
            Action::Return | Action::Abort { .. } => {
                assert!(!seen.source_held && !seen.destination_held);
                None
            }
        };
        seen.actions.push(action);
        match answer {
            Some(answer) => event = answer,
            None => break,
        }
    }
    assert!(seen.state.is_terminal());
    assert!(seen.events <= 9);
    assert_eq!(seen.actions.len(), seen.events);
    seen
}

fn open(role: Role, path: &str) -> Action {
    Action::Open { role, path: String::from(path), mode: open_mode(role) }
}

fn throw(exception: Exception, message: &str) -> Action {
    Action::Throw { exception, message: String::from(message) }
}

#[test]
fn clone_on_one_file_system_returns() {
    let seen = drive(&fine("/mnt/btrfs/b", "/mnt/btrfs/a"));
    assert_eq!(seen.state, State::Returned);
    assert_eq!(
        seen.actions,
        vec![
            Action::Decode(Role::Destination),
            Action::Decode(Role::Source),
            open(Role::Source, "/mnt/btrfs/a"),
            open(Role::Destination, "/mnt/btrfs/b"),
            Action::Clone { request: 0x4004_9409 },
            Action::Release(Role::Destination),
            Action::Release(Role::Source),
            Action::Return,
        ]
    );
}

#[test]
fn clone_across_devices_throws_io_exception() {
    let mut world = fine("/tmp/b", "/mnt/btrfs/a");
    world.status = -1;
    world.last_error = os_error(nix::libc::EXDEV);
    let rendering = world.last_error.text.clone();
    let seen = drive(&world);
    assert_eq!(seen.state, State::ThrewIO);
    assert_eq!(
        seen.actions,
        vec![
            Action::Decode(Role::Destination),
            Action::Decode(Role::Source),
            open(Role::Source, "/mnt/btrfs/a"),
            open(Role::Destination, "/tmp/b"),
            Action::Clone { request: 0x4004_9409 },
            Action::Release(Role::Destination),
            Action::Release(Role::Source),
            throw(Exception::Io, &format!("ioctl error: {}", rendering)),
            Action::Return,
        ]
    );
    assert!(rendering.contains(&format!("os error {}", nix::libc::EXDEV)));
}

#[test]
fn clone_without_reflink_support_throws_io_exception() {
    let mut world = fine("/tmp/b", "/tmp/a");
    world.status = -1;
    world.last_error = os_error(nix::libc::EOPNOTSUPP);
    let rendering = world.last_error.text.clone();
    let seen = drive(&world);
    assert_eq!(seen.state, State::ThrewIO);
    assert_eq!(seen.actions[7], throw(Exception::Io, &format!("ioctl error: {}", rendering)));
    assert!(rendering.contains(&format!("os error {}", nix::libc::EOPNOTSUPP)));
}

#[test]
fn any_nonzero_status_is_a_refusal() {
    for status in [i32::MIN, -2, -1, 1, 2, i32::MAX] {
        let mut world = fine("/tmp/b", "/tmp/a");
        world.status = status;
        world.last_error = OsError { code: Some(22), text: String::from("EINVAL") };
        let seen = drive(&world);
        assert_eq!(seen.state, State::ThrewIO);
        assert_eq!(seen.actions[7], throw(Exception::Io, "ioctl error: EINVAL"));
    }
}

#[test]
fn missing_source_throws_io_exception_naming_it() {
    let mut world = fine("/tmp/b", "/nonexistent");
    world.open_src = Err(os_error(nix::libc::ENOENT));
    let seen = drive(&world);
    assert_eq!(seen.state, State::ThrewIO);
    assert_eq!(seen.actions.len(), 5);
    assert_eq!(seen.actions[2], open(Role::Source, "/nonexistent"));
    match &seen.actions[3] {
        Action::Throw { exception, message } => {
            assert_eq!(*exception, Exception::Io);
            assert!(message.starts_with("error opening file `/nonexistent`: "));
            assert!(message.contains("No such file"));
        }
        other => panic!("expected an exception, got {:?}", other),
    }
    assert_eq!(seen.actions[4], Action::Return);
}

#[test]
fn missing_source_leaves_the_destination_alone() {
    let mut world = fine("/tmp/b", "/nonexistent");
    world.open_src = Err(os_error(nix::libc::ENOENT));
    let seen = drive(&world);
    for action in &seen.actions {
        assert!(!matches!(action, Action::Open { role: Role::Destination, .. }));
        assert!(!matches!(action, Action::Clone { .. }));
        assert!(!matches!(action, Action::Release(_)));
    }
}

#[test]
fn destination_that_is_a_directory_throws_io_exception_naming_it() {
    let mut world = fine("/tmp", "/mnt/btrfs/a");
    world.open_dst = Err(OsError {
        code: Some(nix::libc::EISDIR),
        text: String::from("Is a directory (os error 21)"),
    });
    let seen = drive(&world);
    assert_eq!(seen.state, State::ThrewIO);
    assert_eq!(
        seen.actions,
        vec![
            Action::Decode(Role::Destination),
            Action::Decode(Role::Source),
            open(Role::Source, "/mnt/btrfs/a"),
            open(Role::Destination, "/tmp"),
            Action::Release(Role::Source),
            throw(Exception::Io, "error opening file `/tmp`: Is a directory (os error 21)"),
            Action::Return,
        ]
    );
}

#[test]
fn destination_without_parent_is_an_open_error_not_an_ioctl_error() {
    let mut world = fine("/no/such/dir/b", "/mnt/btrfs/a");
    world.open_dst = Err(os_error(nix::libc::ENOENT));
    let seen = drive(&world);
    match &seen.actions[5] {
        Action::Throw { exception, message } => {
            assert_eq!(*exception, Exception::Io);
            assert!(message.starts_with("error opening file `/no/such/dir/b`: "));
        }
        other => panic!("expected an exception, got {:?}", other),
    }
}

#[test]
fn invalid_source_throws_illegal_argument() {
    let mut world = fine("/tmp/b", "");
    world.src = Err(String::from("Null pointer in get_string obj argument"));
    let seen = drive(&world);
    assert_eq!(seen.state, State::ThrewIllegalArgument);
    assert_eq!(
        seen.actions,
        vec![
            Action::Decode(Role::Destination),
            Action::Decode(Role::Source),
            throw(
                Exception::IllegalArgument,
                "invalid src: Null pointer in get_string obj argument"
            ),
            Action::Return,
        ]
    );
}

#[test]
fn invalid_destination_throws_illegal_argument() {
    let mut world = fine("", "/mnt/btrfs/a");
    world.dst = Err(String::from("Null pointer in get_string obj argument"));
    let seen = drive(&world);
    assert_eq!(seen.state, State::ThrewIllegalArgument);
    assert_eq!(
        seen.actions,
        vec![
            Action::Decode(Role::Destination),
            throw(
                Exception::IllegalArgument,
                "invalid dst: Null pointer in get_string obj argument"
            ),
            Action::Return,
        ]
    );
}

#[test]
fn invalid_destination_is_reported_before_an_invalid_source() {
    let mut world = fine("", "");
    world.dst = Err(String::from("bad"));
    world.src = Err(String::from("worse"));
    let seen = drive(&world);
    assert_eq!(seen.actions[1], throw(Exception::IllegalArgument, "invalid dst: bad"));
}

#[test]
fn refused_exception_ends_the_process() {
    let mut world = fine("/tmp/b", "/nonexistent");
    world.open_src = Err(os_error(nix::libc::ENOENT));
    world.thrown = Err(String::from("Java exception was thrown"));
    let seen = drive(&world);
    assert_eq!(seen.state, State::Aborted);
    assert_eq!(
        seen.actions.last(),
        Some(&Action::Abort {
            message: String::from("failed to throw new exception: Java exception was thrown"),
        })
    );
}

#[test]
fn refused_illegal_argument_exception_ends_the_process() {
    let mut world = fine("/tmp/b", "/tmp/a");
    world.src = Err(String::from("bad"));
    world.thrown = Err(String::from("class not found"));
    let seen = drive(&world);
    assert_eq!(seen.state, State::Aborted);
    assert_eq!(
        seen.actions,
        vec![
            Action::Decode(Role::Destination),
            Action::Decode(Role::Source),
            throw(Exception::IllegalArgument, "invalid src: bad"),
            Action::Abort { message: String::from("failed to throw new exception: class not found") },
        ]
    );
}

#[test]
fn clone_of_a_file_onto_itself_is_not_special() {
    let seen = drive(&fine("/mnt/btrfs/a", "/mnt/btrfs/a"));
    assert_eq!(seen.state, State::Returned);
    assert_eq!(seen.actions[2], open(Role::Source, "/mnt/btrfs/a"));
    assert_eq!(seen.actions[3], open(Role::Destination, "/mnt/btrfs/a"));
}

#[test]
fn empty_paths_go_to_the_open_step() {
    let mut world = fine("", "");
    world.open_src = Err(os_error(nix::libc::ENOENT));
    let seen = drive(&world);
    assert_eq!(seen.actions[2], open(Role::Source, ""));
    assert_eq!(seen.state, State::ThrewIO);
}

#[test]
fn second_call_does_what_the_first_did() {
    let world = fine("/mnt/btrfs/b", "/mnt/btrfs/a");
    let first = drive(&world);
    let second = drive(&world);
    assert_eq!(first.state, second.state);
    assert_eq!(first.actions, second.actions);
}

#[test]
fn call_behaves_alike_after_one_init_and_after_two() {
    let (once, _) = init(Logger::Absent);
    let after_one = drive(&fine("/mnt/btrfs/b", "/mnt/btrfs/a"));
    let (twice, _) = init(once);
    let after_two = drive(&fine("/mnt/btrfs/b", "/mnt/btrfs/a"));
    assert_eq!(once, twice);
    assert_eq!(after_one.state, after_two.state);
    assert_eq!(after_one.actions, after_two.actions);
}

#[test]
fn call_works_without_init() {
    let seen = drive(&fine("/mnt/btrfs/b", "/mnt/btrfs/a"));
    assert_eq!(seen.state, State::Returned);
}

#[test]
fn entered_awaits_only_the_call() {
    assert_eq!(step(State::Entered, Event::Released), None);
    assert_eq!(step(State::Entered, Event::Opened(Ok(()))), None);
    assert_eq!(step(State::Entered, Event::Decoded(Ok(String::from("/tmp/a")))), None);
    assert_eq!(
        step(State::Entered, Event::Called),
        Some((State::DecodeDst, Action::Decode(Role::Destination)))
    );
}

#[test]
fn states_refuse_events_they_do_not_await() {
    assert_eq!(step(State::DecodeDst, Event::Called), None);
    assert_eq!(step(State::DecodeSrc { dst: String::from("/tmp/b") }, Event::Released), None);
    assert_eq!(
        step(
            State::OpenSrc { dst: String::from("/tmp/b"), src: String::from("/tmp/a") },
            Event::Thrown(Ok(())),
        ),
        None
    );
    assert_eq!(step(State::OpenDst { dst: String::from("/tmp/b") }, Event::Called), None);
    assert_eq!(step(State::Ioctl, Event::Opened(Ok(()))), None);
    assert_eq!(step(State::ReleaseDst { failure: None }, Event::Called), None);
    assert_eq!(step(State::ReleaseSrc { failure: None }, Event::Thrown(Ok(()))), None);
    assert_eq!(step(State::Throwing { exception: Exception::Io }, Event::Released), None);
}

#[test]
fn terminal_states_take_no_event() {
    let terminal = [
        || State::Returned,
        || State::ThrewIllegalArgument,
        || State::ThrewIO,
        || State::Aborted,
    ];
    for state in terminal {
        assert!(state().is_terminal());
        assert_eq!(step(state(), Event::Called), None);
        assert_eq!(step(state(), Event::Released), None);
        assert_eq!(step(state(), Event::Thrown(Ok(()))), None);
        assert_eq!(step(state(), Event::Opened(Ok(()))), None);
        assert_eq!(step(state(), Event::Decoded(Ok(String::new()))), None);
        assert_eq!(
            step(
                state(),
                Event::Cloned { status: 0, last_error: OsError { code: None, text: String::new() } },
            ),
            None
        );
    }
}

#[test]
fn states_under_way_are_not_terminal() {
    assert!(!State::Entered.is_terminal());
    assert!(!State::DecodeDst.is_terminal());
    assert!(!State::DecodeSrc { dst: String::new() }.is_terminal());
    assert!(!State::OpenSrc { dst: String::new(), src: String::new() }.is_terminal());
    assert!(!State::OpenDst { dst: String::new() }.is_terminal());
    assert!(!State::Ioctl.is_terminal());
    assert!(!State::ReleaseDst { failure: None }.is_terminal());
    assert!(!State::ReleaseSrc { failure: None }.is_terminal());
    assert!(!State::Throwing { exception: Exception::Io }.is_terminal());
}

#[test]
fn longest_call_takes_nine_events() {
    let mut world = fine("/tmp/b", "/tmp/a");
    world.status = -1;
    let seen = drive(&world);
    assert_eq!(seen.events, 9);
}

#[test]
fn every_call_ends_as_its_answers_call_for() {
    let refusal = OsError { code: Some(13), text: String::from("Permission denied (os error 13)") };
    for bits in 0..64u32 {
        let ok = |bit: u32| bits & (1 << bit) == 0;
        let world = World {
            dst: if ok(0) { Ok(String::from("/d")) } else { Err(String::from("no dst")) },
            src: if ok(1) { Ok(String::from("/s")) } else { Err(String::from("no src")) },
            open_src: if ok(2) { Ok(()) } else { Err(copy_of(&refusal)) },
            open_dst: if ok(3) { Ok(()) } else { Err(copy_of(&refusal)) },
            status: if ok(4) { 0 } else { -1 },
            last_error: copy_of(&refusal),
            thrown: if ok(5) { Ok(()) } else { Err(String::from("no class")) },
        };
        let failure = if !ok(0) {
            Some((Exception::IllegalArgument, String::from("invalid dst: no dst")))
        } else if !ok(1) {
            Some((Exception::IllegalArgument, String::from("invalid src: no src")))
        } else if !ok(2) {
            Some((
                Exception::Io,
                String::from("error opening file `/s`: Permission denied (os error 13)"),
            ))
        } else if !ok(3) {
            Some((
                Exception::Io,
                String::from("error opening file `/d`: Permission denied (os error 13)"),
            ))
        } else if !ok(4) {
            Some((Exception::Io, String::from("ioctl error: Permission denied (os error 13)")))
        } else {
            None
        };
        let seen = drive(&world);
        let count = seen.actions.len();
        match failure {
            None => {
                assert_eq!(seen.state, State::Returned);
                assert_eq!(seen.actions[count - 1], Action::Return);
                assert!(seen.actions.iter().all(|action| !matches!(action, Action::Throw { .. })));
            }
            Some((exception, message)) => {
                assert_eq!(seen.actions[count - 2], Action::Throw { exception, message });
                if ok(5) {
                    let expected = match exception {
                        Exception::IllegalArgument => State::ThrewIllegalArgument,
                        Exception::Io => State::ThrewIO,
                    };
                    assert_eq!(seen.state, expected);
                    assert_eq!(seen.actions[count - 1], Action::Return);
                } else {
                    assert_eq!(seen.state, State::Aborted);
                    assert_eq!(
                        seen.actions[count - 1],
                        Action::Abort {
                            message: String::from("failed to throw new exception: no class"),
                        }
                    );
                }
            }
        }
        let clones = seen.actions.iter().filter(|action| matches!(action, Action::Clone { .. }));
        assert_eq!(clones.count(), if ok(0) && ok(1) && ok(2) && ok(3) { 1 } else { 0 });
    }
}
