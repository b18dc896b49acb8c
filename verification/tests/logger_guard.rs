use kbackup_cow::logger::{init, Logger, Setup};

#[test]
fn first_init_installs() {
    assert_eq!(init(Logger::Absent), (Logger::Installed, Setup::Install));
}

#[test]
fn later_init_skips() {
    assert_eq!(init(Logger::Installed), (Logger::Installed, Setup::Skip));
}

#[test]
fn many_inits_install_once() {
    let mut logger = Logger::Absent;
    let mut installs: u32 = 0;
    for _ in 0..50 {
        let (after, setup) = init(logger);
        if setup == Setup::Install {
            installs += 1;
        }
        logger = after;
    }
    assert_eq!(logger, Logger::Installed);
    assert_eq!(installs, 1);
    assert_eq!(logger, init(Logger::Absent).0);
}
