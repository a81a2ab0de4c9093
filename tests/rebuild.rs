use selfbuild::rebuild::{
    Action, Event, Failure, Outcome, Phase, Rebuild, EXIT_NO_PROGRAM_PATH, EXIT_REBUILD_FAILED,
    EXIT_UNKNOWN,
};
use selfbuild::staleness::Timestamp;

fn started(forwarded: Vec<Vec<u8>>) -> Rebuild {
    let (rb, action) = Rebuild::start(Some(b"./prog".to_vec()), b"prog.rs".to_vec(), forwarded);
    match action {
        Action::ReadTimes { target, source } => {
            assert_eq!(target, b"./prog".to_vec());
            assert_eq!(source, b"prog.rs".to_vec());
        }
        other => panic!("unexpected action {:?}", other),
    }
    assert_eq!(rb.phase, Phase::Checking);
    rb
}

fn stale_times() -> Event {
    Event::Times {
        target: Some(Timestamp::after_epoch(100, 0)),
        source: Some(Timestamp::after_epoch(200, 0)),
    }
}

fn renamed(forwarded: Vec<Vec<u8>>) -> Rebuild {
    let mut rb = started(forwarded);
    assert!(rb.accepts(&stale_times()));
    match rb.step(stale_times()) {
        Action::Rename { from, to, notice } => {
            assert_eq!(from, b"./prog".to_vec());
            assert_eq!(to, b"./prog.old".to_vec());
            assert_eq!(notice, b"[INFO] renaming ./prog -> ./prog.old\n".to_vec());
        }
        other => panic!("unexpected action {:?}", other),
    }
    assert_eq!(rb.phase, Phase::Renaming);
    rb
}

fn compiling(forwarded: Vec<Vec<u8>>) -> Rebuild {
    let mut rb = renamed(forwarded);
    match rb.step(Event::Renamed { ok: true }) {
        Action::Run { program, args, trace } => {
            assert_eq!(program, b"rustc".to_vec());
            assert_eq!(args, vec![b"prog.rs".to_vec(), b"-o".to_vec(), b"./prog".to_vec()]);
            assert_eq!(trace, b"[CMD] rustc prog.rs -o ./prog\n".to_vec());
        }
        other => panic!("unexpected action {:?}", other),
    }
    assert_eq!(rb.phase, Phase::Compiling);
    rb
}

#[test]
fn rebuild_scenario_relaunches_and_exits_with_its_code() {
    let forwarded = vec![b"--flag".to_vec(), b"two words".to_vec()];
    let mut rb = compiling(forwarded.clone());
    let done = Event::Ran { outcome: Outcome::Finished { success: true, code: Some(0) } };
    match rb.step(done) {
        Action::Run { program, args, trace } => {
            assert_eq!(program, b"./prog".to_vec());
            assert_eq!(args, forwarded);
            assert_eq!(trace, b"[CMD] ./prog --flag 'two words'\n".to_vec());
        }
        other => panic!("unexpected action {:?}", other),
    }
    assert_eq!(rb.phase, Phase::Relaunching);
    let ran = Event::Ran { outcome: Outcome::Finished { success: false, code: Some(7) } };
    assert!(rb.accepts(&ran));
    assert!(matches!(rb.step(ran), Action::Exit { code: 7 }));
    assert_eq!(rb.phase, Phase::Done);
}

#[test]
fn relaunched_without_code_exits_unknown() {
    let mut rb = compiling(vec![]);
    rb.step(Event::Ran { outcome: Outcome::Finished { success: true, code: Some(0) } });
    let killed = Event::Ran { outcome: Outcome::Finished { success: false, code: None } };
    assert!(matches!(rb.step(killed), Action::Exit { code: EXIT_UNKNOWN }));
    assert_eq!(EXIT_UNKNOWN, -1);
}

#[test]
fn failed_compile_exits_with_compiler_code() {
    let mut rb = compiling(vec![b"x".to_vec()]);
    let failed = Event::Ran { outcome: Outcome::Finished { success: false, code: Some(1) } };
    assert!(matches!(rb.step(failed), Action::Exit { code: 1 }));
    assert_eq!(rb.phase, Phase::Done);
}

#[test]
fn failed_compile_without_code_exits_unknown() {
    let mut rb = compiling(vec![]);
    let failed = Event::Ran { outcome: Outcome::Finished { success: false, code: None } };
    assert!(matches!(rb.step(failed), Action::Exit { code: -1 }));
}

#[test]
fn no_rebuild_scenario_continues() {
    let mut rb = started(vec![b"a".to_vec()]);
    let fresh = Event::Times {
        target: Some(Timestamp::after_epoch(200, 0)),
        source: Some(Timestamp::after_epoch(100, 0)),
    };
    assert!(matches!(rb.step(fresh), Action::Continue));
    assert_eq!(rb.phase, Phase::Done);
    assert!(!rb.accepts(&Event::Renamed { ok: true }));
}

#[test]
fn equal_times_continue() {
    let mut rb = started(vec![]);
    let t = Some(Timestamp::after_epoch(150, 3));
    assert!(matches!(rb.step(Event::Times { target: t, source: t }), Action::Continue));
    assert_eq!(rb.phase, Phase::Done);
}

#[test]
fn missing_times_rebuild() {
    let mut rb = started(vec![]);
    let ev = Event::Times { target: None, source: Some(Timestamp::after_epoch(1, 0)) };
    assert!(matches!(rb.step(ev), Action::Rename { .. }));
    let mut rb = started(vec![]);
    let ev = Event::Times { target: Some(Timestamp::after_epoch(1, 0)), source: None };
    assert!(matches!(rb.step(ev), Action::Rename { .. }));
}

#[test]
fn missing_program_path_aborts() {
    let (rb, action) = Rebuild::start(None, b"prog.rs".to_vec(), vec![]);
    assert_eq!(rb.phase, Phase::Done);
    assert!(matches!(
        action,
        Action::Abort { failure: Failure::NoProgramPath, code: EXIT_NO_PROGRAM_PATH }
    ));
}

#[test]
fn failed_rename_aborts() {
    let mut rb = renamed(vec![]);
    let action = rb.step(Event::Renamed { ok: false });
    assert!(matches!(
        action,
        Action::Abort { failure: Failure::RenameFailed, code: EXIT_REBUILD_FAILED }
    ));
    assert_eq!(rb.phase, Phase::Done);
}

#[test]
fn unstarted_command_aborts() {
    let mut rb = compiling(vec![]);
    let action = rb.step(Event::Ran { outcome: Outcome::NotStarted });
    assert!(matches!(
        action,
        Action::Abort { failure: Failure::LaunchFailed, code: EXIT_REBUILD_FAILED }
    ));
    assert_eq!(rb.phase, Phase::Done);
    assert_ne!(EXIT_NO_PROGRAM_PATH, EXIT_REBUILD_FAILED);
}
