//! The decisions of the self-rebuild protocol, as a state machine: the host
//! performs each action (read times, rename, run a command, exit) and hands
//! back what came of it as an event.
//!
//! Check the times of the program and its source; if the program is stale,
//! move it aside to `<program>.old`, compile the source to the program's path,
//! and on success run the new program with the forwarded arguments, exiting
//! with its code; on a failed compile exit with the compiler's code.

use vstd::prelude::*;
use vstd::slice::slice_to_vec;
use crate::quoting::{LF, SPACE, trace_line, trace_line_of};
use crate::staleness::{Timestamp, is_stale, needs_rebuild};

verus! {

/// Exit status when the process cannot learn its own path.
pub const EXIT_NO_PROGRAM_PATH: i32 = 1;

/// Exit status when the rebuild itself fails: the program could not be moved
/// aside, or a command could not be started.
pub const EXIT_REBUILD_FAILED: i32 = 101;

/// Exit status that stands for a command that ended without a code.
pub const EXIT_UNKNOWN: i32 = -1;

/// `rustc`, the compiler that rebuilds the program.
pub open spec fn compiler() -> Seq<u8> {
    seq![114u8, 117u8, 115u8, 116u8, 99u8]
}

/// `-o`, the compiler's flag for the output path.
pub open spec fn output_flag() -> Seq<u8> {
    seq![45u8, 111u8]
}

/// `.old`, the suffix of the path the stale program is moved to.
pub open spec fn old_suffix() -> Seq<u8> {
    seq![46u8, 111u8, 108u8, 100u8]
}

/// `[INFO] renaming `
pub open spec fn info_tag() -> Seq<u8> {
    seq![91u8, 73u8, 78u8, 70u8, 79u8, 93u8, SPACE, 114u8, 101u8, 110u8, 97u8, 109u8, 105u8, 110u8, 103u8, SPACE]
}

/// ` -> `
pub open spec fn arrow() -> Seq<u8> {
    seq![SPACE, 45u8, 62u8, SPACE]
}

/// Where the stale program is moved: its path with `.old` appended.
pub open spec fn old_path(program: Seq<u8>) -> Seq<u8> {
    program + old_suffix()
}

/// The line printed before the program is moved aside:
/// `[INFO] renaming <program> -> <program>.old` and a newline.
pub open spec fn notice_of(program: Seq<u8>) -> Seq<u8> {
    info_tag() + program + arrow() + old_path(program) + seq![LF]
}

/// The compiler's arguments: the source, `-o`, and the program's path.
pub open spec fn compile_args(source: Seq<u8>, program: Seq<u8>) -> Seq<Seq<u8>> {
    seq![source, output_flag(), program]
}

/// The byte strings held by `args`, in order.
pub open spec fn views(args: Seq<Vec<u8>>) -> Seq<Seq<u8>> {
    args.map_values(|a: Vec<u8>| a@)
}

/// The code this process exits with after a command ended with `code`.
pub open spec fn exit_code_of(code: Option<i32>) -> i32 {
    match code {
        Some(c) => c,
        None => EXIT_UNKNOWN,
    }
}

/// Where the protocol stands.
#[derive(Clone, Copy, Debug, PartialEq, Eq, Structural)]
pub enum Phase {
    /// Waiting for the modification times.
    Checking,
    /// Waiting for the stale program to be moved aside.
    Renaming,
    /// Waiting for the compiler.
    Compiling,
    /// Waiting for the rebuilt program.
    Relaunching,
    /// Nothing more to do.
    Done,
}

/// Why the protocol gave up.
#[derive(Clone, Copy, Debug, PartialEq, Eq, Structural)]
pub enum Failure {
    /// The process could not learn its own path.
    NoProgramPath,
    /// The stale program could not be moved aside.
    RenameFailed,
    /// A command could not be traced or started.
    LaunchFailed,
}

/// What came of running a command.
#[derive(Clone, Copy, Debug, PartialEq, Eq, Structural)]
pub enum Outcome {
    /// The trace could not be written or the command could not be started.
    NotStarted,
    /// The command ran to its end.
    Finished { success: bool, code: Option<i32> },
}

/// What the host reports back after performing an action.
#[derive(Clone, Copy, Debug, PartialEq, Eq, Structural)]
pub enum Event {
    /// The modification times of the program and of its source, `None` where
    /// a time could not be read.
    Times { target: Option<Timestamp>, source: Option<Timestamp> },
    /// Whether the rename succeeded.
    Renamed { ok: bool },
    /// What came of the command.
    Ran { outcome: Outcome },
}

/// What the host is to do next.
#[derive(Debug)]
pub enum Action {
    /// Read the modification times of `target` and `source`.
    ReadTimes { target: Vec<u8>, source: Vec<u8> },
    /// Print `notice`, then rename `from` to `to`.
    Rename { from: Vec<u8>, to: Vec<u8>, notice: Vec<u8> },
    /// Print `trace`, then run `program` with `args` and wait for it.
    Run { program: Vec<u8>, args: Vec<Vec<u8>>, trace: Vec<u8> },
    /// Nothing to rebuild: return to the host program.
    Continue,
    /// Exit with `code`.
    Exit { code: i32 },
    /// Report `failure` and exit with `code`.
    Abort { failure: Failure, code: i32 },
}

/// `a` is the action that runs `program` with `args`, traced.
pub open spec fn runs(a: Action, program: Seq<u8>, args: Seq<Seq<u8>>) -> bool {
    a matches Action::Run { program: p, args: xs, trace } && p@ == program && views(xs@) == args
        && trace@ == trace_line_of(p@, xs@)
}

/// `a` gives up for `failure` with `code`.
pub open spec fn aborts(a: Action, failure: Failure, code: i32) -> bool {
    a matches Action::Abort { failure: f, code: c } && f == failure && c == code
}

/// The state of one run of the protocol.
pub struct Rebuild {
    /// The path the running program was started from.
    pub program: Vec<u8>,
    /// The path of the program's source.
    pub source: Vec<u8>,
    /// The arguments to hand to the rebuilt program.
    pub forwarded: Vec<Vec<u8>>,
    /// Where the protocol stands.
    pub phase: Phase,
}

fn copy_args(args: &Vec<Vec<u8>>) -> (r: Vec<Vec<u8>>)
    ensures
        views(r@) == views(args@),
{
    let mut r: Vec<Vec<u8>> = Vec::new();
    let n = args.len();
    let mut i: usize = 0;
    while i < n
        invariant
            n == args@.len(),
            i <= n,
            views(r@) == views(args@.take(i as int)),
        decreases n - i,
    {
        let ghost prev = r@;
        let a = slice_to_vec(args[i].as_slice());
        r.push(a);
        proof {
            assert(views(r@) =~= views(prev).push(a@));
            assert(views(args@.take(i as int + 1)) =~= views(args@.take(i as int)).push(
                args@[i as int]@,
            ));
        }
        i += 1;
    }
    assert(args@.take(n as int) =~= args@);
    r
}

fn append_bytes(out: &mut Vec<u8>, s: &[u8])
    ensures
        final(out)@ == old(out)@ + s@,
{
    let n = s.len();
    let mut i: usize = 0;
    while i < n
        invariant
            n == s@.len(),
            i <= n,
            out@ == old(out)@ + s@.take(i as int),
        decreases n - i,
    {
        out.push(s[i]);
        assert(s@.take(i as int + 1) =~= s@.take(i as int).push(s@[i as int]));
        i += 1;
    }
    assert(s@.take(n as int) =~= s@);
}

fn old_path_of(program: &[u8]) -> (r: Vec<u8>)
    ensures
        r@ == old_path(program@),
{
    let mut r = slice_to_vec(program);
    let suffix: Vec<u8> = vec![46u8, 111u8, 108u8, 100u8];
    append_bytes(&mut r, suffix.as_slice());
    assert(r@ =~= old_path(program@));
    r
}

fn notice(program: &[u8]) -> (r: Vec<u8>)
    ensures
        r@ == notice_of(program@),
{
    let mut r: Vec<u8> = vec![91u8, 73u8, 78u8, 70u8, 79u8, 93u8, SPACE, 114u8, 101u8, 110u8, 97u8, 109u8, 105u8, 110u8, 103u8, SPACE];
    append_bytes(&mut r, program);
    let arrow_bytes: Vec<u8> = vec![SPACE, 45u8, 62u8, SPACE];
    append_bytes(&mut r, arrow_bytes.as_slice());
    let old = old_path_of(program);
    append_bytes(&mut r, old.as_slice());
    r.push(LF);
    assert(r@ =~= notice_of(program@));
    r
}

fn run_action(program: Vec<u8>, args: Vec<Vec<u8>>) -> (r: Action)
    ensures
        runs(r, program@, views(args@)),
{
    let trace = trace_line(program.as_slice(), args.as_slice());
    Action::Run { program, args, trace }
}

fn exit_code(code: Option<i32>) -> (r: i32)
    ensures
        r == exit_code_of(code),
{
    match code {
        Some(c) => c,
        None => EXIT_UNKNOWN,
    }
}

impl Rebuild {
    /// Whether `e` is the kind of event that the current phase waits for.
    pub open spec fn awaits(&self, e: Event) -> bool {
        match self.phase {
            Phase::Checking => e is Times,
            Phase::Renaming => e is Renamed,
            Phase::Compiling | Phase::Relaunching => e is Ran,
            Phase::Done => false,
        }
    }

    /// Whether `e` is the kind of event that the current phase waits for.
    pub fn accepts(&self, e: &Event) -> (r: bool)
        ensures
            r == self.awaits(*e),
    {
        match self.phase {
            Phase::Checking => matches!(e, Event::Times { .. }),
            Phase::Renaming => matches!(e, Event::Renamed { .. }),
            Phase::Compiling | Phase::Relaunching => matches!(e, Event::Ran { .. }),
            Phase::Done => false,
        }
    }

    /// Starts the protocol for the running program's path (`None` where it
    /// cannot be learnt), its source's path and the arguments to forward.
    pub fn start(program: Option<Vec<u8>>, source: Vec<u8>, forwarded: Vec<Vec<u8>>) -> (r: (
        Rebuild,
        Action,
    ))
        ensures
            r.0.source == source,
            r.0.forwarded == forwarded,
            program is None ==> r.0.phase == Phase::Done && aborts(
                r.1,
                Failure::NoProgramPath,
                EXIT_NO_PROGRAM_PATH,
            ),
            program matches Some(p) ==> {
                &&& r.0.phase == Phase::Checking
                &&& r.0.program == p
                &&& r.1 matches Action::ReadTimes { target, source: s }
                &&& target@ == p@
                &&& s@ == source@
            },
    {
        match program {
            None => {
                let r = Rebuild { program: Vec::new(), source, forwarded, phase: Phase::Done };
                (r, Action::Abort { failure: Failure::NoProgramPath, code: EXIT_NO_PROGRAM_PATH })
            },
            Some(p) => {
                let target = slice_to_vec(p.as_slice());
                let s = slice_to_vec(source.as_slice());
                let r = Rebuild { program: p, source, forwarded, phase: Phase::Checking };
                (r, Action::ReadTimes { target, source: s })
            },
        }
    }

    /// Takes the protocol one step on from the event `event`, and says what
    /// the host is to do next.
    pub fn step(&mut self, event: Event) -> (r: Action)
        requires
            old(self).awaits(event),
        ensures
            final(self).program == old(self).program,
            final(self).source == old(self).source,
            final(self).forwarded == old(self).forwarded,
            event matches Event::Times { target, source } ==> if is_stale(target, source) {
                &&& final(self).phase == Phase::Renaming
                &&& r matches Action::Rename { from, to, notice }
                &&& from@ == old(self).program@
                &&& to@ == old_path(old(self).program@)
                &&& notice@ == notice_of(old(self).program@)
            } else {
                final(self).phase == Phase::Done && r is Continue
            },
            event matches Event::Renamed { ok } ==> if ok {
                &&& final(self).phase == Phase::Compiling
                &&& runs(r, compiler(), compile_args(old(self).source@, old(self).program@))
            } else {
                final(self).phase == Phase::Done && aborts(
                    r,
                    Failure::RenameFailed,
                    EXIT_REBUILD_FAILED,
                )
            },
            event == (Event::Ran { outcome: Outcome::NotStarted }) ==> final(self).phase
                == Phase::Done && aborts(r, Failure::LaunchFailed, EXIT_REBUILD_FAILED),
            old(self).phase == Phase::Compiling ==> (event matches Event::Ran {
                outcome: Outcome::Finished { success, code },
            } ==> if success {
                final(self).phase == Phase::Relaunching && runs(
                    r,
                    old(self).program@,
                    views(old(self).forwarded@),
                )
            } else {
                final(self).phase == Phase::Done && r == (Action::Exit {
                    code: exit_code_of(code),
                })
            }),
            old(self).phase == Phase::Relaunching ==> (event matches Event::Ran {
                outcome: Outcome::Finished { code, .. },
            } ==> final(self).phase == Phase::Done && r == (Action::Exit {
                code: exit_code_of(code),
            })),
    {
        match event {
            Event::Times { target, source } => {
                if needs_rebuild(target, source) {
                    self.phase = Phase::Renaming;
                    let from = slice_to_vec(self.program.as_slice());
                    let to = old_path_of(self.program.as_slice());
                    let notice = notice(self.program.as_slice());
                    Action::Rename { from, to, notice }
                } else {
                    self.phase = Phase::Done;
                    Action::Continue
                }
            },
            Event::Renamed { ok } => {
                if ok {
                    self.phase = Phase::Compiling;
                    let mut args: Vec<Vec<u8>> = Vec::new();
                    args.push(slice_to_vec(self.source.as_slice()));
                    args.push(vec![45u8, 111u8]);
                    args.push(slice_to_vec(self.program.as_slice()));
                    assert(views(args@) =~= compile_args(self.source@, self.program@));
                    let compiler: Vec<u8> = vec![114u8, 117u8, 115u8, 116u8, 99u8];
                    run_action(compiler, args)
                } else {
                    self.phase = Phase::Done;
                    Action::Abort { failure: Failure::RenameFailed, code: EXIT_REBUILD_FAILED }
                }
            },
            Event::Ran { outcome } => match outcome {
                Outcome::NotStarted => {
                    self.phase = Phase::Done;
                    Action::Abort { failure: Failure::LaunchFailed, code: EXIT_REBUILD_FAILED }
                },
                Outcome::Finished { success, code } => {
                    if self.phase == Phase::Compiling && success {
                        self.phase = Phase::Relaunching;
                        let program = slice_to_vec(self.program.as_slice());
                        let args = copy_args(&self.forwarded);
                        run_action(program, args)
                    } else {
                        self.phase = Phase::Done;
                        Action::Exit { code: exit_code(code) }
                    }
                },
            },
        }
    }
}

} // verus!
