//! Describing child processes and judging how they ended.

use crate::errors::{Error, ErrorView};
use crate::steps::{
    failed, AfterRemoveDir, AfterSpawn, AfterSpawnView, Exit, Next, NextView, Notice, NoticeView,
    Step, StepView, Value, ValueView,
};
use crate::{texts, Context};
use vstd::prelude::*;

verus! {

/// A [`Process`] as plain values.
pub struct ProcessView {
    pub program: Seq<char>,
    pub args: Seq<Seq<char>>,
    pub dir: Option<Seq<char>>,
}

/// Describes a child process to be spawned.
#[derive(Debug, PartialEq, Eq)]
pub struct Process<'a> {
    /// The program to execute.
    program: &'a str,
    /// Its arguments, not including the program name.
    args: Vec<&'a str>,
    /// If `Some`, a path to an existing directory to use as the working
    /// directory for the program. If `None`, use the parent's working
    /// directory.
    dir: Option<&'a str>,
}

impl<'a> View for Process<'a> {
    type V = ProcessView;

    closed spec fn view(&self) -> ProcessView {
        ProcessView {
            program: self.program@,
            args: texts(self.args@),
            dir: match self.dir {
                Some(dir) => Some(dir@),
                None => None,
            },
        }
    }
}

impl<'a> Process<'a> {
    /// Build a description of a new child process.
    pub fn new(program: &'a str, args: &[&'a str]) -> (process: Self)
        ensures
            process@ == (ProcessView { program: program@, args: texts(args@), dir: None }),
    {
        let mut copy: Vec<&'a str> = Vec::new();
        let mut i: usize = 0;
        while i < args.len()
            invariant
                0 <= i <= args.len(),
                copy@ == args@.take(i as int),
            decreases args.len() - i,
        {
            copy.push(args[i]);
            assert(args@.take(i + 1) =~= args@.take(i as int).push(args@[i as int]));
            i = i + 1;
        }
        assert(copy@ =~= args@);
        Process { program, args: copy, dir: None }
    }

    /// Sets the child process's working directory. Otherwise, the parent's
    /// working directory is used. It can be set once.
    pub fn dir(self, dir: &'a str) -> (process: Self)
        requires
            self@.dir is None,
        ensures
            process@ == (ProcessView { dir: Some(dir@), ..self@ }),
    {
        Process { program: self.program, args: self.args, dir: Some(dir) }
    }

    /// The program to execute.
    pub fn program(&self) -> (program: &'a str)
        ensures
            program@ == self@.program,
    {
        self.program
    }

    /// The arguments, not including the program name.
    pub fn args(&self) -> (args: &Vec<&'a str>)
        ensures
            texts(args@) == self@.args,
    {
        &self.args
    }

    /// The working directory, where one was set.
    pub fn working_dir(&self) -> (dir: Option<&'a str>)
        ensures
            dir is Some == self@.dir is Some,
            dir matches Some(path) ==> self@.dir == Some(path@),
    {
        self.dir
    }

    /// A second description of the same process.
    pub fn duplicate(&self) -> (process: Self)
        ensures
            process@ == self@,
    {
        let copy = Process::new(self.program, self.args.as_slice());
        match self.dir {
            Some(dir) => copy.dir(dir),
            None => copy,
        }
    }
}

/// The stretch that announces `process` and asks the host to run it.
pub open spec fn spawning(process: ProcessView, after: AfterSpawnView) -> StepView {
    StepView {
        notices: seq![NoticeView::Spawning { process }],
        next: NextView::Spawn(process, after),
    }
}

/// How a step that runs `process` begins.
///
/// The process is always announced. In a dry run that is all: the step is
/// over and gives `assumed`. Otherwise the host is asked to run the process.
pub open spec fn spawn_step(
    dry_run: bool,
    process: ProcessView,
    after: AfterSpawnView,
    assumed: ValueView,
) -> StepView {
    if dry_run {
        StepView {
            notices: seq![NoticeView::NotRunning, NoticeView::Spawning { process }],
            next: NextView::Finished(Ok(assumed)),
        }
    } else {
        spawning(process, after)
    }
}

/// Whether a process that ended this way succeeded: it exited with code zero.
pub open spec fn succeeded(exit: Exit) -> bool {
    exit.code == Some(0i32)
}

/// Why a process that ended this way without success failed.
pub open spec fn exit_error(exit: Exit) -> ErrorView {
    match exit.code {
        Some(code) => ErrorView::NonZeroExit { code },
        None => ErrorView::Signaled,
    }
}

/// How a step goes on once the host has tried to run its process.
///
/// A process that could not be started fails every step. One that ran answers
/// a query with whether it succeeded; any other step fails unless it did.
pub open spec fn after_spawn_step(after: AfterSpawnView, spawned: Result<Exit, Seq<char>>) -> StepView {
    match spawned {
        Err(reason) => failed(ErrorView::SpawnFailed { reason }),
        Ok(exit) => match after {
            AfterSpawnView::Query => StepView {
                notices: seq![],
                next: NextView::Finished(Ok(ValueView::Flag(succeeded(exit)))),
            },
            AfterSpawnView::Exec => if succeeded(exit) {
                StepView {
                    notices: seq![NoticeView::TimeElapsed { millis: exit.elapsed_ms }],
                    next: NextView::Finished(Ok(ValueView::Done)),
                }
            } else {
                failed(exit_error(exit))
            },
            AfterSpawnView::Unmount { path } => if succeeded(exit) {
                StepView {
                    notices: seq![NoticeView::TimeElapsed { millis: exit.elapsed_ms }],
                    next: NextView::RemoveDir(path),
                }
            } else {
                failed(exit_error(exit))
            },
        },
    }
}

/// The plain values of what the host says of a process it was asked to run.
pub open spec fn spawned_view(spawned: Result<Exit, String>) -> Result<Exit, Seq<char>> {
    match spawned {
        Ok(exit) => Ok(exit),
        Err(reason) => Err(reason@),
    }
}

impl Exit {
    /// Whether the process succeeded: it exited with code zero.
    pub fn success(&self) -> (yes: bool)
        ensures
            yes == succeeded(*self),
    {
        match self.code {
            Some(code) => code == 0,
            None => false,
        }
    }

    /// Why the process failed, where it did not succeed.
    pub fn failure(&self) -> (error: Error)
        ensures
            error@ == exit_error(*self),
    {
        match self.code {
            Some(code) => Error::NonZeroExit { code },
            None => Error::Signaled,
        }
    }
}

/// Child processes.
///
/// These respect dry runs.
impl Context {
    /// Begins a step that runs `process` and succeeds if the process does.
    pub fn exec<'a>(&self, process: Process<'a>) -> (step: Step<'a>)
        ensures
            step@ == spawn_step(self.dry_run(), process@, AfterSpawnView::Exec, ValueView::Done),
    {
        self.announce_spawn(process, AfterSpawn::Exec, Value::Done)
    }

    /// Begins a step that runs `process` to learn whether it succeeds.
    ///
    /// In a dry run there is nothing to ask: the answer is taken to be yes.
    pub fn exec_ok<'a>(&self, process: Process<'a>) -> (step: Step<'a>)
        ensures
            step@ == spawn_step(
                self.dry_run(),
                process@,
                AfterSpawnView::Query,
                ValueView::Flag(true),
            ),
    {
        self.announce_spawn(process, AfterSpawn::Query, Value::Flag(true))
    }

    /// Announces `process`, and asks for it to be run unless this is a dry run.
    pub(crate) fn announce_spawn<'a>(
        &self,
        process: Process<'a>,
        after: AfterSpawn<'a>,
        assumed: Value<'a>,
    ) -> (step: Step<'a>)
        ensures
            step@ == spawn_step(self.dry_run(), process@, after@, assumed@),
    {
        if self.dry_run() {
            let step = Step {
                notices: vec![Notice::NotRunning, Notice::Spawning { process }],
                next: Next::Finished(Ok(assumed)),
            };
            assert(step@.notices =~= spawn_step(true, process@, after@, assumed@).notices);
            step
        } else {
            Step::spawning(process, after)
        }
    }
}

impl<'a> Step<'a> {
    /// Announces `process` and asks the host to run it.
    pub fn spawning(process: Process<'a>, after: AfterSpawn<'a>) -> (step: Self)
        ensures
            step@ == spawning(process@, after@),
    {
        let step = Step {
            notices: vec![Notice::Spawning { process: process.duplicate() }],
            next: Next::Spawn(process, after),
        };
        assert(step@.notices =~= seq![NoticeView::Spawning { process: process@ }]);
        step
    }
}

impl<'a> AfterSpawn<'a> {
    /// Goes on with the step once the host has tried to run the process.
    ///
    /// `spawned` holds how the process ended, or why it could not be started
    /// or waited for.
    pub fn resume(self, spawned: Result<Exit, String>) -> (step: Step<'a>)
        ensures
            step@ == after_spawn_step(self@, spawned_view(spawned)),
    {
        let ghost model = after_spawn_step(self@, spawned_view(spawned));
        let exit = match spawned {
            Ok(exit) => exit,
            Err(reason) => {
                return Step::failed(Error::SpawnFailed { reason });
            },
        };
        let step = match self {
            AfterSpawn::Query => Step {
                notices: Vec::new(),
                next: Next::Finished(Ok(Value::Flag(exit.success()))),
            },
            AfterSpawn::Exec => {
                if !exit.success() {
                    return Step::failed(exit.failure());
                }
                Step {
                    notices: vec![Notice::TimeElapsed { millis: exit.elapsed_ms }],
                    next: Next::Finished(Ok(Value::Done)),
                }
            },
            AfterSpawn::Unmount { path } => {
                if !exit.success() {
                    return Step::failed(exit.failure());
                }
                Step {
                    notices: vec![Notice::TimeElapsed { millis: exit.elapsed_ms }],
                    next: Next::RemoveDir(path, AfterRemoveDir {  }),
                }
            },
        };
        assert(step@.notices =~= model.notices);
        step
    }
}

} // verus!
