//! What a step says and asks for.
//!
//! A step never touches the machine. It returns a [`Step`]: notices for the
//! operator, to be shown at once and in order, and then either the step's
//! result or one request for the host. A request comes with the state to
//! resume from; the host performs it and calls `resume` on that state with
//! what happened, which gives the following [`Step`].

use crate::digests::Sha256Sum;
use crate::errors::{Error, ErrorView};
use crate::system::process::{Process, ProcessView};
use vstd::prelude::*;

verus! {

/// How a child process ended, as the host saw it.
#[derive(Debug, Clone, Copy, PartialEq, Eq)]
pub struct Exit {
    /// The exit code, or `None` where a signal ended the process.
    pub code: Option<i32>,
    /// For how long it ran, in milliseconds, where the clock could tell.
    pub elapsed_ms: Option<u64>,
}

/// Something to tell the operator.
#[derive(Debug, PartialEq, Eq)]
pub enum Notice<'a> {
    /// An empty line.
    Blank,
    /// The file is not read and hashed, because this is a dry run.
    NotComputingDigest { file: &'a str },
    /// The digest of a file, to be shown as hex and as a mnemonic.
    FileDigest { file: &'a str, digest: Sha256Sum },
    /// The digest is the expected one.
    MatchesExpected,
    /// The process announced next is not run, because this is a dry run.
    NotRunning,
    /// The process that the step runs, or would run.
    Spawning { process: Process<'a> },
    /// For how long the process ran.
    TimeElapsed { millis: Option<u64> },
    /// The directory is not created, because this is a dry run.
    NotCreating { path: &'a str },
    /// The directory is not removed, because this is a dry run.
    NotRemoving { path: &'a str },
}

/// A [`Notice`] as plain values.
pub enum NoticeView {
    Blank,
    NotComputingDigest { file: Seq<char> },
    FileDigest { file: Seq<char>, digest: Seq<u8> },
    MatchesExpected,
    NotRunning,
    Spawning { process: ProcessView },
    TimeElapsed { millis: Option<u64> },
    NotCreating { path: Seq<char> },
    NotRemoving { path: Seq<char> },
}

impl<'a> View for Notice<'a> {
    type V = NoticeView;

    open spec fn view(&self) -> NoticeView {
        match *self {
            Notice::Blank => NoticeView::Blank,
            Notice::NotComputingDigest { file } => NoticeView::NotComputingDigest { file: file@ },
            Notice::FileDigest { file, digest } => NoticeView::FileDigest {
                file: file@,
                digest: digest@,
            },
            Notice::MatchesExpected => NoticeView::MatchesExpected,
            Notice::NotRunning => NoticeView::NotRunning,
            Notice::Spawning { process } => NoticeView::Spawning { process: process@ },
            Notice::TimeElapsed { millis } => NoticeView::TimeElapsed { millis },
            Notice::NotCreating { path } => NoticeView::NotCreating { path: path@ },
            Notice::NotRemoving { path } => NoticeView::NotRemoving { path: path@ },
        }
    }
}

/// What a step that succeeded gives back.
#[derive(Debug, PartialEq, Eq)]
pub enum Value<'a> {
    /// Nothing but the success.
    Done,
    /// The answer to a yes-or-no question.
    Flag(bool),
    /// The digest of a file.
    Digest(Sha256Sum),
    /// The file whose digest was checked.
    Verified { file: &'a str },
}

/// A [`Value`] as plain values.
pub enum ValueView {
    Done,
    Flag(bool),
    Digest(Seq<u8>),
    Verified { file: Seq<char> },
}

impl<'a> View for Value<'a> {
    type V = ValueView;

    open spec fn view(&self) -> ValueView {
        match *self {
            Value::Done => ValueView::Done,
            Value::Flag(flag) => ValueView::Flag(flag),
            Value::Digest(digest) => ValueView::Digest(digest@),
            Value::Verified { file } => ValueView::Verified { file: file@ },
        }
    }
}

/// What to do once a child process has ended.
#[derive(Debug, PartialEq, Eq)]
pub enum AfterSpawn<'a> {
    /// The step is over; it succeeded if the process did.
    Exec,
    /// The step is over; its answer is whether the process succeeded.
    Query,
    /// The filesystem was unmounted: remove its mount point.
    Unmount { path: &'a str },
}

/// An [`AfterSpawn`] as plain values.
pub enum AfterSpawnView {
    Exec,
    Query,
    Unmount { path: Seq<char> },
}

impl<'a> View for AfterSpawn<'a> {
    type V = AfterSpawnView;

    open spec fn view(&self) -> AfterSpawnView {
        match *self {
            AfterSpawn::Exec => AfterSpawnView::Exec,
            AfterSpawn::Query => AfterSpawnView::Query,
            AfterSpawn::Unmount { path } => AfterSpawnView::Unmount { path: path@ },
        }
    }
}

/// What to do once the mount point exists: run the mount.
#[derive(Debug, PartialEq, Eq)]
pub struct AfterCreateDir<'a> {
    pub mount: Process<'a>,
}

/// What to do once the mount point is removed: the step is over.
#[derive(Debug, PartialEq, Eq)]
pub struct AfterRemoveDir {}

/// What to do with the content of a file.
#[derive(Debug, PartialEq, Eq)]
pub enum AfterRead<'a> {
    /// Give back its digest.
    Digest,
    /// Show the digest of `file`.
    Print { file: &'a str },
    /// Show the digest of `file` and hold it against `expected`.
    Check { file: &'a str, expected: Sha256Sum },
}

/// An [`AfterRead`] as plain values.
pub enum AfterReadView {
    Digest,
    Print { file: Seq<char> },
    Check { file: Seq<char>, expected: Seq<u8> },
}

impl<'a> View for AfterRead<'a> {
    type V = AfterReadView;

    open spec fn view(&self) -> AfterReadView {
        match *self {
            AfterRead::Digest => AfterReadView::Digest,
            AfterRead::Print { file } => AfterReadView::Print { file: file@ },
            AfterRead::Check { file, expected } => AfterReadView::Check {
                file: file@,
                expected: expected@,
            },
        }
    }
}

/// How a step goes on: it is over, or the host has one thing to do.
#[derive(Debug, PartialEq, Eq)]
pub enum Next<'a> {
    /// The step is over, with this result.
    Finished(Result<Value<'a>, Error>),
    /// Run the process and wait for its end.
    Spawn(Process<'a>, AfterSpawn<'a>),
    /// Create the directory and those above it; one that exists is no fault.
    CreateDirAll(&'a str, AfterCreateDir<'a>),
    /// Remove the directory if it is empty, and fail otherwise.
    RemoveDir(&'a str, AfterRemoveDir),
    /// Read the whole file.
    ReadFile(&'a str, AfterRead<'a>),
}

/// A [`Next`] as plain values.
pub enum NextView {
    Finished(Result<ValueView, ErrorView>),
    Spawn(ProcessView, AfterSpawnView),
    CreateDirAll(Seq<char>, ProcessView),
    RemoveDir(Seq<char>),
    ReadFile(Seq<char>, AfterReadView),
}

impl<'a> View for Next<'a> {
    type V = NextView;

    open spec fn view(&self) -> NextView {
        match *self {
            Next::Finished(Ok(value)) => NextView::Finished(Ok(value@)),
            Next::Finished(Err(error)) => NextView::Finished(Err(error@)),
            Next::Spawn(process, after) => NextView::Spawn(process@, after@),
            Next::CreateDirAll(path, after) => NextView::CreateDirAll(path@, after.mount@),
            Next::RemoveDir(path, _) => NextView::RemoveDir(path@),
            Next::ReadFile(path, after) => NextView::ReadFile(path@, after@),
        }
    }
}

impl NextView {
    /// Whether the host is asked to do anything.
    pub open spec fn asks_host(self) -> bool {
        !(self is Finished)
    }
}

/// One stretch of a step: what to show, then how to go on.
#[derive(Debug, PartialEq, Eq)]
pub struct Step<'a> {
    /// To be shown to the operator, in order, before anything is done.
    pub notices: Vec<Notice<'a>>,
    /// The result, or the request to perform.
    pub next: Next<'a>,
}

/// A [`Step`] as plain values.
pub struct StepView {
    pub notices: Seq<NoticeView>,
    pub next: NextView,
}

/// The plain values of a list of notices.
pub open spec fn notice_views(notices: Seq<Notice>) -> Seq<NoticeView> {
    Seq::new(notices.len(), |i: int| notices[i]@)
}

/// Adding a notice at the end adds its plain values at the end.
pub proof fn lemma_notice_views_push(notices: Seq<Notice>, last: Notice)
    ensures
        notice_views(notices.push(last)) == notice_views(notices).push(last@),
{
    assert(notice_views(notices.push(last)) =~= notice_views(notices).push(last@));
}

/// Adding a notice in front adds its plain values in front.
pub proof fn lemma_notice_views_prepend(notices: Seq<Notice>, first: Notice)
    ensures
        notice_views(notices.insert(0, first)) == seq![first@] + notice_views(notices),
{
    assert(notice_views(notices.insert(0, first)) =~= seq![first@] + notice_views(notices));
}

impl<'a> View for Step<'a> {
    type V = StepView;

    open spec fn view(&self) -> StepView {
        StepView { notices: notice_views(self.notices@), next: self.next@ }
    }
}

/// The stretch that ends a step in failure, with nothing more to show.
pub open spec fn failed(error: ErrorView) -> StepView {
    StepView { notices: seq![], next: NextView::Finished(Err(error)) }
}

impl<'a> Step<'a> {
    /// Ends a step in failure, with nothing more to show.
    pub fn failed(error: Error) -> (step: Self)
        ensures
            step@ == failed(error@),
    {
        let step = Step { notices: Vec::new(), next: Next::Finished(Err(error)) };
        assert(step@.notices =~= seq![]);
        step
    }
}

} // verus!
