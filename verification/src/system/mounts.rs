//! Filesystem mounting.

use crate::errors::{Error, ErrorView};
use crate::steps::{
    failed, lemma_notice_views_prepend, lemma_notice_views_push, AfterCreateDir, AfterRemoveDir,
    AfterSpawn, AfterSpawnView, Next, NextView, Notice, NoticeView, Step, StepView, Value,
    ValueView,
};
use crate::system::process::{spawn_step, spawning, Process, ProcessView};
use crate::Context;
use vstd::prelude::*;

verus! {

/// The process that tells whether a filesystem is mounted at `path`.
pub open spec fn findmnt_command(path: Seq<char>) -> ProcessView {
    ProcessView { program: "findmnt"@, args: seq!["--mountpoint"@, path], dir: None }
}

/// The process that mounts `device` at `path`, read-only.
pub open spec fn mount_command(device: Seq<char>, path: Seq<char>) -> ProcessView {
    ProcessView { program: "mount"@, args: seq!["-o"@, "ro"@, device, path], dir: None }
}

/// The process that unmounts the filesystem at `path`.
pub open spec fn umount_command(path: Seq<char>) -> ProcessView {
    ProcessView { program: "umount"@, args: seq![path], dir: None }
}

/// How asking whether a filesystem is mounted at `path` begins.
pub open spec fn is_mounted_step(dry_run: bool, path: Seq<char>) -> StepView {
    spawn_step(dry_run, findmnt_command(path), AfterSpawnView::Query, ValueView::Flag(true))
}

/// How mounting `device` at `path` begins.
///
/// A dry run says that the mount point is not created and that the mount is
/// not run, and is over. Otherwise the mount point is created first.
pub open spec fn mount_readonly_step(dry_run: bool, device: Seq<char>, path: Seq<char>) -> StepView {
    if dry_run {
        StepView {
            notices: seq![
                NoticeView::NotCreating { path },
                NoticeView::NotRunning,
                NoticeView::Spawning { process: mount_command(device, path) },
            ],
            next: NextView::Finished(Ok(ValueView::Done)),
        }
    } else {
        StepView {
            notices: seq![],
            next: NextView::CreateDirAll(path, mount_command(device, path)),
        }
    }
}

/// How mounting goes on once the host has tried to create the mount point:
/// with the mount itself, unless the directory could not be created.
pub open spec fn after_create_dir_step(mount: ProcessView, created: Result<(), Seq<char>>) -> StepView {
    match created {
        Ok(()) => spawning(mount, AfterSpawnView::Exec),
        Err(reason) => failed(ErrorView::Filesystem { reason }),
    }
}

/// How unmounting the filesystem at `path` begins.
///
/// A dry run says that the unmount is not run and that the mount point is not
/// removed, and is over. Otherwise the unmount is run first.
pub open spec fn unmount_step(dry_run: bool, path: Seq<char>) -> StepView {
    if dry_run {
        StepView {
            notices: seq![
                NoticeView::NotRunning,
                NoticeView::Spawning { process: umount_command(path) },
                NoticeView::NotRemoving { path },
            ],
            next: NextView::Finished(Ok(ValueView::Done)),
        }
    } else {
        spawning(umount_command(path), AfterSpawnView::Unmount { path })
    }
}

/// How unmounting ends once the host has tried to remove the mount point.
pub open spec fn after_remove_dir_step(removed: Result<(), Seq<char>>) -> StepView {
    match removed {
        Ok(()) => StepView { notices: seq![], next: NextView::Finished(Ok(ValueView::Done)) },
        Err(reason) => failed(ErrorView::Filesystem { reason }),
    }
}

/// The plain values of what the host says of a directory it was asked to
/// create or remove.
pub open spec fn done_view(done: Result<(), String>) -> Result<(), Seq<char>> {
    match done {
        Ok(()) => Ok(()),
        Err(reason) => Err(reason@),
    }
}

/// Filesystem mounting.
///
/// These respect dry runs.
impl Context {
    /// Begins asking whether a filesystem is mounted at `mount_path`.
    ///
    /// Note: the answer is always yes during dry runs.
    pub fn is_mounted<'a>(&self, mount_path: &'a str) -> (step: Step<'a>)
        ensures
            step@ == is_mounted_step(self.dry_run(), mount_path@),
    {
        let args = ["--mountpoint", mount_path];
        let findmnt = Process::new("findmnt", args.as_slice());
        assert(findmnt@.args =~= findmnt_command(mount_path@).args);
        self.exec_ok(findmnt)
    }

    /// Begins mounting `device_path` at `mount_path`, read-only.
    pub fn mount_readonly<'a>(&self, device_path: &'a str, mount_path: &'a str) -> (step: Step<'a>)
        ensures
            step@ == mount_readonly_step(self.dry_run(), device_path@, mount_path@),
    {
        let ghost model = mount_readonly_step(self.dry_run(), device_path@, mount_path@);
        let args = ["-o", "ro", device_path, mount_path];
        let mount = Process::new("mount", args.as_slice());
        assert(mount@.args =~= mount_command(device_path@, mount_path@).args);
        if self.dry_run() {
            let mut step = self.exec(mount);
            proof {
                lemma_notice_views_prepend(
                    step.notices@,
                    Notice::NotCreating { path: mount_path },
                );
            }
            step.notices.insert(0, Notice::NotCreating { path: mount_path });
            assert(step@.notices =~= model.notices);
            step
        } else {
            let step = Step {
                notices: Vec::new(),
                next: Next::CreateDirAll(mount_path, AfterCreateDir { mount }),
            };
            assert(step@.notices =~= model.notices);
            step
        }
    }

    /// Begins unmounting the filesystem at `mount_path`. Its mount point is
    /// removed afterwards, and only if the unmount succeeded.
    pub fn unmount<'a>(&self, mount_path: &'a str) -> (step: Step<'a>)
        ensures
            step@ == unmount_step(self.dry_run(), mount_path@),
    {
        let ghost model = unmount_step(self.dry_run(), mount_path@);
        let args = [mount_path];
        let umount = Process::new("umount", args.as_slice());
        assert(umount@.args =~= umount_command(mount_path@).args);
        let mut step = self.announce_spawn(
            umount,
            AfterSpawn::Unmount { path: mount_path },
            Value::Done,
        );
        if self.dry_run() {
            proof {
                lemma_notice_views_push(step.notices@, Notice::NotRemoving { path: mount_path });
            }
            step.notices.push(Notice::NotRemoving { path: mount_path });
        }
        assert(step@.notices =~= model.notices);
        step
    }
}

impl<'a> AfterCreateDir<'a> {
    /// Goes on with the mount once the host has tried to create the mount
    /// point. `created` holds why it could not, if so.
    pub fn resume(self, created: Result<(), String>) -> (step: Step<'a>)
        ensures
            step@ == after_create_dir_step(self.mount@, done_view(created)),
    {
        match created {
            Ok(()) => Step::spawning(self.mount, AfterSpawn::Exec),
            Err(reason) => Step::failed(Error::Filesystem { reason }),
        }
    }
}

impl AfterRemoveDir {
    /// Ends the unmount once the host has tried to remove the mount point.
    /// `removed` holds why it could not, if so.
    pub fn resume<'a>(self, removed: Result<(), String>) -> (step: Step<'a>)
        ensures
            step@ == after_remove_dir_step(done_view(removed)),
    {
        match removed {
            Ok(()) => {
                let step = Step { notices: Vec::new(), next: Next::Finished(Ok(Value::Done)) };
                assert(step@.notices =~= seq![]);
                step
            },
            Err(reason) => Step::failed(Error::Filesystem { reason }),
        }
    }
}

} // verus!
