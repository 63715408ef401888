//! What holds of every step, proved from what the steps are.

use crate::digests::{
    after_read_step, check_file_digest_step, check_file_hex_digest_step, digest_checked,
    digest_printed, dummy_bytes, file_digest_step, print_file_digest_step, sha256, Sha256Sum,
};
use crate::errors::ErrorView;
use crate::steps::{AfterReadView, AfterSpawnView, Exit, NextView, NoticeView, ValueView};
use crate::system::mounts::{
    after_create_dir_step, is_mounted_step, mount_command, mount_readonly_step, umount_command,
    unmount_step,
};
use crate::system::process::{
    after_spawn_step, exit_error, spawn_step, spawning, succeeded, ProcessView,
};
use vstd::prelude::*;

verus! {

/// In a dry run no step asks the host for anything: no process is run, no
/// directory created or removed, no file read. Each step is over at once.
pub proof fn lemma_dry_run_asks_nothing(
    process: ProcessView,
    after: AfterSpawnView,
    assumed: ValueView,
    device: Seq<char>,
    path: Seq<char>,
    file: Seq<char>,
    expected: Seq<u8>,
    expected_hex: Seq<char>,
)
    ensures
        !spawn_step(true, process, after, assumed).next.asks_host(),
        !is_mounted_step(true, path).next.asks_host(),
        !mount_readonly_step(true, device, path).next.asks_host(),
        !unmount_step(true, path).next.asks_host(),
        !file_digest_step(true, file).next.asks_host(),
        !print_file_digest_step(true, file).next.asks_host(),
        !check_file_digest_step(true, file, expected).next.asks_host(),
        !check_file_hex_digest_step(true, file, expected_hex).next.asks_host(),
{
}

/// A dry run shows what a real run that succeeds shows before it ends,
/// between the notes of what is left out: a process is announced just as the
/// one that is run, and a digest is shown just as a real one, with the
/// placeholder in its place.
pub proof fn lemma_dry_run_shows_what_success_shows(
    process: ProcessView,
    after: AfterSpawnView,
    assumed: ValueView,
    device: Seq<char>,
    path: Seq<char>,
    file: Seq<char>,
    expected: Seq<u8>,
)
    ensures
        spawn_step(true, process, after, assumed).notices == seq![NoticeView::NotRunning]
            + spawning(process, after).notices,
        mount_readonly_step(true, device, path).notices == seq![
            NoticeView::NotCreating { path },
            NoticeView::NotRunning,
        ] + spawning(mount_command(device, path), AfterSpawnView::Exec).notices,
        unmount_step(true, path).notices == seq![NoticeView::NotRunning] + unmount_step(
            false,
            path,
        ).notices + seq![NoticeView::NotRemoving { path }],
        print_file_digest_step(true, file).notices == seq![
            NoticeView::NotComputingDigest { file },
        ] + digest_printed(file, dummy_bytes()).notices,
        check_file_digest_step(true, file, expected).notices == check_file_digest_step(
            false,
            file,
            expected,
        ).notices + seq![NoticeView::NotComputingDigest { file }] + digest_checked(
            file,
            dummy_bytes(),
            dummy_bytes(),
        ).notices,
        check_file_digest_step(true, file, expected).next == digest_checked(
            file,
            dummy_bytes(),
            dummy_bytes(),
        ).next,
{
    assert(spawn_step(true, process, after, assumed).notices =~= seq![NoticeView::NotRunning]
        + spawning(process, after).notices);
    assert(mount_readonly_step(true, device, path).notices =~= seq![
        NoticeView::NotCreating { path },
        NoticeView::NotRunning,
    ] + spawning(mount_command(device, path), AfterSpawnView::Exec).notices);
    assert(unmount_step(true, path).notices =~= seq![NoticeView::NotRunning] + unmount_step(
        false,
        path,
    ).notices + seq![NoticeView::NotRemoving { path }]);
    assert(print_file_digest_step(true, file).notices =~= seq![
        NoticeView::NotComputingDigest { file },
    ] + digest_printed(file, dummy_bytes()).notices);
    assert(check_file_digest_step(true, file, expected).notices =~= check_file_digest_step(
        false,
        file,
        expected,
    ).notices + seq![NoticeView::NotComputingDigest { file }] + digest_checked(
        file,
        dummy_bytes(),
        dummy_bytes(),
    ).notices);
}

/// In a dry run every step that is given well-formed input succeeds, and a
/// query is answered with yes.
pub proof fn lemma_dry_run_succeeds(
    process: ProcessView,
    device: Seq<char>,
    path: Seq<char>,
    file: Seq<char>,
)
    ensures
        spawn_step(true, process, AfterSpawnView::Exec, ValueView::Done).next
            == NextView::Finished(Ok(ValueView::Done)),
        spawn_step(true, process, AfterSpawnView::Query, ValueView::Flag(true)).next
            == NextView::Finished(Ok(ValueView::Flag(true))),
        is_mounted_step(true, path).next == NextView::Finished(Ok(ValueView::Flag(true))),
        mount_readonly_step(true, device, path).next == NextView::Finished(Ok(ValueView::Done)),
        unmount_step(true, path).next == NextView::Finished(Ok(ValueView::Done)),
        print_file_digest_step(true, file).next == NextView::Finished(Ok(ValueView::Done)),
{
}

/// In a dry run the check of a file's digest succeeds whatever digest is
/// expected.
pub proof fn lemma_dry_run_check_succeeds(file: Seq<char>, expected: Seq<u8>)
    ensures
        check_file_digest_step(true, file, expected).next == NextView::Finished(
            Ok(ValueView::Verified { file }),
        ),
{
}

/// An expected digest whose text is no digest fails the check at once, in a
/// dry run as in a real one; one whose text is a digest is checked as that
/// digest.
pub proof fn lemma_malformed_expected_fails(dry_run: bool, file: Seq<char>, expected_hex: Seq<char>)
    ensures
        match Sha256Sum::spec_from_hex(expected_hex) {
            Ok(expected) => check_file_hex_digest_step(dry_run, file, expected_hex)
                == check_file_digest_step(dry_run, file, expected),
            Err(why) => check_file_hex_digest_step(dry_run, file, expected_hex).next
                == NextView::Finished(Err(ErrorView::MalformedInput { why })),
        },
{
}

/// A real check reads the file, then succeeds with the file if the content
/// hashes to the expected digest, and otherwise fails with a mismatch that
/// names the expected digest, the digest found and the file.
pub proof fn lemma_real_check(file: Seq<char>, expected: Seq<u8>, content: Seq<u8>)
    ensures
        check_file_digest_step(false, file, expected).next == NextView::ReadFile(
            file,
            AfterReadView::Check { file, expected },
        ),
        sha256(content) == expected ==> after_read_step(
            AfterReadView::Check { file, expected },
            Ok(content),
        ).next == NextView::Finished(Ok(ValueView::Verified { file })),
        sha256(content) != expected ==> after_read_step(
            AfterReadView::Check { file, expected },
            Ok(content),
        ).next == NextView::Finished(
            Err(ErrorView::DigestMismatch { expected, actual: sha256(content), file }),
        ),
{
}

/// A query whose process ran is answered, with no if the process exited
/// with a code other than zero or was killed. It fails only where the host
/// could not start the process or learn how it ended.
pub proof fn lemma_query_answers(spawned: Result<Exit, Seq<char>>)
    ensures
        spawned matches Ok(exit) ==> after_spawn_step(AfterSpawnView::Query, spawned).next
            == NextView::Finished(Ok(ValueView::Flag(exit.code == Some(0i32)))),
        spawned matches Err(reason) ==> after_spawn_step(AfterSpawnView::Query, spawned).next
            == NextView::Finished(Err(ErrorView::SpawnFailed { reason })),
        (after_spawn_step(AfterSpawnView::Query, spawned).next matches NextView::Finished(
            Err(_),
        )) <==> spawned is Err,
{
}

/// A step that must see its process succeed fails if the process could not
/// be started, was killed, or exited with a code other than zero.
pub proof fn lemma_exec_fails_with_process(spawned: Result<Exit, Seq<char>>)
    ensures
        after_spawn_step(AfterSpawnView::Exec, spawned).next == (match spawned {
            Err(reason) => NextView::Finished(Err(ErrorView::SpawnFailed { reason })),
            Ok(exit) => if exit.code == Some(0i32) {
                NextView::Finished(Ok(ValueView::Done))
            } else {
                NextView::Finished(Err(exit_error(exit)))
            },
        }),
{
}

/// Unmounting runs the unmount first. The mount point is asked to be removed
/// if and only if the unmount succeeded: after an unmount that failed the
/// step is over, as a failure, and the directory is left alone.
pub proof fn lemma_unmount_failure_keeps_mount_point(
    path: Seq<char>,
    spawned: Result<Exit, Seq<char>>,
)
    ensures
        unmount_step(false, path).next == NextView::Spawn(
            umount_command(path),
            AfterSpawnView::Unmount { path },
        ),
        (spawned matches Ok(exit) && succeeded(exit)) ==> after_spawn_step(
            AfterSpawnView::Unmount { path },
            spawned,
        ).next == NextView::RemoveDir(path),
        !(spawned matches Ok(exit) && succeeded(exit)) ==> after_spawn_step(
            AfterSpawnView::Unmount { path },
            spawned,
        ).next matches NextView::Finished(Err(_)),
{
}

/// Mounting creates the mount point first and runs the mount only once that
/// is done: if the directory cannot be created, nothing is run.
pub proof fn lemma_mount_needs_mount_point(mount: ProcessView, created: Result<(), Seq<char>>)
    ensures
        created is Ok ==> after_create_dir_step(mount, created).next == NextView::Spawn(
            mount,
            AfterSpawnView::Exec,
        ),
        created matches Err(reason) ==> after_create_dir_step(mount, created).next
            == NextView::Finished(Err(ErrorView::Filesystem { reason })),
{
}

} // verus!
