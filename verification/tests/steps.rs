use ceremony::digests::{HexError, Sha256Sum};
use ceremony::errors::Error;
use ceremony::steps::{
    AfterCreateDir, AfterRead, AfterRemoveDir, AfterSpawn, Exit, Next, Notice, Step, Value,
};
use ceremony::system::process::Process;
use ceremony::Context;

/// What a host that is scripted for one test did, and what it answers.
struct Host {
    spawn: Result<Exit, String>,
    create: Result<(), String>,
    remove: Result<(), String>,
    read: Result<Vec<u8>, String>,
    log: Vec<String>,
}

impl Host {
    fn new() -> Host {
        Host {
            spawn: Ok(exited(0)),
            create: Ok(()),
            remove: Ok(()),
            read: Ok(Vec::new()),
            log: Vec::new(),
        }
    }

    /// Runs a step to its end, as a real host would.
    fn run<'a>(&mut self, first: Step<'a>) -> (Vec<Notice<'a>>, Result<Value<'a>, Error>) {
        let mut shown = Vec::new();
        let mut step = first;
        loop {
            shown.extend(step.notices);
            step = match step.next {
                Next::Finished(result) => return (shown, result),
                Next::Spawn(process, after) => {
                    self.log.push(format!("spawn {}", process.program()));
                    after.resume(self.spawn.clone())
                }
                Next::CreateDirAll(path, after) => {
                    self.log.push(format!("create {path}"));
                    after.resume(self.create.clone())
                }
                Next::RemoveDir(path, after) => {
                    self.log.push(format!("remove {path}"));
                    after.resume(self.remove.clone())
                }
                Next::ReadFile(path, after) => {
                    self.log.push(format!("read {path}"));
                    after.resume(self.read.clone())
                }
            };
        }
    }
}

fn exited(code: i32) -> Exit {
    Exit { code: Some(code), elapsed_ms: Some(1200) }
}

fn killed() -> Exit {
    Exit { code: None, elapsed_ms: Some(7) }
}

fn dry() -> Context {
    Context::new(true)
}

fn live() -> Context {
    Context::new(false)
}

fn mount_process<'a>(device: &'a str, path: &'a str) -> Process<'a> {
    Process::new("mount", &["-o", "ro", device, path])
}

#[test]
fn context_keeps_its_flag() {
    assert!(dry().dry_run());
    assert!(!live().dry_run());
}

#[test]
fn process_new_keeps_program_and_arguments() {
    let process = Process::new("findmnt", &["--mountpoint", "/mnt/hsm"]);
    assert_eq!(process.program(), "findmnt");
    assert_eq!(process.args(), &vec!["--mountpoint", "/mnt/hsm"]);
    assert_eq!(process.working_dir(), None);
    let bare = Process::new("true", &[]);
    assert_eq!(bare.args().len(), 0);
}

#[test]
fn process_dir_sets_the_working_directory() {
    let process = Process::new("make", &["all"]).dir("/work");
    assert_eq!(process.program(), "make");
    assert_eq!(process.args(), &vec!["all"]);
    assert_eq!(process.working_dir(), Some("/work"));
}

#[test]
fn process_duplicate_is_equal() {
    let plain = Process::new("ls", &["-l", "/"]);
    assert_eq!(plain.duplicate(), plain);
    let placed = Process::new("ls", &["-l"]).dir("/tmp");
    assert_eq!(placed.duplicate(), placed);
    assert_ne!(placed, Process::new("ls", &["-l"]));
}

#[test]
fn exit_success_is_code_zero() {
    assert!(exited(0).success());
    assert!(!exited(1).success());
    assert!(!exited(-1).success());
    assert!(!killed().success());
    assert_eq!(exited(3).failure(), Error::NonZeroExit { code: 3 });
    assert_eq!(killed().failure(), Error::Signaled);
}

#[test]
fn exec_in_dry_run_announces_and_is_over() {
    let step = dry().exec(Process::new("hsm-tool", &["init"]));
    assert_eq!(
        step.notices,
        vec![
            Notice::NotRunning,
            Notice::Spawning { process: Process::new("hsm-tool", &["init"]) },
        ]
    );
    assert_eq!(step.next, Next::Finished(Ok(Value::Done)));
}

#[test]
fn exec_for_real_asks_for_the_process() {
    let step = live().exec(Process::new("hsm-tool", &["init"]).dir("/opt/hsm"));
    let process = Process::new("hsm-tool", &["init"]).dir("/opt/hsm");
    assert_eq!(step.notices, vec![Notice::Spawning { process: process.duplicate() }]);
    assert_eq!(step.next, Next::Spawn(process, AfterSpawn::Exec));
}

#[test]
fn exec_succeeds_with_the_process() {
    let step = AfterSpawn::Exec.resume(Ok(exited(0)));
    assert_eq!(step.notices, vec![Notice::TimeElapsed { millis: Some(1200) }]);
    assert_eq!(step.next, Next::Finished(Ok(Value::Done)));
    let untimed = AfterSpawn::Exec.resume(Ok(Exit { code: Some(0), elapsed_ms: None }));
    assert_eq!(untimed.notices, vec![Notice::TimeElapsed { millis: None }]);
}

#[test]
fn exec_fails_on_non_zero_exit() {
    let step = AfterSpawn::Exec.resume(Ok(exited(2)));
    assert_eq!(step.notices, vec![]);
    assert_eq!(step.next, Next::Finished(Err(Error::NonZeroExit { code: 2 })));
}

#[test]
fn exec_fails_on_signal() {
    let step = AfterSpawn::Exec.resume(Ok(killed()));
    assert_eq!(step.notices, vec![]);
    assert_eq!(step.next, Next::Finished(Err(Error::Signaled)));
}

#[test]
fn exec_fails_when_the_process_cannot_start() {
    let step = AfterSpawn::Exec.resume(Err(String::from("No such file or directory")));
    assert_eq!(step.notices, vec![]);
    assert_eq!(
        step.next,
        Next::Finished(Err(Error::SpawnFailed {
            reason: String::from("No such file or directory")
        }))
    );
}

#[test]
fn exec_ok_in_dry_run_says_yes() {
    let step = dry().exec_ok(Process::new("test", &["-e", "/dev/sdb1"]));
    assert_eq!(
        step.notices,
        vec![
            Notice::NotRunning,
            Notice::Spawning { process: Process::new("test", &["-e", "/dev/sdb1"]) },
        ]
    );
    assert_eq!(step.next, Next::Finished(Ok(Value::Flag(true))));
}

#[test]
fn exec_ok_for_real_asks_for_the_process() {
    let step = live().exec_ok(Process::new("test", &["-e", "/dev/sdb1"]));
    let process = Process::new("test", &["-e", "/dev/sdb1"]);
    assert_eq!(step.notices, vec![Notice::Spawning { process: process.duplicate() }]);
    assert_eq!(step.next, Next::Spawn(process, AfterSpawn::Query));
}

#[test]
fn exec_ok_answers_no_on_non_zero_exit() {
    let step = AfterSpawn::Query.resume(Ok(exited(1)));
    assert_eq!(step.notices, vec![]);
    assert_eq!(step.next, Next::Finished(Ok(Value::Flag(false))));
    let signalled = AfterSpawn::Query.resume(Ok(killed()));
    assert_eq!(signalled.next, Next::Finished(Ok(Value::Flag(false))));
}

#[test]
fn exec_ok_answers_yes_on_exit_zero() {
    let step = AfterSpawn::Query.resume(Ok(exited(0)));
    assert_eq!(step.notices, vec![]);
    assert_eq!(step.next, Next::Finished(Ok(Value::Flag(true))));
}

#[test]
fn exec_ok_fails_only_when_the_process_cannot_start() {
    let step = AfterSpawn::Query.resume(Err(String::from("permission denied")));
    assert_eq!(
        step.next,
        Next::Finished(Err(Error::SpawnFailed { reason: String::from("permission denied") }))
    );
}

#[test]
fn is_mounted_runs_findmnt() {
    let step = live().is_mounted("/mnt/hsm");
    let findmnt = Process::new("findmnt", &["--mountpoint", "/mnt/hsm"]);
    assert_eq!(step.notices, vec![Notice::Spawning { process: findmnt.duplicate() }]);
    assert_eq!(step.next, Next::Spawn(findmnt, AfterSpawn::Query));
}

#[test]
fn is_mounted_is_answered_by_the_exit_code() {
    let mut host = Host::new();
    host.spawn = Ok(exited(1));
    assert_eq!(host.run(live().is_mounted("/mnt/hsm")).1, Ok(Value::Flag(false)));
    host.spawn = Ok(exited(0));
    assert_eq!(host.run(live().is_mounted("/mnt/hsm")).1, Ok(Value::Flag(true)));
    assert_eq!(host.log, vec!["spawn findmnt", "spawn findmnt"]);
}

#[test]
fn is_mounted_in_dry_run_says_yes() {
    let mut host = Host::new();
    host.spawn = Ok(exited(1));
    let (shown, result) = host.run(dry().is_mounted("/mnt/hsm"));
    assert_eq!(result, Ok(Value::Flag(true)));
    assert_eq!(
        shown,
        vec![
            Notice::NotRunning,
            Notice::Spawning {
                process: Process::new("findmnt", &["--mountpoint", "/mnt/hsm"])
            },
        ]
    );
    assert!(host.log.is_empty());
}

#[test]
fn mount_readonly_in_dry_run_shows_the_mount_and_creates_nothing() {
    let mut host = Host::new();
    let (shown, result) = host.run(dry().mount_readonly("/dev/sdb1", "/mnt/hsm"));
    assert_eq!(result, Ok(Value::Done));
    assert_eq!(
        shown,
        vec![
            Notice::NotCreating { path: "/mnt/hsm" },
            Notice::NotRunning,
            Notice::Spawning { process: mount_process("/dev/sdb1", "/mnt/hsm") },
        ]
    );
    assert!(host.log.is_empty());
}

#[test]
fn mount_readonly_for_real_creates_the_mount_point_first() {
    let step = live().mount_readonly("/dev/sdb1", "/mnt/hsm");
    assert_eq!(step.notices, vec![]);
    assert_eq!(
        step.next,
        Next::CreateDirAll(
            "/mnt/hsm",
            AfterCreateDir { mount: mount_process("/dev/sdb1", "/mnt/hsm") }
        )
    );
}

#[test]
fn mount_readonly_mounts_once_the_mount_point_exists() {
    let after = AfterCreateDir { mount: mount_process("/dev/sdb1", "/mnt/hsm") };
    let step = after.resume(Ok(()));
    assert_eq!(
        step.notices,
        vec![Notice::Spawning { process: mount_process("/dev/sdb1", "/mnt/hsm") }]
    );
    assert_eq!(step.next, Next::Spawn(mount_process("/dev/sdb1", "/mnt/hsm"), AfterSpawn::Exec));
}

#[test]
fn mount_readonly_runs_to_the_end() {
    let mut host = Host::new();
    let (shown, result) = host.run(live().mount_readonly("/dev/sdb1", "/mnt/hsm"));
    assert_eq!(result, Ok(Value::Done));
    assert_eq!(host.log, vec!["create /mnt/hsm", "spawn mount"]);
    assert_eq!(
        shown,
        vec![
            Notice::Spawning { process: mount_process("/dev/sdb1", "/mnt/hsm") },
            Notice::TimeElapsed { millis: Some(1200) },
        ]
    );
}

#[test]
fn mount_readonly_fails_without_mount_point() {
    let mut host = Host::new();
    host.create = Err(String::from("read-only file system"));
    let (shown, result) = host.run(live().mount_readonly("/dev/sdb1", "/mnt/hsm"));
    assert_eq!(result, Err(Error::Filesystem { reason: String::from("read-only file system") }));
    assert_eq!(host.log, vec!["create /mnt/hsm"]);
    assert_eq!(shown, vec![]);
}

#[test]
fn mount_readonly_fails_with_the_mount() {
    let mut host = Host::new();
    host.spawn = Ok(exited(32));
    let (_, result) = host.run(live().mount_readonly("/dev/sdb1", "/mnt/hsm"));
    assert_eq!(result, Err(Error::NonZeroExit { code: 32 }));
    assert_eq!(host.log, vec!["create /mnt/hsm", "spawn mount"]);
}

#[test]
fn unmount_in_dry_run_touches_nothing() {
    let mut host = Host::new();
    let (shown, result) = host.run(dry().unmount("/mnt/hsm"));
    assert_eq!(result, Ok(Value::Done));
    assert_eq!(
        shown,
        vec![
            Notice::NotRunning,
            Notice::Spawning { process: Process::new("umount", &["/mnt/hsm"]) },
            Notice::NotRemoving { path: "/mnt/hsm" },
        ]
    );
    assert!(host.log.is_empty());
}

#[test]
fn unmount_for_real_runs_umount_first() {
    let step = live().unmount("/mnt/hsm");
    let umount = Process::new("umount", &["/mnt/hsm"]);
    assert_eq!(step.notices, vec![Notice::Spawning { process: umount.duplicate() }]);
    assert_eq!(step.next, Next::Spawn(umount, AfterSpawn::Unmount { path: "/mnt/hsm" }));
}

#[test]
fn unmount_removes_the_mount_point_after_success() {
    let step = AfterSpawn::Unmount { path: "/mnt/hsm" }.resume(Ok(exited(0)));
    assert_eq!(step.notices, vec![Notice::TimeElapsed { millis: Some(1200) }]);
    assert_eq!(step.next, Next::RemoveDir("/mnt/hsm", AfterRemoveDir {}));
    let mut host = Host::new();
    let (_, result) = host.run(live().unmount("/mnt/hsm"));
    assert_eq!(result, Ok(Value::Done));
    assert_eq!(host.log, vec!["spawn umount", "remove /mnt/hsm"]);
}

#[test]
fn unmount_that_fails_leaves_the_mount_point() {
    for spawn in [Ok(exited(1)), Ok(killed()), Err(String::from("not found"))] {
        let mut host = Host::new();
        host.spawn = spawn;
        let (_, result) = host.run(live().unmount("/mnt/hsm"));
        assert!(result.is_err());
        assert_eq!(host.log, vec!["spawn umount"]);
    }
    let step = AfterSpawn::Unmount { path: "/mnt/hsm" }.resume(Ok(exited(1)));
    assert_eq!(step.next, Next::Finished(Err(Error::NonZeroExit { code: 1 })));
}

#[test]
fn unmount_fails_when_the_mount_point_is_not_empty() {
    let mut host = Host::new();
    host.remove = Err(String::from("Directory not empty"));
    let (_, result) = host.run(live().unmount("/mnt/hsm"));
    assert_eq!(result, Err(Error::Filesystem { reason: String::from("Directory not empty") }));
    assert_eq!(host.log, vec!["spawn umount", "remove /mnt/hsm"]);
    let step = AfterRemoveDir {}.resume(Ok(()));
    assert_eq!(step.notices, vec![]);
    assert_eq!(step.next, Next::Finished(Ok(Value::Done)));
}

#[test]
fn file_digest_in_dry_run_is_the_dummy() {
    let mut host = Host::new();
    host.read = Ok(b"abc".to_vec());
    let (shown, result) = host.run(dry().file_digest("key.bin"));
    assert_eq!(result, Ok(Value::Digest(Sha256Sum::dummy())));
    assert_eq!(shown, vec![Notice::NotComputingDigest { file: "key.bin" }]);
    assert!(host.log.is_empty());
}

#[test]
fn file_digest_for_real_hashes_the_content() {
    let step = live().file_digest("key.bin");
    assert_eq!(step.notices, vec![]);
    assert_eq!(step.next, Next::ReadFile("key.bin", AfterRead::Digest));
    let mut host = Host::new();
    host.read = Ok(b"abc".to_vec());
    let (shown, result) = host.run(live().file_digest("key.bin"));
    assert_eq!(result, Ok(Value::Digest(Sha256Sum::compute(b"abc"))));
    assert_eq!(shown, vec![]);
    assert_eq!(host.log, vec!["read key.bin"]);
}

#[test]
fn file_digest_fails_when_the_file_cannot_be_read() {
    let mut host = Host::new();
    host.read = Err(String::from("No such file or directory"));
    let (_, result) = host.run(live().file_digest("key.bin"));
    assert_eq!(
        result,
        Err(Error::Filesystem { reason: String::from("No such file or directory") })
    );
}

#[test]
fn print_file_digest_shows_the_digest_of_the_content() {
    let mut host = Host::new();
    let (shown, result) = host.run(live().print_file_digest("key.bin"));
    assert_eq!(result, Ok(Value::Done));
    let digest = Sha256Sum::compute(b"");
    assert_eq!(shown, vec![Notice::FileDigest { file: "key.bin", digest }, Notice::Blank]);
    assert_eq!(
        digest.to_hex(),
        "e3b0c44298fc1c149afbf4c8996fb92427ae41e4649b934ca495991b7852b855"
    );
    assert_eq!(host.log, vec!["read key.bin"]);
}

#[test]
fn print_file_digest_in_dry_run_shows_the_dummy() {
    let mut host = Host::new();
    let (shown, result) = host.run(dry().print_file_digest("key.bin"));
    assert_eq!(result, Ok(Value::Done));
    assert_eq!(
        shown,
        vec![
            Notice::NotComputingDigest { file: "key.bin" },
            Notice::FileDigest { file: "key.bin", digest: Sha256Sum::dummy() },
            Notice::Blank,
        ]
    );
    assert!(host.log.is_empty());
}

#[test]
fn print_file_digest_fails_when_the_file_cannot_be_read() {
    let step = AfterRead::Print { file: "key.bin" }.resume(Err(String::from("denied")));
    assert_eq!(step.notices, vec![]);
    assert_eq!(
        step.next,
        Next::Finished(Err(Error::Filesystem { reason: String::from("denied") }))
    );
}

#[test]
fn check_file_digest_succeeds_on_the_expected_digest() {
    let expected = Sha256Sum::compute(b"abc");
    let mut host = Host::new();
    host.read = Ok(b"abc".to_vec());
    let (shown, result) = host.run(live().check_file_digest("key.bin", &expected));
    assert_eq!(result, Ok(Value::Verified { file: "key.bin" }));
    assert_eq!(
        shown,
        vec![
            Notice::Blank,
            Notice::FileDigest { file: "key.bin", digest: expected },
            Notice::MatchesExpected,
            Notice::Blank,
        ]
    );
    assert_eq!(host.log, vec!["read key.bin"]);
}

#[test]
fn check_file_digest_fails_on_another_digest() {
    let expected = Sha256Sum::compute(b"abd");
    let actual = Sha256Sum::compute(b"abc");
    let mut host = Host::new();
    host.read = Ok(b"abc".to_vec());
    let (shown, result) = host.run(live().check_file_digest("key.bin", &expected));
    assert_eq!(
        result,
        Err(Error::DigestMismatch { expected, actual, file: String::from("key.bin") })
    );
    assert_eq!(shown, vec![Notice::Blank, Notice::FileDigest { file: "key.bin", digest: actual }]);
}

#[test]
fn check_file_digest_in_dry_run_succeeds_whatever_is_expected() {
    for expected in [Sha256Sum::compute(b"abc"), Sha256Sum::dummy(), Sha256Sum::from_bytes([0; 32])]
    {
        let mut host = Host::new();
        host.read = Ok(b"something else".to_vec());
        let (shown, result) = host.run(dry().check_file_digest("key.bin", &expected));
        assert_eq!(result, Ok(Value::Verified { file: "key.bin" }));
        assert_eq!(
            shown,
            vec![
                Notice::Blank,
                Notice::NotComputingDigest { file: "key.bin" },
                Notice::FileDigest { file: "key.bin", digest: Sha256Sum::dummy() },
                Notice::MatchesExpected,
                Notice::Blank,
            ]
        );
        assert!(host.log.is_empty());
    }
}

#[test]
fn check_file_digest_fails_when_the_file_cannot_be_read() {
    let expected = Sha256Sum::compute(b"abc");
    let mut host = Host::new();
    host.read = Err(String::from("Is a directory"));
    let (shown, result) = host.run(live().check_file_digest("key.bin", &expected));
    assert_eq!(result, Err(Error::Filesystem { reason: String::from("Is a directory") }));
    assert_eq!(shown, vec![Notice::Blank]);
}

#[test]
fn digest_checked_compares_byte_for_byte() {
    let mut bytes = [7u8; 32];
    let digest = Sha256Sum::from_bytes(bytes);
    bytes[31] = 8;
    let other = Sha256Sum::from_bytes(bytes);
    let same = Step::digest_checked("f", digest, &digest);
    assert_eq!(same.next, Next::Finished(Ok(Value::Verified { file: "f" })));
    let differs = Step::digest_checked("f", digest, &other);
    assert_eq!(
        differs.next,
        Next::Finished(Err(Error::DigestMismatch {
            expected: other,
            actual: digest,
            file: String::from("f")
        }))
    );
    let printed = Step::digest_printed("f", digest);
    assert_eq!(printed.notices, vec![Notice::FileDigest { file: "f", digest }, Notice::Blank]);
    assert_eq!(printed.next, Next::Finished(Ok(Value::Done)));
}

#[test]
fn check_file_hex_digest_reads_the_expected_digest() {
    let hex = Sha256Sum::compute(b"abc").to_hex();
    let mut host = Host::new();
    host.read = Ok(b"abc".to_vec());
    let (_, result) = host.run(live().check_file_hex_digest("key.bin", &hex));
    assert_eq!(result, Ok(Value::Verified { file: "key.bin" }));
    host.read = Ok(b"abd".to_vec());
    let (_, result) = host.run(live().check_file_hex_digest("key.bin", &hex));
    assert!(matches!(result, Err(Error::DigestMismatch { .. })));
}

#[test]
fn check_file_hex_digest_refuses_malformed_text_even_in_dry_run() {
    for context in [dry(), live()] {
        let mut host = Host::new();
        let (shown, result) = host.run(context.check_file_hex_digest("key.bin", "e3b0c4"));
        assert_eq!(result, Err(Error::MalformedInput { why: HexError::InvalidStringLength }));
        assert_eq!(shown, vec![]);
        assert!(host.log.is_empty());
        let (_, result) = host.run(context.check_file_hex_digest("key.bin", "xyz"));
        assert_eq!(result, Err(Error::MalformedInput { why: HexError::OddLength }));
        let bad = "g".repeat(64);
        let (_, result) = host.run(context.check_file_hex_digest("key.bin", &bad));
        assert_eq!(
            result,
            Err(Error::MalformedInput {
                why: HexError::InvalidHexCharacter { c: 'g', index: 0 }
            })
        );
    }
}

#[test]
fn check_file_hex_digest_in_dry_run_succeeds_on_any_digest() {
    let hex = "00".repeat(32);
    let mut host = Host::new();
    let (_, result) = host.run(dry().check_file_hex_digest("key.bin", &hex));
    assert_eq!(result, Ok(Value::Verified { file: "key.bin" }));
    assert!(host.log.is_empty());
}

#[test]
fn dry_run_never_asks_the_host() {
    let context = dry();
    let expected = Sha256Sum::compute(b"x");
    let steps = vec![
        context.exec(Process::new("a", &[])),
        context.exec_ok(Process::new("b", &["c"])),
        context.is_mounted("/mnt"),
        context.mount_readonly("/dev/sda", "/mnt"),
        context.unmount("/mnt"),
        context.file_digest("f"),
        context.print_file_digest("f"),
        context.check_file_digest("f", &expected),
        context.check_file_hex_digest("f", "not hex"),
    ];
    for step in steps {
        assert!(matches!(step.next, Next::Finished(_)));
        assert!(!step.notices.is_empty() || matches!(step.next, Next::Finished(Err(_))));
    }
}

#[test]
fn failed_step_shows_nothing() {
    let step = Step::failed(Error::Signaled);
    assert_eq!(step.notices, vec![]);
    assert_eq!(step.next, Next::Finished(Err(Error::Signaled)));
}
