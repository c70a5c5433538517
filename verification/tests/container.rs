use rocker::container::info::{ContainerInfo, ContainerStatus};
use rocker::container::lifecycle::{parse_environ, parse_pid, Lifecycle, StopPlan};
use rocker::container::store::{ContainerStore, StoreEntry};
use rocker::container::{Container, InitStep, MountFlag, Namespace, StdioMode};
use rocker::error::RuntimeError;
use std::path::PathBuf;

fn record(name: &str, pid: &str, status: ContainerStatus) -> ContainerInfo {
    ContainerInfo {
        pid: pid.to_string(),
        id: "1234567890".to_string(),
        name: name.to_string(),
        command: "/bin/sh".to_string(),
        created_time: "2024-01-01 12:00:00".to_string(),
        status,
        volume: Some("/host:/inside".to_string()),
        port_mapping: vec!["8080:80".to_string(), "1:2".to_string()],
        network: None,
        image_name: "busybox:latest".to_string(),
    }
}

fn same_record(a: &ContainerInfo, b: &ContainerInfo) -> bool {
    a.pid == b.pid
        && a.id == b.id
        && a.name == b.name
        && a.command == b.command
        && a.created_time == b.created_time
        && a.status == b.status
        && a.volume == b.volume
        && a.port_mapping == b.port_mapping
        && a.network == b.network
        && a.image_name == b.image_name
}

#[test]
fn test_container_info_generation() {
    let id = ContainerInfo::generate_id();
    assert_eq!(id.len(), 10);
    // Verify it's all digits
    assert!(id.chars().all(|c| c.is_ascii_digit()));
}

#[test]
fn test_container_time_format() {
    let time = ContainerInfo::current_time();
    // Format should be "YYYY-MM-DD HH:MM:SS" which is 19 characters
    assert_eq!(time.len(), 19);
    // Verify format contains expected separators
    assert!(time.contains('-'));
    assert!(time.contains(' '));
    assert!(time.contains(':'));
}

#[test]
fn test_container_dir_path() {
    let path = ContainerStore::container_dir("test_container");
    assert_eq!(PathBuf::from(path), PathBuf::from("/var/run/rocker/test_container/"));
}

#[test]
fn test_config_path() {
    let path = ContainerStore::config_path("test_container");
    assert_eq!(
        PathBuf::from(path),
        PathBuf::from("/var/run/rocker/test_container/config.json")
    );
}

#[test]
fn test_log_path() {
    let path = ContainerStore::log_path("test_container");
    assert_eq!(
        PathBuf::from(path),
        PathBuf::from("/var/run/rocker/test_container/container.log")
    );
}

#[test]
fn store_paths_are_exact() {
    assert_eq!(ContainerStore::container_dir("c"), "/var/run/rocker/c/");
    assert_eq!(ContainerStore::config_path("c"), "/var/run/rocker/c/config.json");
    assert_eq!(ContainerStore::log_path("c"), "/var/run/rocker/c/container.log");
    assert_eq!(ContainerStore::container_dir(""), "/var/run/rocker//");
    assert_ne!(ContainerStore::container_dir("a"), ContainerStore::container_dir("b"));
}

#[test]
fn store_decisions() {
    let info = record("web", "77", ContainerStatus::Running);
    assert_eq!(
        ContainerStore::save(&info),
        ("/var/run/rocker/web/".to_string(), "/var/run/rocker/web/config.json".to_string())
    );
    let loaded = ContainerStore::load("web", Some(info.duplicate())).unwrap();
    assert!(same_record(&loaded, &info));
    match ContainerStore::load("ghost", None) {
        Err(RuntimeError::MetadataNotFound { name }) => assert_eq!(name, "ghost"),
        _ => panic!("what has no record file is not found"),
    }
    assert_eq!(ContainerStore::delete("web", true), Some("/var/run/rocker/web/".to_string()));
    assert_eq!(ContainerStore::delete("web", false), None);
}

#[test]
fn pid_written_at_run_is_read_at_stop() {
    for pid in [0, 1, 9, 10, 4321, i32::MAX] {
        let made = rocker::runtime::Orchestrator::running_record("0123456789", None, pid, "c", "t", "i");
        assert_eq!(parse_pid(&made.pid).unwrap(), pid);
        assert!(matches!(
            Lifecycle::stop("0123456789", Some(made)),
            Ok(StopPlan::Terminate { pid: p, .. }) if p == pid
        ));
    }
}

#[test]
fn id_from_clock_reading() {
    assert_eq!(ContainerInfo::id_from_nanos(0), "0000000000");
    assert_eq!(ContainerInfo::id_from_nanos(42), "0000000042");
    assert_eq!(ContainerInfo::id_from_nanos(9_999_999_999), "9999999999");
    assert_eq!(ContainerInfo::id_from_nanos(10_000_000_000), "0000000000");
    assert_eq!(ContainerInfo::id_from_nanos(1_700_000_000_123_456_789), "0123456789");
    assert_eq!(ContainerInfo::id_from_nanos(u64::MAX), "3709551615");
}

#[test]
fn status_words() {
    assert_eq!(ContainerStatus::Running.as_str(), "running");
    assert_eq!(ContainerStatus::Stopped.as_str(), "stopped");
    assert_eq!(ContainerStatus::Exited.as_str(), "exited");
    assert_eq!(ContainerStatus::Running.to_string(), "running");
    for status in [ContainerStatus::Running, ContainerStatus::Stopped, ContainerStatus::Exited] {
        assert_eq!(ContainerStatus::parse(status.as_str()), Some(status));
    }
    assert_eq!(ContainerStatus::parse("Running"), None);
    assert_eq!(ContainerStatus::parse(""), None);
    assert_eq!(ContainerStatus::parse("exited "), None);
}

#[test]
fn record_copy_is_field_by_field() {
    let a = record("web", "77", ContainerStatus::Running);
    let b = a.duplicate();
    assert!(same_record(&a, &b));
}

#[test]
fn update_status_changes_only_the_status() {
    let before = record("web", "77", ContainerStatus::Running);
    let after = ContainerStore::update_status(before.duplicate(), ContainerStatus::Exited);
    assert_eq!(after.status, ContainerStatus::Exited);
    let mut expected = before;
    expected.status = ContainerStatus::Exited;
    assert!(same_record(&after, &expected));
}

#[test]
fn list_skips_the_reserved_name_and_what_could_not_be_read() {
    assert!(ContainerStore::is_reserved("network"));
    assert!(!ContainerStore::is_reserved("networks"));
    assert!(!ContainerStore::is_reserved(""));
    let entries = vec![
        StoreEntry { name: "a".to_string(), loaded: Some(record("a", "1", ContainerStatus::Running)) },
        StoreEntry {
            name: "network".to_string(),
            loaded: Some(record("network", "2", ContainerStatus::Running)),
        },
        StoreEntry { name: "broken".to_string(), loaded: None },
        StoreEntry { name: "network".to_string(), loaded: None },
        StoreEntry { name: "b".to_string(), loaded: Some(record("b", "", ContainerStatus::Stopped)) },
    ];
    let listed = ContainerStore::list_all(entries);
    let names: Vec<&str> = listed.iter().map(|r| r.name.as_str()).collect();
    assert_eq!(names, vec!["a", "b"]);
    assert!(ContainerStore::list_all(vec![]).is_empty());
}

#[test]
fn pid_must_be_digits() {
    assert_eq!(parse_pid("12345").unwrap(), 12345);
    assert_eq!(parse_pid("0").unwrap(), 0);
    assert_eq!(parse_pid("007").unwrap(), 7);
    assert_eq!(parse_pid("2147483647").unwrap(), i32::MAX);
    for bad in ["", "+5", "-5", "12a", " 12", "2147483648", "99999999999999999999999", "１２"] {
        match parse_pid(bad) {
            Err(RuntimeError::ParseFailed { what }) => assert_eq!(what, format!("pid {}", bad)),
            _ => panic!("{:?} names no process", bad),
        }
    }
}

#[test]
fn stop_sends_the_signal_and_clears_the_pid() {
    let before = record("web", "4321", ContainerStatus::Running);
    match Lifecycle::stop("web", Some(before.duplicate())).unwrap() {
        StopPlan::Terminate { pid, record: after } => {
            assert_eq!(pid, 4321);
            let mut expected = before;
            expected.pid = String::new();
            expected.status = ContainerStatus::Stopped;
            assert!(same_record(&after, &expected));
        }
        StopPlan::AlreadyStopped => panic!("a running container is sent the signal"),
    }
    // an exited container is treated like a running one
    assert!(matches!(
        Lifecycle::stop("web", Some(record("web", "9", ContainerStatus::Exited))),
        Ok(StopPlan::Terminate { pid: 9, .. })
    ));
}

#[test]
fn stop_of_a_stopped_container_does_nothing() {
    assert!(matches!(
        Lifecycle::stop("web", Some(record("web", "", ContainerStatus::Stopped))),
        Ok(StopPlan::AlreadyStopped)
    ));
    assert!(matches!(
        Lifecycle::stop("web", Some(record("web", "junk", ContainerStatus::Stopped))),
        Ok(StopPlan::AlreadyStopped)
    ));
}

#[test]
fn stop_failures() {
    assert!(matches!(
        Lifecycle::stop("ghost", None),
        Err(RuntimeError::MetadataNotFound { name }) if name == "ghost"
    ));
    assert!(matches!(
        Lifecycle::stop("web", Some(record("web", "12x", ContainerStatus::Running))),
        Err(RuntimeError::ParseFailed { what }) if what == "pid 12x"
    ));
    assert!(matches!(
        Lifecycle::stop("web", Some(record("web", "", ContainerStatus::Exited))),
        Err(RuntimeError::ParseFailed { .. })
    ));
}

#[test]
fn rm_refuses_a_running_container() {
    let running = record("web", "1", ContainerStatus::Running);
    match Lifecycle::rm("web", Some(&running)) {
        Err(e) => {
            assert!(matches!(&e, RuntimeError::InvalidState { name } if name == "web"));
            assert_eq!(e.message(), "container web is running");
        }
        Ok(_) => panic!("a running container is not removed"),
    }
    match Lifecycle::rm("ghost", None) {
        Err(e) => {
            assert!(matches!(&e, RuntimeError::MetadataNotFound { name } if name == "ghost"));
            assert_eq!(e.message(), "container ghost not found");
        }
        Ok(_) => panic!("what has no record is not removed"),
    }
    let exited = record("web", "1", ContainerStatus::Exited);
    assert_eq!(Lifecycle::rm("web", Some(&exited)).unwrap(), "/var/run/rocker/web/");
}

#[test]
fn stop_then_rm_succeeds() {
    for status in [ContainerStatus::Running, ContainerStatus::Exited] {
        let plan = Lifecycle::stop("web", Some(record("web", "55", status))).unwrap();
        let after = match plan {
            StopPlan::Terminate { record, .. } => record,
            StopPlan::AlreadyStopped => panic!("not stopped before"),
        };
        assert_eq!(after.status, ContainerStatus::Stopped);
        assert_eq!(Lifecycle::rm("web", Some(&after)).unwrap(), "/var/run/rocker/web/");
    }
    let stopped = record("web", "", ContainerStatus::Stopped);
    assert!(matches!(
        Lifecycle::stop("web", Some(stopped.duplicate())),
        Ok(StopPlan::AlreadyStopped)
    ));
    assert!(Lifecycle::rm("web", Some(&stopped)).is_ok());
    // once the directory is removed nothing is left to read
    assert!(matches!(Lifecycle::rm("web", None), Err(RuntimeError::MetadataNotFound { .. })));
    assert!(matches!(
        Lifecycle::logs("web", false),
        Err(RuntimeError::MetadataNotFound { name }) if name == "web"
    ));
}

#[test]
fn logs_and_commit() {
    assert_eq!(Lifecycle::logs("web", true).unwrap(), "/var/run/rocker/web/container.log");
    assert_eq!(
        Lifecycle::commit("web", "snapshot", "/var/lib/rocker/images/busybox/latest/rootfs", true)
            .unwrap(),
        vec!["-czf", "snapshot.tar", "-C", "/var/lib/rocker/images/busybox/latest/rootfs", "."]
    );
    assert!(matches!(
        Lifecycle::commit("web", "snapshot", "/r", false),
        Err(RuntimeError::MetadataNotFound { name }) if name == "web"
    ));
}

#[test]
fn exec_enters_the_namespaces_in_order() {
    let running = record("web", "4321", ContainerStatus::Running);
    let plan = Lifecycle::exec("web", Some(&running)).unwrap();
    assert_eq!(plan.environ_path, "/proc/4321/environ");
    let entered: Vec<(&str, Namespace)> =
        plan.namespaces.iter().map(|n| (n.path.as_str(), n.namespace)).collect();
    assert_eq!(
        entered,
        vec![
            ("/proc/4321/ns/ipc", Namespace::Ipc),
            ("/proc/4321/ns/uts", Namespace::Uts),
            ("/proc/4321/ns/net", Namespace::Net),
            ("/proc/4321/ns/pid", Namespace::Pid),
            ("/proc/4321/ns/mnt", Namespace::Mount),
        ]
    );
    assert!(matches!(
        Lifecycle::exec("ghost", None),
        Err(RuntimeError::MetadataNotFound { name }) if name == "ghost"
    ));
    let stopped = record("web", "", ContainerStatus::Stopped);
    assert!(matches!(
        Lifecycle::exec("web", Some(&stopped)),
        Err(RuntimeError::ParseFailed { what }) if what == "pid "
    ));
}

#[test]
fn environ_is_read_entry_by_entry() {
    let vars = parse_environ("PATH=/bin:/usr/bin\0HOME=/root\0EMPTY=\0A=b=c\0").unwrap();
    assert_eq!(
        vars,
        vec![
            ("PATH".to_string(), "/bin:/usr/bin".to_string()),
            ("HOME".to_string(), "/root".to_string()),
            ("EMPTY".to_string(), "".to_string()),
            ("A".to_string(), "b=c".to_string()),
        ]
    );
    assert!(parse_environ("").unwrap().is_empty());
    assert!(parse_environ("\0\0").unwrap().is_empty());
    assert_eq!(parse_environ("A=1").unwrap(), vec![("A".to_string(), "1".to_string())]);
    assert_eq!(
        parse_environ("\0A=1\0\0B=2").unwrap(),
        vec![("A".to_string(), "1".to_string()), ("B".to_string(), "2".to_string())]
    );
    for bad in ["A", "A=1\0B\0", "=x\0", "A=1\0=\0"] {
        match parse_environ(bad) {
            Err(e) => {
                assert!(matches!(&e, RuntimeError::ParseFailed { what } if what == "environ"));
                assert_eq!(e.message(), "could not parse environ");
            }
            Ok(_) => panic!("{:?} is no environment", bad),
        }
    }
}

#[test]
fn launch_plan() {
    let plan = Container::create_parent_process(true, "/bin/sh", "/home/u/busybox", 3, 4);
    assert_eq!(plan.program, "/proc/self/exe");
    assert_eq!(plan.args, vec!["init", "/bin/sh"]);
    assert_eq!(plan.stdio, StdioMode::Inherit);
    assert_eq!(
        plan.namespaces,
        vec![Namespace::Uts, Namespace::Ipc, Namespace::Pid, Namespace::Mount, Namespace::Net]
    );
    assert!(!plan.namespaces.contains(&Namespace::User));
    assert_eq!(plan.scratch_dir, "/home/u/busybox/.pivot_root");
    assert_eq!(plan.scratch_mode, 0o777);
    assert_eq!(plan.working_dir, "/home/u/busybox");
    assert_eq!((plan.read_pipe_fd, plan.write_pipe_fd), (3, 4));

    let plan = Container::create_parent_process(false, "ls -l", "/r/", 7, 8);
    assert_eq!(plan.args, vec!["init", "ls -l"]);
    assert_eq!(plan.stdio, StdioMode::Piped);
    assert_eq!(plan.scratch_dir, "/r/.pivot_root");
    assert!(!plan.namespaces.contains(&Namespace::User));
}

fn describe(step: &InitStep) -> String {
    match step {
        InitStep::Mount { source, target, fstype, flags, data } => {
            format!("mount {:?} {} {:?} {:?} {:?}", source, target, fstype, flags, data)
        }
        InitStep::PivotRoot { new_root, put_old } => format!("pivot_root {} {}", new_root, put_old),
        InitStep::Chdir { path } => format!("chdir {}", path),
        InitStep::Unmount { target, detach } => format!("umount {} {}", target, detach),
        InitStep::CreateDir { path } => format!("mkdir {}", path),
    }
}

#[test]
fn root_is_changed_before_the_mounts() {
    let steps: Vec<String> = Container::setup_mount("/new").iter().map(describe).collect();
    assert_eq!(
        steps,
        vec![
            "mount None / None [Private, Recursive] None",
            "mount Some(\"/new\") /new Some(\"bind\") [Bind, Recursive] Some(\"\")",
            "pivot_root /new /new/.pivot_root",
            "chdir /",
            "umount /.pivot_root true",
            "mkdir /proc",
            "mkdir /dev",
            "mount Some(\"proc\") /proc Some(\"proc\") [NoExec, NoSuid, NoDev] Some(\"\")",
            "mount Some(\"tmpfs\") /dev Some(\"tmpfs\") [NoSuid, StrictAtime] Some(\"mode=755\")",
        ]
    );
    let pivot: Vec<String> = Container::pivot_root("/new").iter().map(describe).collect();
    assert_eq!(pivot[..], steps[..5]);
    let all = Container::setup_mount("/new");
    let change = all.iter().position(|s| matches!(s, InitStep::PivotRoot { .. })).unwrap();
    for (k, step) in all.iter().enumerate() {
        if let InitStep::Mount { flags, .. } = step {
            if !flags.contains(&MountFlag::Private) && !flags.contains(&MountFlag::Bind) {
                assert!(change < k);
            }
        }
    }
}

#[test]
fn failed_steps_name_their_call() {
    let steps = Container::setup_mount("/new");
    let calls: Vec<String> = steps
        .iter()
        .map(|s| match Container::step_failed(s, "EPERM") {
            RuntimeError::SyscallFailed { call, cause } => {
                assert_eq!(cause, "EPERM");
                call
            }
            _ => panic!("a failed step is a failed system call"),
        })
        .collect();
    assert_eq!(
        calls,
        vec!["mount", "mount", "pivot_root", "chdir", "umount2", "mkdir", "mkdir", "mount", "mount"]
    );
    assert_eq!(Container::step_failed(&steps[2], "EINVAL").message(), "pivot_root failed: EINVAL");
    match Container::spawn_failed("Operation not permitted") {
        RuntimeError::ChildSpawnFailed { cause } => assert_eq!(cause, "Operation not permitted"),
        _ => panic!("a failed start is a spawn failure"),
    }
}

#[test]
fn executable_is_searched_in_order() {
    assert_eq!(
        Container::executable_candidates("sh"),
        vec!["/bin/sh", "/usr/bin/sh", "/sbin/sh", "/usr/sbin/sh"]
    );
    assert!(Container::executable_candidates("/bin/sh").is_empty());
    assert_eq!(Container::resolve_executable("sh", &vec![true, true, true, true]), "/bin/sh");
    assert_eq!(Container::resolve_executable("sh", &vec![false, true, false, true]), "/usr/bin/sh");
    assert_eq!(Container::resolve_executable("ip", &vec![false, false, true, false]), "/sbin/ip");
    assert_eq!(Container::resolve_executable("ip", &vec![false, false, false, true]), "/usr/sbin/ip");
    // nothing found: the bare name, for the kernel to refuse
    assert_eq!(Container::resolve_executable("nope", &vec![false, false, false, false]), "nope");
    assert_eq!(Container::resolve_executable("nope", &vec![]), "nope");
    assert_eq!(Container::resolve_executable("sh", &vec![false, true]), "/usr/bin/sh");
    // an absolute path is used as it is
    assert_eq!(Container::resolve_executable("/opt/x", &vec![true, true, true, true]), "/opt/x");
}

#[test]
fn init_image() {
    let vars = vec![
        ("PATH".to_string(), "/bin".to_string()),
        ("EMPTY".to_string(), "".to_string()),
    ];
    let image = Container::init_process("ls -l /tmp", &vec![false, true, false, false], &vars);
    assert_eq!(image.path, "/usr/bin/ls");
    assert_eq!(image.argv, vec!["ls", "-l", "/tmp"]);
    assert_eq!(image.envp, vec!["PATH=/bin", "EMPTY="]);

    let image = Container::init_process("/bin/echo hello", &vec![], &vec![]);
    assert_eq!(image.path, "/bin/echo");
    assert_eq!(image.argv, vec!["/bin/echo", "hello"]);
    assert!(image.envp.is_empty());

    // two spaces give an empty argument; an empty command gives one empty argument
    let image = Container::init_process("a  b", &vec![], &vec![]);
    assert_eq!(image.argv, vec!["a", "", "b"]);
    assert_eq!(image.path, "a");
    let image = Container::init_process("", &vec![], &vec![]);
    assert_eq!(image.argv, vec![""]);
    assert_eq!(image.path, "");
}
