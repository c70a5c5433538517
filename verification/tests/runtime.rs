use rocker::container::info::ContainerStatus;
use rocker::error::RuntimeError;
use rocker::runtime::{CmdConfig, Invocation, Orchestrator, RunStep};

fn words(items: &[&str]) -> Vec<String> {
    items.iter().map(|s| s.to_string()).collect()
}

#[test]
fn run_is_read_from_the_command_line() {
    let mut config = CmdConfig::default();
    config.enable_tty = true;
    config.memory_limit = "100m".to_string();
    config.cpu_shares = "512".to_string();
    config.image = "busybox".to_string();
    config.run_command = words(&["/bin/sh"]);
    match config.check_and_call(Some("run")).unwrap() {
        Invocation::Run { tty, command, res, image } => {
            assert!(tty);
            assert_eq!(command, "/bin/sh");
            assert_eq!(res.memory_limit, Some("100m".to_string()));
            assert_eq!(res.cpu_shares, Some("512".to_string()));
            assert_eq!(res.cpu_set, None);
            assert_eq!(image, Some(("busybox".to_string(), "latest".to_string())));
        }
        _ => panic!("run asks for a run"),
    }
    config.image = String::new();
    config.cpu_set = "0-1".to_string();
    config.run_command = words(&["ls", "-l", "/"]);
    match config.check_and_call(Some("run")).unwrap() {
        Invocation::Run { command, res, image, .. } => {
            assert_eq!(command, "ls -l /");
            assert_eq!(res.cpu_set, Some("0-1".to_string()));
            assert_eq!(image, None);
        }
        _ => panic!("run asks for a run"),
    }
    let res = config.resource_config();
    assert_eq!(res.memory_limit, Some("100m".to_string()));
}

#[test]
fn other_commands_are_read_from_the_command_line() {
    let mut config = CmdConfig::default();
    config.init_command = words(&["/bin/sh -c ls"]);
    config.container_name = "web".to_string();
    config.image_name = "snap:v1".to_string();
    config.tar_file = "busybox.tar".to_string();
    config.exec_command = words(&["readlink", "/proc/self/ns/pid"]);
    assert!(matches!(
        config.check_and_call(Some("init")),
        Ok(Invocation::Init { command }) if command == "/bin/sh -c ls"
    ));
    assert!(matches!(config.check_and_call(Some("ps")), Ok(Invocation::Ps)));
    assert!(matches!(config.check_and_call(Some("images")), Ok(Invocation::Images)));
    assert!(matches!(config.check_and_call(Some("logs")), Ok(Invocation::Logs { name }) if name == "web"));
    assert!(matches!(config.check_and_call(Some("stop")), Ok(Invocation::Stop { name }) if name == "web"));
    assert!(matches!(config.check_and_call(Some("rm")), Ok(Invocation::Rm { name }) if name == "web"));
    assert!(matches!(
        config.check_and_call(Some("commit")),
        Ok(Invocation::Commit { name, target }) if name == "web" && target == "snap:v1"
    ));
    assert!(matches!(
        config.check_and_call(Some("exec")),
        Ok(Invocation::Exec { name, argv }) if name == "web" && argv == words(&["readlink", "/proc/self/ns/pid"])
    ));
    assert!(matches!(
        config.check_and_call(Some("import")),
        Ok(Invocation::Import { tar_file, name, tag })
            if tar_file == "busybox.tar" && name == "snap" && tag == "v1"
    ));
    config.image_name = "busybox".to_string();
    assert!(matches!(
        config.check_and_call(Some("import")),
        Ok(Invocation::Import { name, tag, .. }) if name == "busybox" && tag == "latest"
    ));
}

#[test]
fn command_line_failures() {
    let config = CmdConfig::default();
    for (cmd, what) in [
        (None, "command"),
        (Some("frobnicate"), "command"),
        (Some(""), "command"),
        (Some("run"), "run: command"),
        (Some("init"), "init: command"),
        (Some("exec"), "exec: command"),
    ] {
        match config.check_and_call(cmd) {
            Err(RuntimeError::ParseFailed { what: w }) => assert_eq!(w, what),
            _ => panic!("{:?} cannot be called", cmd),
        }
    }
}

#[test]
fn run_keeps_its_order() {
    assert_eq!(
        Orchestrator::run_steps(true),
        vec![
            RunStep::ResolveRootfs,
            RunStep::GenerateId,
            RunStep::Launch,
            RunStep::SaveRecord,
            RunStep::CgroupSet,
            RunStep::CgroupApply,
            RunStep::Wait,
            RunStep::RemoveScratch,
            RunStep::CgroupDestroy,
            RunStep::DeleteRecord,
            RunStep::Exit,
        ]
    );
    assert_eq!(
        Orchestrator::run_steps(false),
        vec![
            RunStep::ResolveRootfs,
            RunStep::GenerateId,
            RunStep::Launch,
            RunStep::SaveRecord,
            RunStep::CgroupSet,
            RunStep::CgroupApply,
            RunStep::CaptureLogs,
            RunStep::Wait,
            RunStep::RemoveScratch,
            RunStep::CgroupDestroy,
            RunStep::MarkExited,
            RunStep::Exit,
        ]
    );
    for tty in [true, false] {
        let steps = Orchestrator::run_steps(tty);
        let at = |s: RunStep| steps.iter().position(|x| *x == s);
        assert!(at(RunStep::SaveRecord) < at(RunStep::CgroupSet));
        assert!(at(RunStep::CgroupSet) < at(RunStep::CgroupApply));
        assert!(at(RunStep::CgroupApply) < at(RunStep::Wait));
        assert!(at(RunStep::Wait) < at(RunStep::CgroupDestroy));
    }
}

#[test]
fn first_process_reads_the_command_that_run_was_given() {
    for given in [vec!["/bin/sh"], vec!["ls", "-l", "/"], vec!["echo", "", "x"], vec![""]] {
        let mut config = CmdConfig::default();
        config.run_command = words(&given);
        let command = match config.check_and_call(Some("run")).unwrap() {
            Invocation::Run { command, .. } => command,
            _ => panic!("run asks for a run"),
        };
        let image = rocker::container::Container::init_process(&command, &vec![], &vec![]);
        assert_eq!(image.argv, given);
    }
}

#[test]
fn failed_run_cleans_up() {
    assert!(Orchestrator::cleanup_after(RunStep::ResolveRootfs).is_empty());
    assert!(Orchestrator::cleanup_after(RunStep::GenerateId).is_empty());
    assert_eq!(Orchestrator::cleanup_after(RunStep::Launch), vec![RunStep::RemoveScratch]);
    assert_eq!(Orchestrator::cleanup_after(RunStep::SaveRecord), vec![RunStep::RemoveScratch]);
    for failed in [RunStep::CgroupSet, RunStep::CgroupApply, RunStep::CaptureLogs, RunStep::Wait] {
        assert_eq!(
            Orchestrator::cleanup_after(failed),
            vec![RunStep::RemoveScratch, RunStep::CgroupDestroy]
        );
    }
    for failed in [
        RunStep::RemoveScratch,
        RunStep::CgroupDestroy,
        RunStep::DeleteRecord,
        RunStep::MarkExited,
        RunStep::Exit,
    ] {
        assert!(Orchestrator::cleanup_after(failed).is_empty());
    }
}

#[test]
fn record_of_a_run() {
    let record = Orchestrator::running_record(
        "0123456789",
        None,
        4321,
        "/bin/echo hello",
        "2024-01-01 12:00:00",
        "busybox:latest",
    );
    assert_eq!(record.pid, "4321");
    assert_eq!(record.id, "0123456789");
    assert_eq!(record.name, "0123456789");
    assert_eq!(record.command, "/bin/echo hello");
    assert_eq!(record.created_time, "2024-01-01 12:00:00");
    assert_eq!(record.status, ContainerStatus::Running);
    assert_eq!(record.volume, None);
    assert!(record.port_mapping.is_empty());
    assert_eq!(record.network, None);
    assert_eq!(record.image_name, "busybox:latest");
    let named = Orchestrator::running_record("0123456789", Some("web"), 1, "c", "t", "i");
    assert_eq!(named.name, "web");
    assert_eq!(named.id, "0123456789");
}

#[test]
fn record_after_the_run() {
    let record = Orchestrator::running_record("0123456789", None, 4321, "/bin/sh", "t", "i");
    // with the terminal: nothing is kept
    assert!(Orchestrator::finished_record(record.duplicate(), true).is_none());
    // without: the record says that the container has exited
    let kept = Orchestrator::finished_record(record, false).unwrap();
    assert_eq!(kept.status, ContainerStatus::Exited);
    assert_eq!(kept.pid, "4321");
    assert_eq!(kept.id, "0123456789");
}

#[test]
fn exit_code_of_a_run() {
    assert_eq!(Orchestrator::exit_code(Some(0)), 0);
    assert_eq!(Orchestrator::exit_code(Some(137)), 137);
    assert_eq!(Orchestrator::exit_code(None), -1);
    assert_eq!(Orchestrator::fallback_rootfs("/home/u"), "/home/u/busybox");
    assert_eq!(Orchestrator::fallback_rootfs("/"), "/busybox");
}
