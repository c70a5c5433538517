use rocker::error::RuntimeError;

fn text(s: &str) -> String {
    s.to_string()
}

#[test]
fn errors_describe_themselves_in_one_line() {
    let cases = vec![
        (
            RuntimeError::MountPointNotFound { subsystem: text("memory") },
            "cgroup mount point not found: memory",
        ),
        (
            RuntimeError::CgroupWrite {
                subsystem: text("cpu"),
                path: text("/sys/fs/cgroup/cpu/c/tasks"),
                cause: text("Permission denied"),
            },
            "cgroup cpu write to /sys/fs/cgroup/cpu/c/tasks failed: Permission denied",
        ),
        (RuntimeError::MetadataNotFound { name: text("web") }, "container web not found"),
        (RuntimeError::InvalidState { name: text("web") }, "container web is running"),
        (
            RuntimeError::ChildSpawnFailed { cause: text("EPERM") },
            "could not start the container: EPERM",
        ),
        (
            RuntimeError::SyscallFailed { call: text("mount"), cause: text("EINVAL") },
            "mount failed: EINVAL",
        ),
        (RuntimeError::TarFailed { stderr: text("tar: oops") }, "tar failed: tar: oops"),
        (RuntimeError::ParseFailed { what: text("pid x") }, "could not parse pid x"),
        (RuntimeError::FileNotFound { path: text("a.tar") }, "file not found: a.tar"),
    ];
    for (error, message) in cases {
        assert_eq!(error.message(), message);
        assert_eq!(error.duplicate().message(), message);
        assert!(!error.message().contains('\n'));
    }
}
