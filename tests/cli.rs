use conmon::cli::{determine_cmd, Cmd, Opts};
use conmon::commands::Version;

fn opts() -> Opts {
    Opts {
        api_version: None,
        bundle: None,
        cid: None,
        conmon_pidfile: None,
        container_pidfile: None,
        cuuid: None,
        exec_flag: false,
        attach: false,
        exec_process_spec: None,
        leave_stdin_open: false,
        restore: None,
        runtime: None,
        runtime_args: vec![],
        runtime_opts: vec![],
        socket_dir_path: None,
        stdin: false,
        systemd_cgroup: false,
        version_flag: false,
        full_attach: false,
        no_pivot: false,
        no_new_keyring: false,
    }
}

fn cwd() -> Result<String, String> {
    Ok("/work".to_string())
}

#[test]
fn version_flag_returns_version_cmd() {
    let o = Opts { version_flag: true, ..opts() };
    let cmd = determine_cmd(o, false, cwd()).ok().expect("ok");
    match cmd {
        Cmd::Version => {}
        _ => panic!("expected Version"),
    }
}

#[test]
fn missing_cid_errors() {
    let err = determine_cmd(opts(), true, cwd()).err().unwrap();
    assert!(err.to_string().contains("Container ID not provided"));
}

#[test]
fn missing_runtime_errors() {
    let o = Opts { cid: Some("abc".into()), ..opts() };
    let err = determine_cmd(o, true, cwd()).err().unwrap();
    assert!(err.to_string().contains("Runtime path not provided"));
}

#[test]
fn attach_without_exec_errors() {
    let o = Opts {
        attach: true,
        cid: Some("abc".into()),
        runtime: Some("/usr/bin/runc".into()),
        ..opts()
    };
    let err = determine_cmd(o, true, cwd()).err().unwrap();
    assert!(err.to_string().contains("Attach can only be specified with exec"));
}

#[test]
fn attach_legacy_api_errors_even_with_exec() {
    let o = Opts {
        api_version: Some(0),
        exec_flag: true,
        attach: true,
        cid: Some("abc".into()),
        runtime: Some("/usr/bin/runc".into()),
        ..opts()
    };
    let err = determine_cmd(o, true, cwd()).err().unwrap();
    assert!(err.to_string().contains("non-legacy exec session"));
}

#[test]
fn legacy_exec_attach_with_cuuid_rejected() {
    let o = Opts {
        api_version: Some(0),
        exec_flag: true,
        attach: true,
        cid: Some("abc".into()),
        cuuid: Some("u1".into()),
        runtime: Some("/usr/bin/runc".into()),
        ..opts()
    };
    let err = determine_cmd(o, true, cwd()).err().unwrap();
    assert!(err.msg.contains("non-legacy exec session"));
    assert_eq!(err.code, 1);
}

#[test]
fn missing_cuuid_for_run_errors() {
    let o = Opts {
        cid: Some("abc".into()),
        runtime: Some("/usr/bin/runc".into()),
        ..opts()
    };
    let err = determine_cmd(o, true, cwd()).err().unwrap();
    assert!(err.to_string().contains("Container UUID not provided"));
}

#[test]
fn legacy_exec_needs_no_cuuid() {
    let o = Opts {
        exec_flag: true,
        cid: Some("abc".into()),
        runtime: Some("/usr/bin/runc".into()),
        exec_process_spec: Some("p.json".into()),
        ..opts()
    };
    assert!(matches!(determine_cmd(o, true, cwd()), Ok(Cmd::Exec(_))));
}

#[test]
fn cannot_mix_exec_and_restore() {
    let o = Opts {
        exec_flag: true,
        restore: Some("checkpoint".into()),
        cid: Some("abc".into()),
        cuuid: Some("u1".into()),
        runtime: Some("/usr/bin/runc".into()),
        ..opts()
    };
    let err = determine_cmd(o, true, cwd()).err().unwrap();
    assert!(err.to_string().contains("Cannot use 'exec' and 'restore'"));
}

#[test]
fn runtime_must_be_executable() {
    let o = Opts {
        cid: Some("abc".into()),
        cuuid: Some("u1".into()),
        runtime: Some("/etc/passwd".into()),
        ..opts()
    };
    let err = determine_cmd(o, false, cwd()).err().unwrap();
    assert!(err.to_string().contains("is not valid"));
    assert_eq!(err.msg, "Runtime path /etc/passwd is not valid");
}

#[test]
fn working_directory_failure_reported() {
    let o = Opts {
        cid: Some("abc".into()),
        cuuid: Some("u1".into()),
        runtime: Some("/usr/bin/runc".into()),
        ..opts()
    };
    let err = determine_cmd(o, true, Err("gone".to_string())).err().unwrap();
    assert_eq!(err.msg, "Failed to get working directory: gone");
}

#[test]
fn exec_success_with_spec_and_attach_new_api() {
    let o = Opts {
        api_version: Some(1),
        exec_flag: true,
        attach: true,
        cid: Some("abc".into()),
        cuuid: Some("u1".into()),
        runtime: Some("/usr/bin/runc".into()),
        exec_process_spec: Some("proc.json".into()),
        ..opts()
    };
    let cmd = determine_cmd(o, true, cwd()).ok().expect("ok");
    match cmd {
        Cmd::Exec(cfg) => {
            assert_eq!(cfg.common.api_version, 1);
            assert_eq!(cfg.common.cid, "abc");
            assert!(cfg.attach);
            assert_eq!(cfg.exec_process_spec, "proc.json");
        }
        _ => panic!("expected Exec"),
    }
}

#[test]
fn exec_missing_spec_errors() {
    let o = Opts {
        api_version: Some(1),
        exec_flag: true,
        cid: Some("abc".into()),
        cuuid: Some("u1".into()),
        runtime: Some("/usr/bin/runc".into()),
        ..opts()
    };
    let err = determine_cmd(o, true, cwd()).err().unwrap();
    assert!(err.to_string().contains("Exec process spec path not provided"));
}

#[test]
fn restore_success() {
    let o = Opts {
        cid: Some("abc".into()),
        cuuid: Some("u1".into()),
        runtime: Some("/usr/bin/runc".into()),
        restore: Some("checkpoint".into()),
        ..opts()
    };
    let cmd = determine_cmd(o, true, cwd()).ok().expect("ok");
    match cmd {
        Cmd::Restore(cfg) => {
            assert_eq!(cfg.common.cid, "abc");
            assert_eq!(cfg.restore_path, "checkpoint");
        }
        _ => panic!("expected Restore"),
    }
}

#[test]
fn run_defaults_success() {
    let o = Opts {
        cid: Some("abc".into()),
        cuuid: Some("u1".into()),
        runtime: Some("/usr/bin/runc".into()),
        ..opts()
    };
    let cmd = determine_cmd(o, true, Ok("/srv/ctr".to_string())).ok().expect("ok");
    match cmd {
        Cmd::Create(cfg) => {
            assert_eq!(cfg.common.bundle, "/srv/ctr");
            assert_eq!(cfg.common.container_pidfile, "/srv/ctr/pidfile-abc");
        }
        _ => panic!("expected Run"),
    }
}

#[test]
fn error_text_carries_code() {
    let err = determine_cmd(opts(), true, cwd()).err().unwrap();
    assert_eq!(err.to_string(), "Container ID not provided. Use --cid (code 1)");
}

#[test]
fn version_banner_text() {
    let v = Version {};
    assert_eq!(v.banner("conmon", "0.1.0", "abc123"), "conmon version 0.1.0\ncommit: abc123\n");
}
