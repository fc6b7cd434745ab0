use vstd::prelude::*;
use vstd::string::*;
use crate::error::{ConmonError, ConmonResult};
use crate::text::{join2, join_path, path_join};

verus! {

/// The command-line options that decide what this invocation does.
pub struct Opts {
    pub api_version: Option<i32>,
    pub bundle: Option<String>,
    pub cid: Option<String>,
    pub conmon_pidfile: Option<String>,
    pub container_pidfile: Option<String>,
    pub cuuid: Option<String>,
    pub exec_flag: bool,
    pub attach: bool,
    pub exec_process_spec: Option<String>,
    pub leave_stdin_open: bool,
    pub restore: Option<String>,
    pub runtime: Option<String>,
    pub runtime_args: Vec<String>,
    pub runtime_opts: Vec<String>,
    pub socket_dir_path: Option<String>,
    pub stdin: bool,
    pub systemd_cgroup: bool,
    pub version_flag: bool,
    pub full_attach: bool,
    pub no_pivot: bool,
    pub no_new_keyring: bool,
}

/// Settings shared by every runtime invocation.
pub struct CommonCfg {
    pub api_version: i32,
    pub cid: String,
    pub cuuid: Option<String>,
    pub runtime: String,
    pub runtime_args: Vec<String>,
    pub runtime_opts: Vec<String>,
    pub no_pivot: bool,
    pub no_new_keyring: bool,
    pub bundle: String,
    pub container_pidfile: String,
    pub conmon_pidfile: Option<String>,
    pub socket_dir_path: Option<String>,
    pub full_attach: bool,
    pub stdin: bool,
    pub leave_stdin_open: bool,
}

pub struct CreateCfg {
    pub common: CommonCfg,
    pub systemd_cgroup: bool,
}

pub struct ExecCfg {
    pub common: CommonCfg,
    pub exec_process_spec: String,
    pub attach: bool,
}

pub struct RestoreCfg {
    pub common: CommonCfg,
    pub restore_path: String,
    pub systemd_cgroup: bool,
}

/// What this invocation is asked to do.
pub enum Cmd {
    Version,
    Create(CreateCfg),
    Exec(ExecCfg),
    Restore(RestoreCfg),
}

/// The API version in force: 0 when none was given.
pub open spec fn api_of(o: Opts) -> i32 {
    match o.api_version {
        Some(v) => v,
        None => 0,
    }
}

/// The message of the first rule that the options break, in the order the
/// rules are checked; `None` when they break none. `runtime_executable`
/// tells whether the runtime path names an executable file; `cwd` is the
/// working directory, or why it could not be had.
pub open spec fn cmd_error(o: Opts, runtime_executable: bool, cwd: Result<String, String>) -> Option<Seq<char>> {
    let api = api_of(o);
    if o.version_flag {
        None
    } else if o.cid is None {
        Some("Container ID not provided. Use --cid"@)
    } else if o.runtime is None {
        Some("Runtime path not provided. Use --runtime"@)
    } else if o.restore is Some && o.exec_flag {
        Some("Cannot use 'exec' and 'restore' at the same time"@)
    } else if !o.exec_flag && o.attach {
        Some("Attach can only be specified with exec"@)
    } else if api < 1 && o.attach {
        Some("Attach can only be specified for a non-legacy exec session"@)
    } else if o.cuuid is None && (!o.exec_flag || api >= 1) {
        Some("Container UUID not provided. Use --cuuid"@)
    } else if !runtime_executable {
        Some("Runtime path "@ + o.runtime->Some_0@ + " is not valid"@)
    } else if cwd is Err {
        Some("Failed to get working directory: "@ + cwd->Err_0@)
    } else if o.restore is None && o.exec_flag && o.exec_process_spec is None {
        Some("Exec process spec path not provided. Use --exec-process-spec"@)
    } else {
        None
    }
}

/// The common settings that valid options give, with the bundle and
/// container pidfile defaulted from the working directory `cwd`.
pub open spec fn common_matches(c: CommonCfg, o: Opts, cwd: Seq<char>) -> bool {
    &&& c.api_version == api_of(o)
    &&& c.cid == o.cid->Some_0
    &&& c.cuuid == o.cuuid
    &&& c.runtime == o.runtime->Some_0
    &&& c.runtime_args == o.runtime_args
    &&& c.runtime_opts == o.runtime_opts
    &&& c.no_pivot == o.no_pivot
    &&& c.no_new_keyring == o.no_new_keyring
    &&& c.bundle@ == (match o.bundle {
        Some(b) => b@,
        None => cwd,
    })
    &&& c.container_pidfile@ == (match o.container_pidfile {
        Some(p) => p@,
        None => path_join(cwd, "pidfile-"@ + o.cid->Some_0@),
    })
    &&& c.conmon_pidfile == o.conmon_pidfile
    &&& c.socket_dir_path == o.socket_dir_path
    &&& c.full_attach == o.full_attach
    &&& c.stdin == o.stdin
    &&& c.leave_stdin_open == o.leave_stdin_open
}

/// The command that valid options ask for, with its settings.
pub open spec fn cmd_matches(r: Cmd, o: Opts, cwd: Result<String, String>) -> bool {
    if o.version_flag {
        r is Version
    } else {
        match r {
            Cmd::Restore(c) => o.restore is Some && common_matches(c.common, o, cwd->Ok_0@)
                && c.restore_path == o.restore->Some_0 && c.systemd_cgroup == o.systemd_cgroup,
            Cmd::Exec(c) => o.restore is None && o.exec_flag && common_matches(c.common, o, cwd->Ok_0@)
                && c.exec_process_spec == o.exec_process_spec->Some_0 && c.attach == o.attach,
            Cmd::Create(c) => o.restore is None && !o.exec_flag && common_matches(c.common, o, cwd->Ok_0@)
                && c.systemd_cgroup == o.systemd_cgroup,
            Cmd::Version => false,
        }
    }
}

/// Checks the options and decides the command. `runtime_executable` tells
/// whether the runtime path names an executable file, `cwd` is the working
/// directory or the reason it could not be read.
pub fn determine_cmd(o: Opts, runtime_executable: bool, cwd: Result<String, String>) -> (r: ConmonResult<Cmd>)
    ensures
        r is Err <==> cmd_error(o, runtime_executable, cwd) is Some,
        r matches Err(e) ==> e.msg@ == cmd_error(o, runtime_executable, cwd)->Some_0 && e.code == 1,
        r matches Ok(c) ==> cmd_matches(c, o, cwd),
{
    let ghost o0 = o;
    let api_version: i32 = match o.api_version {
        Some(v) => v,
        None => 0,
    };
    if o.version_flag {
        return Ok(Cmd::Version);
    }
    let cid = match o.cid {
        Some(c) => c,
        None => return Err(ConmonError::new("Container ID not provided. Use --cid", 1)),
    };
    let runtime = match o.runtime {
        Some(r) => r,
        None => return Err(ConmonError::new("Runtime path not provided. Use --runtime", 1)),
    };
    if o.restore.is_some() && o.exec_flag {
        return Err(ConmonError::new("Cannot use 'exec' and 'restore' at the same time", 1));
    }
    if !o.exec_flag && o.attach {
        return Err(ConmonError::new("Attach can only be specified with exec", 1));
    }
    if api_version < 1 && o.attach {
        return Err(ConmonError::new("Attach can only be specified for a non-legacy exec session", 1));
    }
    if o.cuuid.is_none() && (!o.exec_flag || api_version >= 1) {
        return Err(ConmonError::new("Container UUID not provided. Use --cuuid", 1));
    }
    if !runtime_executable {
        let mut m = join2("Runtime path ", runtime.as_str());
        m.append(" is not valid");
        return Err(ConmonError::fatal(m));
    }
    let cwd = match cwd {
        Ok(d) => d,
        Err(e) => return Err(ConmonError::fatal(join2("Failed to get working directory: ", e.as_str()))),
    };
    let bundle = match o.bundle {
        Some(b) => b,
        None => cwd.clone(),
    };
    let container_pidfile = match o.container_pidfile {
        Some(p) => p,
        None => {
            let file = join2("pidfile-", cid.as_str());
            join_path(cwd.as_str(), file.as_str())
        },
    };
    if o.restore.is_none() && o.exec_flag && o.exec_process_spec.is_none() {
        return Err(ConmonError::new("Exec process spec path not provided. Use --exec-process-spec", 1));
    }
    let common = CommonCfg {
        api_version,
        cid,
        cuuid: o.cuuid,
        runtime,
        runtime_args: o.runtime_args,
        runtime_opts: o.runtime_opts,
        no_pivot: o.no_pivot,
        no_new_keyring: o.no_new_keyring,
        bundle,
        container_pidfile,
        conmon_pidfile: o.conmon_pidfile,
        socket_dir_path: o.socket_dir_path,
        full_attach: o.full_attach,
        stdin: o.stdin,
        leave_stdin_open: o.leave_stdin_open,
    };
    match o.restore {
        Some(restore_path) => Ok(Cmd::Restore(RestoreCfg { common, restore_path, systemd_cgroup: o.systemd_cgroup })),
        None => {
            if o.exec_flag {
                match o.exec_process_spec {
                    Some(spec) => Ok(Cmd::Exec(ExecCfg { common, exec_process_spec: spec, attach: o.attach })),
                    None => Err(ConmonError::new("Exec process spec path not provided. Use --exec-process-spec", 1)),
                }
            } else {
                Ok(Cmd::Create(CreateCfg { common, systemd_cgroup: o.systemd_cgroup }))
            }
        },
    }
}

} // verus!
