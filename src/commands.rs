use vstd::prelude::*;
use crate::args::{strs, RuntimeArgsGenerator};
use crate::cli::{CreateCfg, ExecCfg, RestoreCfg};
use crate::error::ConmonResult;
use vstd::string::*;
use crate::text::join2;

verus! {

/// Appends `s` to `argv`.
fn push_arg(argv: &mut Vec<String>, s: &str)
    ensures
        strs(final(argv)@) == strs(old(argv)@).push(s@),
{
    argv.push(s.to_owned());
    assert(strs(argv@) =~= strs(old(argv)@).push(s@));
}

/// `--systemd-cgroup` when asked for.
pub open spec fn cgroup_flag(systemd_cgroup: bool) -> Seq<Seq<char>> {
    if systemd_cgroup { seq!["--systemd-cgroup"@] } else { seq![] }
}

/// Appends `sub --bundle <bundle> --pid-file <pidfile>`.
fn push_bundle_args(argv: &mut Vec<String>, sub: &str, bundle: &str, pidfile: &str)
    ensures
        strs(final(argv)@) == strs(old(argv)@) + seq![sub@, "--bundle"@, bundle@, "--pid-file"@, pidfile@],
{
    let ghost a0 = argv@;
    push_arg(argv, sub);
    push_arg(argv, "--bundle");
    push_arg(argv, bundle);
    push_arg(argv, "--pid-file");
    push_arg(argv, pidfile);
    assert(strs(argv@) =~= strs(a0) + seq![sub@, "--bundle"@, bundle@, "--pid-file"@, pidfile@]);
}

/// Appends `--systemd-cgroup` when asked for.
fn push_cgroup_flag(argv: &mut Vec<String>, systemd_cgroup: bool)
    ensures
        strs(final(argv)@) == strs(old(argv)@) + cgroup_flag(systemd_cgroup),
{
    if systemd_cgroup {
        push_arg(argv, "--systemd-cgroup");
    }
    assert(strs(argv@) =~= strs(old(argv)@) + cgroup_flag(systemd_cgroup));
}

/// The `create` command.
pub struct Create {
    pub cfg: CreateCfg,
}

impl Create {
    pub fn new(cfg: CreateCfg) -> (r: Create)
        ensures
            r.cfg == cfg,
    {
        Create { cfg }
    }
}

impl RuntimeArgsGenerator for Create {
    open spec fn global_args(&self) -> Seq<Seq<char>> {
        cgroup_flag(self.cfg.systemd_cgroup)
    }

    open spec fn subcommand_args(&self) -> Seq<Seq<char>> {
        seq!["create"@, "--bundle"@, self.cfg.common.bundle@, "--pid-file"@, self.cfg.common.container_pidfile@]
    }

    fn add_global_args(&self, argv: &mut Vec<String>) -> (r: ConmonResult<()>)
        ensures
            r is Ok,
            strs(final(argv)@) == strs(old(argv)@) + cgroup_flag(self.cfg.systemd_cgroup),
    {
        push_cgroup_flag(argv, self.cfg.systemd_cgroup);
        Ok(())
    }

    fn add_subcommand_args(&self, argv: &mut Vec<String>) -> (r: ConmonResult<()>)
        ensures
            r is Ok,
            strs(final(argv)@) == strs(old(argv)@) + seq![
                "create"@,
                "--bundle"@,
                self.cfg.common.bundle@,
                "--pid-file"@,
                self.cfg.common.container_pidfile@,
            ],
    {
        push_bundle_args(argv, "create", self.cfg.common.bundle.as_str(), self.cfg.common.container_pidfile.as_str());
        Ok(())
    }
}

/// The `exec` command.
pub struct Exec {
    pub cfg: ExecCfg,
}

impl Exec {
    pub fn new(cfg: ExecCfg) -> (r: Exec)
        ensures
            r.cfg == cfg,
    {
        Exec { cfg }
    }
}

impl RuntimeArgsGenerator for Exec {
    open spec fn global_args(&self) -> Seq<Seq<char>> {
        seq![]
    }

    open spec fn subcommand_args(&self) -> Seq<Seq<char>> {
        seq![
            "exec"@,
            "--pid-file"@,
            self.cfg.common.container_pidfile@,
            "--process"@,
            self.cfg.exec_process_spec@,
            "--detach"@,
        ]
    }

    fn add_global_args(&self, argv: &mut Vec<String>) -> (r: ConmonResult<()>)
        ensures
            r is Ok,
            final(argv)@ == old(argv)@,
    {
        assert(strs(argv@) =~= strs(argv@) + Seq::<Seq<char>>::empty());
        Ok(())
    }

    fn add_subcommand_args(&self, argv: &mut Vec<String>) -> (r: ConmonResult<()>)
        ensures
            r is Ok,
            strs(final(argv)@) == strs(old(argv)@) + seq![
                "exec"@,
                "--pid-file"@,
                self.cfg.common.container_pidfile@,
                "--process"@,
                self.cfg.exec_process_spec@,
                "--detach"@,
            ],
    {
        let ghost a0 = argv@;
        push_arg(argv, "exec");
        push_arg(argv, "--pid-file");
        push_arg(argv, self.cfg.common.container_pidfile.as_str());
        push_arg(argv, "--process");
        push_arg(argv, self.cfg.exec_process_spec.as_str());
        push_arg(argv, "--detach");
        assert(strs(argv@) =~= strs(a0) + seq![
            "exec"@,
            "--pid-file"@,
            self.cfg.common.container_pidfile@,
            "--process"@,
            self.cfg.exec_process_spec@,
            "--detach"@,
        ]);
        Ok(())
    }
}

/// The `restore` command.
pub struct Restore {
    pub cfg: RestoreCfg,
}

impl Restore {
    pub fn new(cfg: RestoreCfg) -> (r: Restore)
        ensures
            r.cfg == cfg,
    {
        Restore { cfg }
    }
}

impl RuntimeArgsGenerator for Restore {
    open spec fn global_args(&self) -> Seq<Seq<char>> {
        cgroup_flag(self.cfg.systemd_cgroup)
    }

    open spec fn subcommand_args(&self) -> Seq<Seq<char>> {
        seq!["restore"@, "--bundle"@, self.cfg.common.bundle@, "--pid-file"@, self.cfg.common.container_pidfile@]
    }

    fn add_global_args(&self, argv: &mut Vec<String>) -> (r: ConmonResult<()>)
        ensures
            r is Ok,
            strs(final(argv)@) == strs(old(argv)@) + cgroup_flag(self.cfg.systemd_cgroup),
    {
        push_cgroup_flag(argv, self.cfg.systemd_cgroup);
        Ok(())
    }

    fn add_subcommand_args(&self, argv: &mut Vec<String>) -> (r: ConmonResult<()>)
        ensures
            r is Ok,
            strs(final(argv)@) == strs(old(argv)@) + seq![
                "restore"@,
                "--bundle"@,
                self.cfg.common.bundle@,
                "--pid-file"@,
                self.cfg.common.container_pidfile@,
            ],
    {
        push_bundle_args(argv, "restore", self.cfg.common.bundle.as_str(), self.cfg.common.container_pidfile.as_str());
        Ok(())
    }
}

/// The `--version` command.
pub struct Version {}

impl Version {
    /// What `--version` prints: the program's name and version, then the
    /// commit it was built from.
    pub fn banner(&self, name: &str, version: &str, commit: &str) -> (r: String)
        ensures
            r@ == name@ + " version "@ + version@ + "\ncommit: "@ + commit@ + "\n"@,
    {
        let mut s = join2(name, " version ");
        s.append(version);
        s.append("\ncommit: ");
        s.append(commit);
        s.append("\n");
        s
    }
}

} // verus!
