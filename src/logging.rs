use vstd::prelude::*;
use vstd::string::*;
use crate::error::{ConmonError, ConmonResult};
use crate::text::join2;

verus! {

/// A sink for the container's stdout and stderr bytes.
pub trait LogPlugin {
    /// Takes bytes read from the container's stdout (`is_stdout`) or stderr.
    fn write(&mut self, is_stdout: bool, data: &[u8]) -> ConmonResult<()>;
}

/// Settings of a built-in log plugin.
pub struct LogPluginCfg {
    /// The log file, for the file plugins.
    pub path: String,
}

/// A plugin that discards everything.
pub struct NoneLogger;

impl NoneLogger {
    pub fn new(_cfg: &LogPluginCfg) -> (r: ConmonResult<NoneLogger>)
        ensures
            r is Ok,
    {
        Ok(NoneLogger)
    }
}

impl LogPlugin for NoneLogger {
    fn write(&mut self, _is_stdout: bool, _data: &[u8]) -> (r: ConmonResult<()>)
        ensures
            r is Ok,
    {
        Ok(())
    }
}

/// The built-in plugin chosen by name.
pub enum BuiltinPlugin {
    /// `none`: discard everything.
    Discard(NoneLogger),
    /// `file` or `k8s_file`: append to the file at this path.
    File(String),
}

/// Chooses the built-in plugin called `name`.
pub fn initialize_log_plugin(name: &str, cfg: &LogPluginCfg) -> (r: ConmonResult<BuiltinPlugin>)
    ensures
        name@ == "none"@ ==> r matches Ok(BuiltinPlugin::Discard(_)),
        (name@ == "file"@ || name@ == "k8s_file"@) ==> (r matches Ok(BuiltinPlugin::File(p)) && p@ == cfg.path@),
        r is Err <==> !(name@ == "none"@ || name@ == "file"@ || name@ == "k8s_file"@),
        r matches Err(e) ==> e.code == 1 && e.msg@ == "Unknown log plugin: "@ + name@,
{
    proof {
        reveal_strlit("none");
        reveal_strlit("file");
        reveal_strlit("k8s_file");
        assert("file"@[0] != "none"@[0]);
        assert("k8s_file"@.len() != "none"@.len());
    }
    if str_eq(name, "none") {
        let l = NoneLogger::new(cfg)?;
        Ok(BuiltinPlugin::Discard(l))
    } else if str_eq(name, "file") || str_eq(name, "k8s_file") {
        Ok(BuiltinPlugin::File(cfg.path.clone()))
    } else {
        Err(ConmonError::fatal(join2("Unknown log plugin: ", name)))
    }
}

/// Whether two strings hold the same characters.
pub fn str_eq(a: &str, b: &str) -> (r: bool)
    ensures
        r == (a@ == b@),
{
    let n = a.unicode_len();
    if n != b.unicode_len() {
        return false;
    }
    let mut i: usize = 0;
    while i < n
        invariant
            n == a@.len(),
            n == b@.len(),
            i <= n,
            forall|j: int| 0 <= j < i ==> a@[j] == b@[j],
        decreases n - i,
    {
        if a.get_char(i) != b.get_char(i) {
            return false;
        }
        i += 1;
    }
    assert(a@ =~= b@);
    true
}

} // verus!
