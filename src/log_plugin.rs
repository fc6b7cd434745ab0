use vstd::prelude::*;
use vstd::string::*;
use crate::args::strs;
use crate::error::{ConmonError, ConmonResult};
use crate::text::{join2, join_path, path_join};

verus! {

/// ABI version of the plugin vtable that this host speaks.
pub const LOG_PLUGIN_ABI_VERSION: u32 = 1;

/// The directories searched last, in order.
pub open spec fn default_plugin_dirs() -> Seq<Seq<char>> {
    seq!["/usr/lib/conmon-v3/log_plugins"@, "/usr/local/lib/conmon-v3/log_plugins"@]
}

/// A plugin argument names a file, not a plugin, when it holds a directory
/// separator or ends in the shared-library extension.
pub open spec fn is_path_like(s: Seq<char>) -> bool {
    s.contains('/') || (s.len() >= 3 && s.subrange(s.len() - 3, s.len() as int) == ".so"@)
}

/// The file a plugin called `name` lives in.
pub open spec fn plugin_file(name: Seq<char>) -> Seq<char> {
    "lib"@ + name + "_log_plugin.so"@
}

/// The entries found while reading `s` after the current entry `cur`:
/// each `:` ends an entry, and empty entries are left out.
pub open spec fn entries_from(s: Seq<char>, cur: Seq<char>) -> Seq<Seq<char>>
    decreases s.len(),
{
    if s.len() == 0 {
        if cur.len() > 0 { seq![cur] } else { seq![] }
    } else if s[0] == ':' {
        (if cur.len() > 0 { seq![cur] } else { seq![] }) + entries_from(s.skip(1), seq![])
    } else {
        entries_from(s.skip(1), cur.push(s[0]))
    }
}

/// The non-empty colon-separated entries of a search path, in order.
pub open spec fn path_entries(s: Seq<char>) -> Seq<Seq<char>> {
    entries_from(s, seq![])
}

proof fn lemma_entries_from_nonempty(s: Seq<char>, cur: Seq<char>)
    ensures
        forall|i: int| 0 <= i < entries_from(s, cur).len() ==> (#[trigger] entries_from(s, cur)[i]).len() > 0,
    decreases s.len(),
{
    if s.len() == 0 {
        if cur.len() > 0 {
            assert(entries_from(s, cur) == seq![cur]);
        } else {
            assert(entries_from(s, cur) == Seq::<Seq<char>>::empty());
        }
    } else if s[0] == ':' {
        lemma_entries_from_nonempty(s.skip(1), seq![]);
        let head: Seq<Seq<char>> = if cur.len() > 0 { seq![cur] } else { seq![] };
        let rest = entries_from(s.skip(1), seq![]);
        assert forall|i: int| 0 <= i < (head + rest).len() implies (#[trigger] (head + rest)[i]).len() > 0 by {
            if i >= head.len() {
                assert((head + rest)[i] == rest[i - head.len()]);
            }
        }
        assert(entries_from(s, cur) == head + rest);
    } else {
        lemma_entries_from_nonempty(s.skip(1), cur.push(s[0]));
        assert(entries_from(s, cur) == entries_from(s.skip(1), cur.push(s[0])));
    }
}

/// Empty entries of a search path (as between `::`) are skipped: every
/// entry searched is non-empty.
pub proof fn lemma_search_path_skips_empty(s: Seq<char>)
    ensures
        forall|i: int| 0 <= i < path_entries(s).len() ==> (#[trigger] path_entries(s)[i]).len() > 0,
{
    lemma_entries_from_nonempty(s, seq![]);
}

/// Where a plugin is looked for, in order: the executable's directory, the
/// entries of the plugin search path variable, then the built-in defaults.
pub open spec fn search_dirs(exe_dir: Option<Seq<char>>, env_path: Option<Seq<char>>) -> Seq<Seq<char>> {
    (match exe_dir {
        Some(d) => seq![d],
        None => seq![],
    }) + (match env_path {
        Some(p) => path_entries(p),
        None => seq![],
    }) + default_plugin_dirs()
}

/// Whether `s` contains `c`.
pub fn has_char(s: &str, c: char) -> (r: bool)
    ensures
        r == s@.contains(c),
{
    let n = s.unicode_len();
    let mut i: usize = 0;
    while i < n
        invariant
            n == s@.len(),
            i <= n,
            forall|j: int| 0 <= j < i ==> s@[j] != c,
        decreases n - i,
    {
        if s.get_char(i) == c {
            return true;
        }
        i += 1;
    }
    false
}

/// Whether `name_or_path` is to be taken as a file path.
pub fn path_like(name_or_path: &str) -> (r: bool)
    ensures
        r == is_path_like(name_or_path@),
{
    if has_char(name_or_path, '/') {
        return true;
    }
    let n = name_or_path.unicode_len();
    if n < 3 {
        return false;
    }
    let tail = name_or_path.substring_char(n - 3, n);
    proof {
        reveal_strlit(".so");
    }
    let r = tail.get_char(0) == '.' && tail.get_char(1) == 's' && tail.get_char(2) == 'o';
    assert(r == (tail@ =~= ".so"@));
    r
}

/// Splits a colon-separated search path into its non-empty entries.
pub fn split_search_path(s: &str) -> (r: Vec<String>)
    ensures
        strs(r@) == path_entries(s@),
{
    let n = s.unicode_len();
    let mut out: Vec<String> = Vec::new();
    let mut start: usize = 0;
    let mut k: usize = 0;
    assert(s@.skip(0) =~= s@);
    assert(s@.subrange(0, 0) =~= Seq::<char>::empty());
    assert(strs(out@) =~= Seq::<Seq<char>>::empty());
    assert(strs(out@) + path_entries(s@) =~= path_entries(s@));
    while k < n
        invariant
            n == s@.len(),
            start <= k <= n,
            strs(out@) + entries_from(s@.skip(k as int), s@.subrange(start as int, k as int)) == path_entries(s@),
        decreases n - k,
    {
        let c = s.get_char(k);
        let ghost cur = s@.subrange(start as int, k as int);
        proof {
            assert(s@.skip(k as int)[0] == c);
            assert(s@.skip(k as int).skip(1) =~= s@.skip(k + 1));
        }
        if c == ':' {
            if start < k {
                let ghost before = out@;
                let e = s.substring_char(start, k).to_owned();
                out.push(e);
                proof {
                    assert(strs(out@) =~= strs(before) + seq![cur]);
                }
            } else {
                assert(cur.len() == 0);
                assert(strs(out@) + (seq![] + entries_from(s@.skip(k + 1), seq![]))
                    =~= strs(out@) + entries_from(s@.skip(k + 1), seq![]));
            }
            start = k + 1;
            proof {
                assert(s@.subrange(start as int, k + 1) =~= Seq::<char>::empty());
            }
        } else {
            proof {
                assert(s@.subrange(start as int, k + 1) =~= cur.push(c));
            }
        }
        k += 1;
    }
    if start < n {
        let e = s.substring_char(start, n).to_owned();
        out.push(e);
    }
    assert(strs(out@) =~= path_entries(s@));
    out
}

/// The files tried for a plugin argument, in order: the argument itself when
/// it is path-like, else the plugin's file in each search directory.
pub open spec fn plugin_candidates_spec(name: Seq<char>, exe_dir: Option<Seq<char>>, env_path: Option<Seq<char>>) -> Seq<Seq<char>> {
    if is_path_like(name) {
        seq![name]
    } else {
        search_dirs(exe_dir, env_path).map_values(|d: Seq<char>| path_join(d, plugin_file(name)))
    }
}

/// An optional string as optional text.
pub open spec fn opt_text(o: Option<String>) -> Option<Seq<char>> {
    match o {
        Some(s) => Some(s@),
        None => None,
    }
}

/// The directories searched for a plugin, in order.
pub fn plugin_search_dirs(exe_dir: Option<String>, env_path: Option<String>) -> (r: Vec<String>)
    ensures
        strs(r@) == search_dirs(opt_text(exe_dir), opt_text(env_path)),
{
    let mut dirs: Vec<String> = Vec::new();
    match exe_dir {
        Some(d) => dirs.push(d),
        None => {},
    }
    let ghost first = strs(dirs@);
    match env_path {
        Some(p) => {
            let mut entries = split_search_path(p.as_str());
            let ghost e = entries@;
            dirs.append(&mut entries);
            assert(strs(dirs@) =~= first + strs(e));
        },
        None => {
            assert(strs(dirs@) =~= first + Seq::<Seq<char>>::empty());
        },
    }
    let ghost second = strs(dirs@);
    dirs.push("/usr/lib/conmon-v3/log_plugins".to_owned());
    dirs.push("/usr/local/lib/conmon-v3/log_plugins".to_owned());
    assert(strs(dirs@) =~= second + default_plugin_dirs());
    assert(strs(dirs@) =~= search_dirs(opt_text(exe_dir), opt_text(env_path)));
    dirs
}

/// The files to try for the plugin argument `name_or_path`, in order. The
/// first one that exists is the plugin.
pub fn plugin_candidates(name_or_path: &str, exe_dir: Option<String>, env_path: Option<String>) -> (r: Vec<String>)
    ensures
        strs(r@) == plugin_candidates_spec(name_or_path@, opt_text(exe_dir), opt_text(env_path)),
{
    let mut out: Vec<String> = Vec::new();
    if path_like(name_or_path) {
        out.push(name_or_path.to_owned());
        assert(strs(out@) =~= seq![name_or_path@]);
        return out;
    }
    let dirs = plugin_search_dirs(exe_dir, env_path);
    let mut file = join2("lib", name_or_path);
    file.append("_log_plugin.so");
    let ghost want = plugin_candidates_spec(name_or_path@, opt_text(exe_dir), opt_text(env_path));
    let mut i: usize = 0;
    while i < dirs.len()
        invariant
            i <= dirs@.len(),
            file@ == plugin_file(name_or_path@),
            strs(dirs@) == search_dirs(opt_text(exe_dir), opt_text(env_path)),
            !is_path_like(name_or_path@),
            want == strs(dirs@).map_values(|d: Seq<char>| path_join(d, plugin_file(name_or_path@))),
            strs(out@) == want.subrange(0, i as int),
        decreases dirs@.len() - i,
    {
        let c = join_path(dirs[i].as_str(), file.as_str());
        let ghost before = out@;
        out.push(c);
        proof {
            assert(strs(dirs@)[i as int] == dirs@[i as int]@);
            assert(want[i as int] == path_join(dirs@[i as int]@, plugin_file(name_or_path@)));
            assert(strs(out@) =~= strs(before).push(c@));
            assert(want.subrange(0, i + 1) =~= want.subrange(0, i as int).push(want[i as int]));
            assert(strs(out@) =~= want.subrange(0, i + 1));
        }
        i += 1;
    }
    assert(want.subrange(0, i as int) =~= want);
    out
}

/// Picks the first candidate that was found (`hits[k]` tells whether
/// `candidates[k]` exists); fails when none was.
pub fn pick_plugin(name_or_path: &str, candidates: &Vec<String>, hits: &Vec<bool>) -> (r: ConmonResult<String>)
    requires
        hits@.len() == candidates@.len(),
    ensures
        r is Ok <==> exists|k: int| 0 <= k < hits@.len() && hits@[k],
        r matches Ok(p) ==> exists|k: int|
            0 <= k < hits@.len() && hits@[k] && (forall|j: int| 0 <= j < k ==> !hits@[j]) && p@ == candidates@[k]@,
        r matches Err(e) ==> e.msg@ == "Cannot load Log plugin "@ + name_or_path@ + ": not found"@ && e.code == 1,
{
    let mut i: usize = 0;
    while i < hits.len()
        invariant
            hits@.len() == candidates@.len(),
            i <= hits@.len(),
            forall|j: int| 0 <= j < i ==> !hits@[j],
        decreases hits@.len() - i,
    {
        if hits[i] {
            return Ok(candidates[i].clone());
        }
        i += 1;
    }
    let mut m = join2("Cannot load Log plugin ", name_or_path);
    m.append(": not found");
    Err(ConmonError::fatal(m))
}

/// Checks the vtable that a plugin handed out: its ABI version must be
/// this host's, and it must be at least as large as the vtable this host
/// reads (`required` bytes).
pub fn check_vtable(name_or_path: &str, abi_version: u32, struct_size: u32, required: usize) -> (r: ConmonResult<()>)
    ensures
        r is Ok <==> abi_version == LOG_PLUGIN_ABI_VERSION && struct_size as int >= required as int,
        r matches Err(e) ==> e.code == 1 && e.msg@ == "Cannot load Log plugin "@ + name_or_path@ + (
            if abi_version != LOG_PLUGIN_ABI_VERSION { ": ABI version mismatch"@ } else { ": vtable struct too small"@ }),
{
    let mut m = join2("Cannot load Log plugin ", name_or_path);
    if abi_version != LOG_PLUGIN_ABI_VERSION {
        m.append(": ABI version mismatch");
        return Err(ConmonError::fatal(m));
    }
    if (struct_size as usize) < required {
        m.append(": vtable struct too small");
        return Err(ConmonError::fatal(m));
    }
    Ok(())
}

/// Checks what a plugin's `init` returned: success needs status 0 and a
/// handle.
pub fn check_init(name_or_path: &str, rc: i32, handle_is_null: bool) -> (r: ConmonResult<()>)
    ensures
        r is Ok <==> rc == 0 && !handle_is_null,
        r matches Err(e) ==> e.code == 1 && e.msg@ == "Cannot load Log plugin "@ + name_or_path@ + ": init failed"@,
{
    if rc != 0 || handle_is_null {
        let mut m = join2("Cannot load Log plugin ", name_or_path);
        m.append(": init failed");
        return Err(ConmonError::fatal(m));
    }
    Ok(())
}

} // verus!
