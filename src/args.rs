use vstd::prelude::*;
use crate::cli::CommonCfg;
use crate::error::ConmonResult;

verus! {

/// The texts of a sequence of strings.
pub open spec fn strs(v: Seq<String>) -> Seq<Seq<char>> {
    v.map_values(|s: String| s@)
}

/// `--no-pivot` and `--no-new-keyring`, each when asked for.
pub open spec fn generic_flags(o: CommonCfg) -> Seq<Seq<char>> {
    (if o.no_pivot { seq!["--no-pivot"@] } else { seq![] })
        + (if o.no_new_keyring { seq!["--no-new-keyring"@] } else { seq![] })
}

/// Builds the runtime argv. Implementors append their global flags, then
/// their subcommand and its flags, and may fail; each states what it
/// appends, and whether it succeeds, by defining the spec functions (by
/// default: nothing is appended and both steps succeed).
pub trait RuntimeArgsGenerator {
    /// Whether appending the global flags succeeds.
    open spec fn global_ok(&self) -> bool {
        true
    }

    /// Whether appending the subcommand part succeeds.
    open spec fn subcommand_ok(&self) -> bool {
        true
    }

    /// The flags that come right after the runtime binary.
    open spec fn global_args(&self) -> Seq<Seq<char>> {
        seq![]
    }

    /// The subcommand and its own flags.
    open spec fn subcommand_args(&self) -> Seq<Seq<char>> {
        seq![]
    }

    /// Appends the flags that come right after the runtime binary.
    fn add_global_args(&self, argv: &mut Vec<String>) -> (r: ConmonResult<()>)
        ensures
            r is Ok <==> self.global_ok(),
            r is Ok ==> strs(final(argv)@) == strs(old(argv)@) + self.global_args(),
    ;

    /// Appends the subcommand and its own flags.
    fn add_subcommand_args(&self, argv: &mut Vec<String>) -> (r: ConmonResult<()>)
        ensures
            r is Ok <==> self.subcommand_ok(),
            r is Ok ==> strs(final(argv)@) == strs(old(argv)@) + self.subcommand_args(),
    ;
}

/// Appends a copy of each string of `items` to `argv`.
pub fn extend_cloned(argv: &mut Vec<String>, items: &Vec<String>)
    ensures
        strs(final(argv)@) == strs(old(argv)@) + strs(items@),
{
    let mut i: usize = 0;
    while i < items.len()
        invariant
            i <= items@.len(),
            argv@ == old(argv)@ + items@.subrange(0, i as int),
        decreases items@.len() - i,
    {
        let s = items[i].clone();
        argv.push(s);
        proof {
            assert(items@.subrange(0, i + 1) =~= items@.subrange(0, i as int).push(items@[i as int]));
            assert(argv@ =~= old(argv)@ + items@.subrange(0, i + 1));
        }
        i += 1;
    }
    assert(items@.subrange(0, i as int) =~= items@);
    proof {
        lemma_strs_concat(old(argv)@, items@);
    }
}

/// The texts of a concatenation are the concatenation of the texts.
pub proof fn lemma_strs_concat(a: Seq<String>, b: Seq<String>)
    ensures
        strs(a + b) == strs(a) + strs(b),
{
    assert(strs(a + b) =~= strs(a) + strs(b));
}

/// Generates the runtime argv: the runtime binary, the generator's global
/// flags, the caller's runtime args, the generator's subcommand part, the
/// generic flags, the caller's runtime opts, and the container id last.
/// Fails with the generator's error when one of its two steps fails (the
/// subcommand step is not taken after the global one failed).
pub fn generate_runtime_args<G: RuntimeArgsGenerator>(o: &CommonCfg, args_gen: &G) -> (r: ConmonResult<Vec<String>>)
    ensures
        r is Ok <==> args_gen.global_ok() && args_gen.subcommand_ok(),
        r matches Ok(argv) ==> strs(argv@) == seq![o.runtime@] + args_gen.global_args() + strs(o.runtime_args@)
            + args_gen.subcommand_args() + generic_flags(*o) + strs(o.runtime_opts@) + seq![o.cid@],
{
    let mut argv: Vec<String> = Vec::new();
    argv.push(o.runtime.clone());
    assert(strs(argv@) =~= seq![o.runtime@]);
    args_gen.add_global_args(&mut argv)?;
    let ghost g = args_gen.global_args();
    extend_cloned(&mut argv, &o.runtime_args);
    args_gen.add_subcommand_args(&mut argv)?;
    let ghost s = args_gen.subcommand_args();
    let ghost a3 = argv@;
    if o.no_pivot {
        argv.push("--no-pivot".to_owned());
    }
    if o.no_new_keyring {
        argv.push("--no-new-keyring".to_owned());
    }
    proof {
        assert(strs(argv@) =~= strs(a3) + generic_flags(*o));
    }
    extend_cloned(&mut argv, &o.runtime_opts);
    argv.push(o.cid.clone());
    proof {
        assert(strs(argv@) =~= seq![o.runtime@] + g + strs(o.runtime_args@) + s + generic_flags(*o)
            + strs(o.runtime_opts@) + seq![o.cid@]);
    }
    Ok(argv)
}

} // verus!
