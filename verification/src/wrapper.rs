use vstd::prelude::*;

use crate::config::Config;
use crate::invocation::{args_view, lemma_args_view_push, CommandMaker, Invocation};
use crate::orphans::{fields_of, lossy_chars, parse_orphans};
use crate::outcome::ProcessOutcome;

verus! {

// The operation flags, as a pacman-compatible delegate understands them.
pub open spec fn install_flag() -> Seq<char> {
    "-S"@
}

pub open spec fn as_deps_flag() -> Seq<char> {
    "--asdeps"@
}

pub open spec fn remove_flag() -> Seq<char> {
    "-Rs"@
}

pub open spec fn info_flag() -> Seq<char> {
    "-Qi"@
}

pub open spec fn upgrade_flag() -> Seq<char> {
    "-Syu"@
}

pub open spec fn clean_flag() -> Seq<char> {
    "-Sc"@
}

pub open spec fn list_orphans_flag() -> Seq<char> {
    "-Qtd"@
}

pub open spec fn list_orphans_silent_flag() -> Seq<char> {
    "-Qtdq"@
}

pub open spec fn remove_no_save_flag() -> Seq<char> {
    "-Rns"@
}

/// The front end around a pacman-compatible delegate: builds one fresh
/// invocation per operation from the configured strategy.
#[derive(Debug)]
pub struct PacmanWrapper {
    cmd_maker: CommandMaker,
}

/// What the orphan-removal workflow does after its listing phase.
#[derive(Debug)]
pub enum OrphanNext {
    /// The workflow is over; this outcome is its result.
    Finish(ProcessOutcome),
    /// Run this delete invocation and take its outcome as the result.
    Delete(Invocation),
}

impl PacmanWrapper {
    /// The invocation strategy this wrapper was configured with.
    pub closed spec fn strategy(&self) -> CommandMaker {
        self.cmd_maker
    }

    /// Derive the wrapper from loaded configuration.
    pub fn from_config(config: Config) -> (r: Self)
        ensures
            r.strategy() == CommandMaker::spec_of_config(config.wrapper),
    {
        PacmanWrapper { cmd_maker: CommandMaker::from_wrapper_config(config.wrapper) }
    }

    /// The full argument list of one operation: the strategy's base
    /// arguments, then the operation's own tail.
    pub open spec fn spec_op_args(&self, tail: Seq<Seq<char>>) -> Seq<Seq<char>> {
        self.strategy().spec_base_args() + tail
    }

    /// `inv` is exactly the invocation this wrapper builds for the given
    /// operation tail.
    pub open spec fn is_op_invocation(&self, inv: Invocation, tail: Seq<Seq<char>>) -> bool {
        inv.program@ == self.strategy().spec_program() && inv.args_seq() == self.spec_op_args(tail)
    }

    /// Append one flag to a base invocation.
    fn push_flag(&self, inv: &mut Invocation, flag: &str)
        ensures
            final(inv).program == old(inv).program,
            final(inv).args_seq() == old(inv).args_seq().push(flag@),
    {
        let owned = flag.to_owned();
        proof {
            lemma_args_view_push(inv.args@, owned);
        }
        inv.args.push(owned);
    }

    /// Append clones of all the given names to an invocation's arguments.
    fn push_names(&self, inv: &mut Invocation, names: &Vec<String>)
        ensures
            final(inv).program == old(inv).program,
            final(inv).args_seq() == old(inv).args_seq() + args_view(names@),
    {
        let mut k: usize = 0;
        proof {
            assert(old(inv).args_seq() + args_view(names@.take(0)) =~~= old(inv).args_seq());
        }
        while k < names.len()
            invariant
                k <= names.len(),
                inv.program == old(inv).program,
                inv.args_seq() == old(inv).args_seq() + args_view(names@.take(k as int)),
            decreases names.len() - k,
        {
            proof {
                lemma_args_view_push(inv.args@, names@[k as int]);
                assert(names@.take(k as int + 1).drop_last() =~= names@.take(k as int));
                assert(args_view(names@.take(k as int + 1)) =~~= args_view(
                    names@.take(k as int),
                ).push(names@[k as int]@));
                assert(old(inv).args_seq() + args_view(names@.take(k as int + 1)) =~~= (old(
                    inv,
                ).args_seq() + args_view(names@.take(k as int))).push(names@[k as int]@));
            }
            inv.args.push(names[k].clone());
            k += 1;
        }
        proof {
            assert(names@.take(names@.len() as int) =~= names@);
        }
    }

    /// The tail of an install invocation: the install flag, the as-deps flag
    /// when requested, then the package names.
    pub open spec fn spec_install_tail(as_deps: bool, packages: Seq<Seq<char>>) -> Seq<Seq<char>> {
        (if as_deps {
            seq![install_flag(), as_deps_flag()]
        } else {
            seq![install_flag()]
        }) + packages
    }

    /// Build the install invocation for the given packages.
    pub fn install(&self, packages: &Vec<String>, as_deps: bool) -> (r: Invocation)
        ensures
            self.is_op_invocation(r, Self::spec_install_tail(as_deps, args_view(packages@))),
    {
        let mut inv = self.cmd_maker.construct();
        self.push_flag(&mut inv, "-S");
        if as_deps {
            self.push_flag(&mut inv, "--asdeps");
        }
        self.push_names(&mut inv, packages);
        proof {
            assert(inv.args_seq() =~~= self.spec_op_args(
                Self::spec_install_tail(as_deps, args_view(packages@)),
            ));
        }
        inv
    }

    /// Build an invocation of one flag followed by package names.
    fn flag_and_names(&self, flag: &str, packages: &Vec<String>) -> (r: Invocation)
        ensures
            self.is_op_invocation(r, seq![flag@] + args_view(packages@)),
    {
        let mut inv = self.cmd_maker.construct();
        self.push_flag(&mut inv, flag);
        self.push_names(&mut inv, packages);
        proof {
            assert(inv.args_seq() =~~= self.spec_op_args(seq![flag@] + args_view(packages@)));
        }
        inv
    }

    /// Build an invocation of one flag and nothing more.
    fn flag_only(&self, flag: &str) -> (r: Invocation)
        ensures
            self.is_op_invocation(r, seq![flag@]),
    {
        let mut inv = self.cmd_maker.construct();
        self.push_flag(&mut inv, flag);
        proof {
            assert(inv.args_seq() =~~= self.spec_op_args(seq![flag@]));
        }
        inv
    }

    /// Build the removal invocation for the given packages.
    pub fn uninstall(&self, packages: &Vec<String>) -> (r: Invocation)
        ensures
            self.is_op_invocation(r, seq![remove_flag()] + args_view(packages@)),
    {
        self.flag_and_names("-Rs", packages)
    }

    /// Build the package-information invocation for the given packages.
    pub fn info(&self, packages: &Vec<String>) -> (r: Invocation)
        ensures
            self.is_op_invocation(r, seq![info_flag()] + args_view(packages@)),
    {
        self.flag_and_names("-Qi", packages)
    }

    /// Build the full-upgrade invocation.
    pub fn upgrade(&self) -> (r: Invocation)
        ensures
            self.is_op_invocation(r, seq![upgrade_flag()]),
    {
        self.flag_only("-Syu")
    }

    /// Build the cache-clean invocation.
    pub fn clean(&self) -> (r: Invocation)
        ensures
            self.is_op_invocation(r, seq![clean_flag()]),
    {
        self.flag_only("-Sc")
    }

    /// Build the human-facing orphan-listing invocation.
    pub fn list_orphans(&self) -> (r: Invocation)
        ensures
            self.is_op_invocation(r, seq![list_orphans_flag()]),
    {
        self.flag_only("-Qtd")
    }

    /// Build the silent, machine-readable orphan-listing invocation. The
    /// caller runs it with standard output captured, not inherited.
    pub fn silent_list_orphans(&self) -> (r: Invocation)
        ensures
            self.is_op_invocation(r, seq![list_orphans_silent_flag()]),
    {
        self.flag_only("-Qtdq")
    }

    /// Build the delete-phase invocation for the given orphan names.
    pub fn delete_orphans(&self, packages: &Vec<String>) -> (r: Invocation)
        ensures
            self.is_op_invocation(r, seq![remove_no_save_flag()] + args_view(packages@)),
    {
        self.flag_and_names("-Rns", packages)
    }

    /// Build the existence-check invocation for the configured delegate.
    pub fn verify_command(&self) -> (r: Invocation)
        ensures
            r.program@ == self.strategy().spec_check_program(),
            r.args_seq() == self.strategy().spec_check_args(),
    {
        self.cmd_maker.check_command()
    }

    /// Decide the second phase of orphan removal from the listing phase's
    /// outcome and its captured standard output. A failed listing propagates
    /// its outcome and the delete phase never runs; an empty orphan set
    /// short-circuits with a successful outcome and no further invocation;
    /// otherwise the delete invocation carries exactly the parsed names, in
    /// the order the delegate emitted them.
    pub fn remove_orphans(&self, listing: &ProcessOutcome, listing_stdout: &Vec<u8>) -> (r:
        OrphanNext)
        ensures
            !listing.spec_success() ==> r == OrphanNext::Finish(*listing),
            listing.spec_success() && fields_of(listing_stdout@).len() == 0 ==> r
                == OrphanNext::Finish(
                ProcessOutcome { exit_code: Some(0i32), terminating_signal: None },
            ),
            listing.spec_success() && fields_of(listing_stdout@).len() > 0 ==> (r matches
                OrphanNext::Delete(inv) && self.is_op_invocation(
                inv,
                seq![remove_no_save_flag()] + fields_of(listing_stdout@).map_values(
                    |t: Seq<u8>| lossy_chars(t),
                ),
            )),
    {
        if !listing.success() {
            return OrphanNext::Finish(*listing);
        }
        let packages = parse_orphans(listing_stdout);
        if packages.is_empty() {
            return OrphanNext::Finish(ProcessOutcome::exited(0));
        }
        let inv = self.delete_orphans(&packages);
        proof {
            assert(args_view(packages@) =~~= fields_of(listing_stdout@).map_values(
                |t: Seq<u8>| lossy_chars(t),
            ));
        }
        OrphanNext::Delete(inv)
    }
}

/// Building an invocation for the same operation tail twice yields
/// argument-for-argument identical invocations: the contract of each builder
/// pins the executable and the whole argument list down.
pub proof fn lemma_build_deterministic(
    w: PacmanWrapper,
    tail: Seq<Seq<char>>,
    a: Invocation,
    b: Invocation,
)
    requires
        w.is_op_invocation(a, tail),
        w.is_op_invocation(b, tail),
    ensures
        a.program@ == b.program@,
        a.args_seq() == b.args_seq(),
{
}

/// Without `as_deps`, the install tail is the install flag followed by the
/// package names alone, and the as-deps flag is not among the flags (it
/// differs from the install flag).
pub proof fn lemma_install_without_deps(packages: Seq<Seq<char>>)
    ensures
        PacmanWrapper::spec_install_tail(false, packages).len() == 1 + packages.len(),
        PacmanWrapper::spec_install_tail(false, packages)[0] == install_flag(),
        forall|i: int|
            0 <= i < packages.len() ==> PacmanWrapper::spec_install_tail(false, packages)[1 + i]
                == packages[i],
        install_flag() != as_deps_flag(),
{
    reveal_strlit("-S");
    reveal_strlit("--asdeps");
    assert(install_flag().len() != as_deps_flag().len());
}

/// With `as_deps`, the as-deps flag stands immediately after the install
/// flag and before every package name.
pub proof fn lemma_install_with_deps(packages: Seq<Seq<char>>)
    ensures
        PacmanWrapper::spec_install_tail(true, packages).len() == 2 + packages.len(),
        PacmanWrapper::spec_install_tail(true, packages)[0] == install_flag(),
        PacmanWrapper::spec_install_tail(true, packages)[1] == as_deps_flag(),
        forall|i: int|
            0 <= i < packages.len() ==> PacmanWrapper::spec_install_tail(true, packages)[2 + i]
                == packages[i],
{
}

} // verus!
