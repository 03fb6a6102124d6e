use vstd::prelude::*;

use crate::cmd::Cmd;
use crate::cmd::clone_tokens;
use crate::cmd::cmd_is;
use crate::cmd::views;
use crate::exec::ExecPlan;
use crate::exec::Invocation;
use crate::exec::OpPlan;
use crate::exec::RunMode;
use crate::exec::Strategy;
use crate::exec::inv_is;
use crate::exec::plain_strat;
use crate::exec::plan_matches;
use crate::interp::CaskState;
use crate::interp::MarkerRules;
use crate::interp::classify;
use crate::interp::contains_marker;
use crate::interp::spec_classify;

verus! {

/// The Homebrew backend adapter.
///
/// Homebrew splits its catalog between a default channel (formulae) and
/// an alternate channel (casks), so install and uninstall go through a
/// two-step protocol: a muted read-only probe of the catalog, a
/// classification of its output, then the channel's own verb. The probe
/// runs fresh for every call — the catalog can change between calls
/// within a session, so its state is never cached.
///
/// Operations given several keywords treat them fail-fast: the driver
/// stops at the first keyword whose command fails and does not attempt
/// the remaining ones; no partial-result report is kept.
pub struct Homebrew {
    /// Echo every command instead of running it.
    pub dry_run: bool,
    /// Skip the probe and always select the alternate (cask) channel.
    pub force_cask: bool,
}

/// The first step of the two-step protocol for one package: either the
/// probe must run first, or the force flag already settled the choice.
pub enum TwoStep {
    /// The choice is settled; run this at once.
    Direct(Invocation),
    /// Run this muted probe, classify its output, then finish.
    ProbeFirst(Invocation),
}

/// The muted read-only probe for one package: `brew info <pack>`, under
/// the probe mode of the adapter.
pub open spec fn probe_is(hb: Homebrew, pack: String, inv: Invocation) -> bool {
    inv_is(
        inv,
        "brew"@,
        seq!["info"@],
        seq![pack@],
        Seq::<Seq<char>>::empty(),
        hb.spec_probe_mode(),
        plain_strat(),
    )
}

/// The command chosen for one package once its state is known, for a
/// verb pair: the alternate-channel (`cask`) verb where the state
/// demands it, the primary verb otherwise.
pub open spec fn choice_is(
    hb: Homebrew,
    state: CaskState,
    pack: String,
    verb: Seq<char>,
    inv: Invocation,
) -> bool {
    if state is AlternateChannelNeeded {
        inv_is(
            inv,
            "brew"@,
            seq!["cask"@, verb],
            seq![pack@],
            Seq::<Seq<char>>::empty(),
            hb.spec_mode(),
            plain_strat(),
        )
    } else {
        inv_is(
            inv,
            "brew"@,
            seq![verb],
            seq![pack@],
            Seq::<Seq<char>>::empty(),
            hb.spec_mode(),
            plain_strat(),
        )
    }
}

/// A plan that runs one visible brew command under the plain strategy.
pub open spec fn runs1(hb: Homebrew, r: OpPlan, sub: Seq<Seq<char>>, kws: Seq<Seq<char>>) -> bool {
    r matches OpPlan::Run(v) && v@.len() == 1 && inv_is(
        v@[0],
        "brew"@,
        sub,
        kws,
        Seq::<Seq<char>>::empty(),
        hb.spec_mode(),
        plain_strat(),
    )
}

/// How Homebrew's probe output classifies: the "no available formula"
/// marker alone means the package exists nowhere; together with the
/// "found a cask" marker it means only the alternate channel has it; its
/// absence means the default channel suffices.
pub open spec fn spec_brew_state(out: Seq<char>) -> CaskState {
    if contains_marker(out, "No available formula with the name"@) {
        if contains_marker(out, "Found a cask named"@) {
            CaskState::AlternateChannelNeeded
        } else {
            CaskState::NotFound
        }
    } else {
        CaskState::DefaultChannelSufficient
    }
}

/// The marker rule set of Homebrew's probe.
pub fn brew_rules() -> (r: MarkerRules)
    ensures
        r.primary@ == "No available formula with the name"@,
        r.secondary@ == "Found a cask named"@,
        r.absent is DefaultChannelSufficient,
        r.primary_only is NotFound,
        r.both is AlternateChannelNeeded,
{
    MarkerRules {
        primary: "No available formula with the name".to_owned(),
        secondary: "Found a cask named".to_owned(),
        absent: CaskState::DefaultChannelSufficient,
        primary_only: CaskState::NotFound,
        both: CaskState::AlternateChannelNeeded,
    }
}

/// `brew <sub...> <kws...>`, with no flags.
fn brew_cmd(sub: Vec<String>, kws: &Vec<String>) -> (r: Cmd)
    ensures
        cmd_is(r, "brew"@, views(sub@), views(kws@), Seq::<Seq<char>>::empty()),
{
    let r = Cmd {
        program: "brew".to_owned(),
        subcmd: sub,
        kws: clone_tokens(kws),
        flags: Vec::new(),
    };
    proof {
        assert(views(r.flags@) =~= Seq::<Seq<char>>::empty());
    }
    r
}

impl Homebrew {
    /// The mode of a visible command: a dry run echoes it, anything else
    /// runs it with verbose echo.
    pub open spec fn spec_mode(self) -> RunMode {
        if self.dry_run {
            RunMode::DryRun
        } else {
            RunMode::Verbose
        }
    }

    /// The mode of the read-only probe: muted — except that a dry run
    /// launches nothing at all, probes included.
    pub open spec fn spec_probe_mode(self) -> RunMode {
        if self.dry_run {
            RunMode::DryRun
        } else {
            RunMode::Mute
        }
    }

    pub fn mode(&self) -> (r: RunMode)
        ensures
            r == self.spec_mode(),
    {
        if self.dry_run {
            RunMode::DryRun
        } else {
            RunMode::Verbose
        }
    }

    pub fn probe_mode(&self) -> (r: RunMode)
        ensures
            r == self.spec_probe_mode(),
    {
        if self.dry_run {
            RunMode::DryRun
        } else {
            RunMode::Mute
        }
    }

    /// A helper wrapping one visible command invocation under the plain
    /// strategy and the adapter's mode.
    pub fn just_run(&self, cmd: Cmd) -> (r: Invocation)
        ensures
            r.cmd == cmd,
            r.mode == self.spec_mode(),
            r.strat == plain_strat(),
    {
        Invocation { cmd, mode: self.mode(), strat: Strategy::plain() }
    }

    /// Qc shows the changelog of a package.
    pub fn qc(&self, kws: &Vec<String>) -> (r: OpPlan)
        ensures
            runs1(*self, r, seq!["log"@], views(kws@)),
    {
        OpPlan::Run(vec![self.just_run(brew_cmd(vec!["log".to_owned()], kws))])
    }

    /// Qi displays local package information: name, version, description.
    pub fn qi(&self, kws: &Vec<String>) -> (r: OpPlan)
        ensures
            runs1(*self, r, seq!["info"@], views(kws@)),
    {
        self.si(kws)
    }

    /// Ql displays files provided by a local package.
    pub fn ql(&self, kws: &Vec<String>) -> (r: OpPlan)
        ensures
            runs1(*self, r, seq!["list"@], views(kws@)),
    {
        OpPlan::Run(vec![self.just_run(brew_cmd(vec!["list".to_owned()], kws))])
    }

    /// Qs searches locally installed packages; this backend declares it
    /// unimplemented.
    pub fn qs(&self, kws: &Vec<String>) -> (r: OpPlan)
        ensures
            r is Unsupported,
    {
        let _ = kws;
        OpPlan::Unsupported
    }

    /// Qu lists packages with an update available. With several search
    /// terms, only lines matching all of them are reported: the probe
    /// `brew outdated` runs muted and its output lines are AND-filtered
    /// against the keywords.
    pub fn qu(&self, kws: &Vec<String>) -> (r: OpPlan)
        ensures
            r matches OpPlan::Filtered(inv, pats) && inv_is(
                inv,
                "brew"@,
                seq!["outdated"@],
                views(kws@),
                Seq::<Seq<char>>::empty(),
                self.spec_probe_mode(),
                plain_strat(),
            ) && pats@ == kws@,
    {
        let inv = Invocation {
            cmd: brew_cmd(vec!["outdated".to_owned()], kws),
            mode: self.probe_mode(),
            strat: Strategy::plain(),
        };
        OpPlan::Filtered(inv, clone_tokens(kws))
    }

    /// The first step of the uninstall protocol for one package: the
    /// force-alternate-channel flag skips the probe entirely and selects
    /// the cask verb regardless of catalog state; otherwise the muted
    /// probe runs first.
    pub fn r_begin(&self, pack: &String) -> (r: TwoStep)
        ensures
            self.force_cask ==> (r matches TwoStep::Direct(inv) && choice_is(
                *self,
                CaskState::AlternateChannelNeeded,
                *pack,
                "uninstall"@,
                inv,
            )),
            !self.force_cask ==> (r matches TwoStep::ProbeFirst(inv) && probe_is(
                *self,
                *pack,
                inv,
            )),
    {
        if self.force_cask {
            TwoStep::Direct(self.r_finish(CaskState::AlternateChannelNeeded, pack))
        } else {
            TwoStep::ProbeFirst(self.probe(pack))
        }
    }

    /// The second step of the uninstall protocol: the command chosen from
    /// the classified probe output.
    pub fn r_finish(&self, state: CaskState, pack: &String) -> (r: Invocation)
        ensures
            choice_is(*self, state, *pack, "uninstall"@, r),
    {
        let kws = vec![pack.clone()];
        match state {
            CaskState::AlternateChannelNeeded => self.just_run(
                brew_cmd(vec!["cask".to_owned(), "uninstall".to_owned()], &kws),
            ),
            _ => self.just_run(brew_cmd(vec!["uninstall".to_owned()], &kws)),
        }
    }

    /// The first step of the install protocol for one package; see
    /// `r_begin` for the shape.
    pub fn s_begin(&self, pack: &String) -> (r: TwoStep)
        ensures
            self.force_cask ==> (r matches TwoStep::Direct(inv) && choice_is(
                *self,
                CaskState::AlternateChannelNeeded,
                *pack,
                "install"@,
                inv,
            )),
            !self.force_cask ==> (r matches TwoStep::ProbeFirst(inv) && probe_is(
                *self,
                *pack,
                inv,
            )),
    {
        if self.force_cask {
            TwoStep::Direct(self.s_finish(CaskState::AlternateChannelNeeded, pack))
        } else {
            TwoStep::ProbeFirst(self.probe(pack))
        }
    }

    /// The second step of the install protocol: the command chosen from
    /// the classified probe output.
    pub fn s_finish(&self, state: CaskState, pack: &String) -> (r: Invocation)
        ensures
            choice_is(*self, state, *pack, "install"@, r),
    {
        let kws = vec![pack.clone()];
        match state {
            CaskState::AlternateChannelNeeded => self.just_run(
                brew_cmd(vec!["cask".to_owned(), "install".to_owned()], &kws),
            ),
            _ => self.just_run(brew_cmd(vec!["install".to_owned()], &kws)),
        }
    }

    /// The muted probe of the catalog for one package.
    pub fn probe(&self, pack: &String) -> (r: Invocation)
        ensures
            probe_is(*self, *pack, r),
    {
        let kws = vec![pack.clone()];
        Invocation {
            cmd: brew_cmd(vec!["info".to_owned()], &kws),
            mode: self.probe_mode(),
            strat: Strategy::plain(),
        }
    }

    /// Classifies one probe's captured output, fresh per call.
    pub fn classify_probe(out: &str) -> (r: CaskState)
        ensures
            r == spec_brew_state(out@),
    {
        let rules = brew_rules();
        let r = classify(out, &rules);
        proof {
            assert(spec_classify(out@, rules) == spec_brew_state(out@));
        }
        r
    }

    /// Sc removes cached packages that are not currently installed. The
    /// dry-run form carries the backend's own `--dry-run` flag in its
    /// display form; like every command under dry-run it is echoed, not
    /// launched.
    pub fn sc(&self, kws: &Vec<String>) -> (r: OpPlan)
        ensures
            self.dry_run ==> runs1(*self, r, seq!["cleanup"@, "--dry-run"@], views(kws@)),
            !self.dry_run ==> runs1(*self, r, seq!["cleanup"@], views(kws@)),
    {
        if self.dry_run {
            OpPlan::Run(
                vec![
                    self.just_run(
                        brew_cmd(vec!["cleanup".to_owned(), "--dry-run".to_owned()], kws),
                    ),
                ],
            )
        } else {
            OpPlan::Run(vec![self.just_run(brew_cmd(vec!["cleanup".to_owned()], kws))])
        }
    }

    /// Scc removes all files from the cache; see `sc` for the dry-run
    /// form.
    pub fn scc(&self, kws: &Vec<String>) -> (r: OpPlan)
        ensures
            self.dry_run ==> runs1(
                *self,
                r,
                seq!["cleanup"@, "-s"@, "--dry-run"@],
                views(kws@),
            ),
            !self.dry_run ==> runs1(*self, r, seq!["cleanup"@, "-s"@], views(kws@)),
    {
        if self.dry_run {
            OpPlan::Run(
                vec![
                    self.just_run(
                        brew_cmd(
                            vec![
                                "cleanup".to_owned(),
                                "-s".to_owned(),
                                "--dry-run".to_owned(),
                            ],
                            kws,
                        ),
                    ),
                ],
            )
        } else {
            OpPlan::Run(
                vec![self.just_run(brew_cmd(vec!["cleanup".to_owned(), "-s".to_owned()], kws))],
            )
        }
    }

    /// Sccc is not a Homebrew concept; declared unimplemented.
    pub fn sccc(&self, kws: &Vec<String>) -> (r: OpPlan)
        ensures
            r is Unsupported,
    {
        let _ = kws;
        OpPlan::Unsupported
    }

    /// Si displays remote package information.
    pub fn si(&self, kws: &Vec<String>) -> (r: OpPlan)
        ensures
            runs1(*self, r, seq!["info"@], views(kws@)),
    {
        OpPlan::Run(vec![self.just_run(brew_cmd(vec!["info".to_owned()], kws))])
    }

    /// Sii displays reverse dependencies.
    pub fn sii(&self, kws: &Vec<String>) -> (r: OpPlan)
        ensures
            runs1(*self, r, seq!["uses"@], views(kws@)),
    {
        OpPlan::Run(vec![self.just_run(brew_cmd(vec!["uses".to_owned()], kws))])
    }

    /// Ss searches packages by expression in name and description.
    pub fn ss(&self, kws: &Vec<String>) -> (r: OpPlan)
        ensures
            runs1(*self, r, seq!["search"@], views(kws@)),
    {
        OpPlan::Run(vec![self.just_run(brew_cmd(vec!["search".to_owned()], kws))])
    }

    /// Su updates outdated packages, in both channels, fail-fast.
    pub fn su(&self, kws: &Vec<String>) -> (r: OpPlan)
        ensures
            r matches OpPlan::Run(v) && v@.len() == 2 && inv_is(
                v@[0],
                "brew"@,
                seq!["upgrade"@],
                views(kws@),
                Seq::<Seq<char>>::empty(),
                self.spec_mode(),
                plain_strat(),
            ) && inv_is(
                v@[1],
                "brew"@,
                seq!["cask"@, "upgrade"@],
                views(kws@),
                Seq::<Seq<char>>::empty(),
                self.spec_mode(),
                plain_strat(),
            ),
    {
        OpPlan::Run(
            vec![
                self.just_run(brew_cmd(vec!["upgrade".to_owned()], kws)),
                self.just_run(brew_cmd(vec!["cask".to_owned(), "upgrade".to_owned()], kws)),
            ],
        )
    }

    /// Suy refreshes the local package database, then updates outdated
    /// packages.
    pub fn suy(&self, kws: &Vec<String>) -> (r: OpPlan)
        ensures
            r matches OpPlan::Run(v) && v@.len() == 3 && inv_is(
                v@[0],
                "brew"@,
                seq!["update"@],
                views(kws@),
                Seq::<Seq<char>>::empty(),
                self.spec_mode(),
                plain_strat(),
            ) && inv_is(
                v@[1],
                "brew"@,
                seq!["upgrade"@],
                views(kws@),
                Seq::<Seq<char>>::empty(),
                self.spec_mode(),
                plain_strat(),
            ) && inv_is(
                v@[2],
                "brew"@,
                seq!["cask"@, "upgrade"@],
                views(kws@),
                Seq::<Seq<char>>::empty(),
                self.spec_mode(),
                plain_strat(),
            ),
    {
        OpPlan::Run(
            vec![
                self.just_run(brew_cmd(vec!["update".to_owned()], kws)),
                self.just_run(brew_cmd(vec!["upgrade".to_owned()], kws)),
                self.just_run(brew_cmd(vec!["cask".to_owned(), "upgrade".to_owned()], kws)),
            ],
        )
    }

    /// Sw retrieves packages from the server without installing anything.
    pub fn sw(&self, kws: &Vec<String>) -> (r: OpPlan)
        ensures
            runs1(*self, r, seq!["fetch"@], views(kws@)),
    {
        OpPlan::Run(vec![self.just_run(brew_cmd(vec!["fetch".to_owned()], kws))])
    }

    /// Sy refreshes the local package database.
    pub fn sy(&self, kws: &Vec<String>) -> (r: OpPlan)
        ensures
            runs1(*self, r, seq!["update"@], views(kws@)),
    {
        OpPlan::Run(vec![self.just_run(brew_cmd(vec!["update".to_owned()], kws))])
    }

    /// Rn, Rns and Rs have no Homebrew equivalent; declared
    /// unimplemented.
    pub fn rn(&self, kws: &Vec<String>) -> (r: OpPlan)
        ensures
            r is Unsupported,
    {
        let _ = kws;
        OpPlan::Unsupported
    }

    pub fn rns(&self, kws: &Vec<String>) -> (r: OpPlan)
        ensures
            r is Unsupported,
    {
        let _ = kws;
        OpPlan::Unsupported
    }

    pub fn rs(&self, kws: &Vec<String>) -> (r: OpPlan)
        ensures
            r is Unsupported,
    {
        let _ = kws;
        OpPlan::Unsupported
    }
}

/// Given a fixed probe output, classification and branch selection are a
/// pure function: two selections made from the same probe output, for the
/// same adapter, package and verb, pick commands with the same argument
/// vector, the same mode and the same strategy.
pub proof fn lemma_branch_selection_deterministic(
    hb: Homebrew,
    out: Seq<char>,
    pack: String,
    verb: Seq<char>,
    r1: Invocation,
    r2: Invocation,
)
    requires
        choice_is(hb, spec_brew_state(out), pack, verb, r1),
        choice_is(hb, spec_brew_state(out), pack, verb, r2),
    ensures
        r1.cmd.argv() == r2.cmd.argv(),
        r1.mode == r2.mode,
        r1.strat == r2.strat,
{
    assert(r1.cmd.argv() =~= r2.cmd.argv());
}

/// Under dry-run every Homebrew invocation — the read-only probe
/// included — carries the dry-run mode, so the resolved plan launches no
/// subprocess for it.
pub proof fn lemma_dry_run_probe_skipped(
    hb: Homebrew,
    pack: String,
    inv: Invocation,
    p: ExecPlan,
    preview: Option<String>,
)
    requires
        hb.dry_run,
        probe_is(hb, pack, inv),
        plan_matches(p, inv.cmd, inv.mode, inv.strat, preview),
    ensures
        !p.launch,
        p.ask is NoPrompt,
        p.cleanup is None,
{
}

} // verus!
