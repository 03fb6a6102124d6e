use vstd::prelude::*;

use crate::cmd::Cmd;
use crate::cmd::clone_tokens;
use crate::cmd::cmd_is;
use crate::cmd::views;
use crate::exec::Cleanup;
use crate::exec::Invocation;
use crate::exec::OpPlan;
use crate::exec::Prompt;
use crate::exec::RunMode;
use crate::exec::Strategy;
use crate::exec::plain_strat;

verus! {

/// The process-wide configuration an adapter is built over: the run mode,
/// selected once before any operation call.
#[derive(Clone, Copy, Debug, PartialEq, Eq, Structural)]
pub struct Config {
    pub mode: RunMode,
}

/// The Scoop backend adapter.
///
/// Scoop has one catalog, so no operation needs the two-step probe
/// protocol; its interactive operations attach a custom-confirmation
/// strategy, and its installing operations additionally clean the
/// download cache after success.
pub struct Scoop {
    cfg: Config,
}

impl Scoop {
    /// The configuration the adapter was built over.
    pub closed spec fn spec_cfg(self) -> Config {
        self.cfg
    }
}

/// The custom-prompt strategy: ask with a backend-supplied preview, no
/// cleanup.
pub open spec fn prompt_strat_is(s: Strategy) -> bool {
    s.prompt is CustomConfirm && s.cleanup is NoCleanup
}

/// The installing strategy: ask with a backend-supplied preview, and
/// after success remove the whole download cache through the backend's
/// own cache-removal command.
pub open spec fn install_strat_is(s: Strategy) -> bool {
    s.prompt is CustomConfirm && (s.cleanup matches Cleanup::RunCommand(c) && cmd_is(
        c,
        "powershell"@,
        seq!["scoop"@, "cache"@, "rm"@],
        seq!["*"@],
        Seq::<Seq<char>>::empty(),
    ))
}

/// A scoop invocation: `powershell scoop <verbs...>` with the given
/// keywords and pass-through flags, under the given mode.
pub open spec fn scoop_inv_is(
    inv: Invocation,
    verbs: Seq<Seq<char>>,
    kws: Seq<Seq<char>>,
    flags: Seq<Seq<char>>,
    mode: RunMode,
) -> bool {
    cmd_is(inv.cmd, "powershell"@, seq!["scoop"@] + verbs, kws, flags) && inv.mode == mode
}

/// A plan of exactly one scoop invocation under the adapter's mode.
pub open spec fn scoop_run1_is(
    sc: Scoop,
    r: OpPlan,
    verbs: Seq<Seq<char>>,
    kws: Seq<Seq<char>>,
    flags: Seq<Seq<char>>,
) -> bool {
    r matches OpPlan::Run(v) && v@.len() == 1 && scoop_inv_is(
        v@[0],
        verbs,
        kws,
        flags,
        sc.spec_mode(),
    )
}

/// The keyword views, with the backend's own "everything" token standing
/// in where no keyword was given.
pub open spec fn star_or(kws: Seq<Seq<char>>) -> Seq<Seq<char>> {
    if kws.len() == 0 {
        seq!["*"@]
    } else {
        kws
    }
}

/// Under a dry-run configuration every Scoop invocation — the muted
/// listing probe included — carries the dry-run mode, so the resolved
/// plan launches no subprocess, asks no confirmation and schedules no
/// cleanup for it.
pub proof fn lemma_dry_run_launches_nothing(
    sc: Scoop,
    inv: Invocation,
    p: crate::exec::ExecPlan,
    preview: Option<String>,
)
    requires
        sc.spec_cfg().mode is DryRun,
        inv.mode == sc.spec_probe_mode() || inv.mode == sc.spec_mode(),
        crate::exec::plan_matches(p, inv.cmd, inv.mode, inv.strat, preview),
    ensures
        !p.launch,
        p.ask is NoPrompt,
        p.cleanup is None,
{
}

/// `powershell <sub...> <kws...> <flags...>`.
fn ps_cmd(sub: Vec<String>, kws: &Vec<String>, flags: &Vec<String>) -> (r: Cmd)
    ensures
        cmd_is(r, "powershell"@, views(sub@), views(kws@), views(flags@)),
{
    Cmd {
        program: "powershell".to_owned(),
        subcmd: sub,
        kws: clone_tokens(kws),
        flags: clone_tokens(flags),
    }
}

/// The custom-prompt strategy.
fn prompt_strat() -> (r: Strategy)
    ensures
        prompt_strat_is(r),
{
    Strategy { prompt: Prompt::CustomConfirm, cleanup: Cleanup::NoCleanup }
}

/// The installing strategy, with the cache-removal cleanup command.
fn install_strat() -> (r: Strategy)
    ensures
        install_strat_is(r),
{
    let star = vec!["*".to_owned()];
    let none: Vec<String> = Vec::new();
    let cleanup = ps_cmd(
        vec!["scoop".to_owned(), "cache".to_owned(), "rm".to_owned()],
        &star,
        &none,
    );
    Strategy { prompt: Prompt::CustomConfirm, cleanup: Cleanup::RunCommand(cleanup) }
}

/// Clones of the keywords, or the "everything" token where none was
/// given.
fn kws_or_star(kws: &Vec<String>) -> (r: Vec<String>)
    ensures
        views(r@) =~= star_or(views(kws@)),
{
    if kws.len() == 0 {
        vec!["*".to_owned()]
    } else {
        clone_tokens(kws)
    }
}

impl Scoop {
    pub fn new(cfg: Config) -> (r: Scoop)
        ensures
            r.spec_cfg() == cfg,
    {
        Scoop { cfg }
    }

    /// Gets the name of the package manager.
    pub fn name(&self) -> (r: &'static str)
        ensures
            r@ == "scoop"@,
    {
        "scoop"
    }

    pub fn cfg(&self) -> (r: &Config)
        ensures
            *r == self.spec_cfg(),
    {
        &self.cfg
    }

    /// The mode of a visible command: the configured run mode.
    pub open spec fn spec_mode(self) -> RunMode {
        self.spec_cfg().mode
    }

    /// The mode of a read-only probe: muted — except that a dry run
    /// launches nothing at all, probes included.
    pub open spec fn spec_probe_mode(self) -> RunMode {
        if self.spec_cfg().mode is DryRun {
            RunMode::DryRun
        } else {
            RunMode::Mute
        }
    }

    pub fn mode(&self) -> (r: RunMode)
        ensures
            r == self.spec_mode(),
    {
        self.cfg.mode
    }

    pub fn probe_mode(&self) -> (r: RunMode)
        ensures
            r == self.spec_probe_mode(),
    {
        match self.cfg.mode {
            RunMode::DryRun => RunMode::DryRun,
            _ => RunMode::Mute,
        }
    }

    /// Q generates a list of installed packages; with keywords it
    /// behaves as a local search.
    pub fn q(&self, kws: &Vec<String>, flags: &Vec<String>) -> (r: OpPlan)
        ensures
            kws@.len() == 0 ==> (scoop_run1_is(
                *self,
                r,
                seq!["list"@],
                Seq::<Seq<char>>::empty(),
                views(flags@),
            ) && (r matches OpPlan::Run(v) && v@[0].strat == plain_strat())),
            kws@.len() > 0 ==> (r matches OpPlan::Filtered(inv, pats) && scoop_inv_is(
                inv,
                seq!["list"@],
                Seq::<Seq<char>>::empty(),
                views(flags@),
                self.spec_probe_mode(),
            ) && pats@ == kws@),
    {
        if kws.len() == 0 {
            let none: Vec<String> = Vec::new();
            OpPlan::Run(
                vec![
                    Invocation {
                        cmd: ps_cmd(
                            vec!["scoop".to_owned(), "list".to_owned()],
                            &none,
                            flags,
                        ),
                        mode: self.mode(),
                        strat: Strategy::plain(),
                    },
                ],
            )
        } else {
            self.qs(kws, flags)
        }
    }

    /// Qi displays local package information: name, version, description.
    pub fn qi(&self, kws: &Vec<String>, flags: &Vec<String>) -> (r: OpPlan)
        ensures
            scoop_run1_is(*self, r, seq!["info"@], views(kws@), views(flags@)),
            r matches OpPlan::Run(v) && v@[0].strat == plain_strat(),
    {
        self.si(kws, flags)
    }

    /// Qs searches locally installed packages for names or descriptions.
    /// With several search terms, only packages matching all of them are
    /// reported: the listing runs muted and its lines are AND-filtered
    /// against the keywords.
    pub fn qs(&self, kws: &Vec<String>, flags: &Vec<String>) -> (r: OpPlan)
        ensures
            r matches OpPlan::Filtered(inv, pats) && scoop_inv_is(
                inv,
                seq!["list"@],
                Seq::<Seq<char>>::empty(),
                views(flags@),
                self.spec_probe_mode(),
            ) && pats@ == kws@,
    {
        let none: Vec<String> = Vec::new();
        let inv = Invocation {
            cmd: ps_cmd(vec!["scoop".to_owned(), "list".to_owned()], &none, flags),
            mode: self.probe_mode(),
            strat: Strategy::plain(),
        };
        OpPlan::Filtered(inv, clone_tokens(kws))
    }

    /// Qu lists packages which have an update available.
    pub fn qu(&self, kws: &Vec<String>, flags: &Vec<String>) -> (r: OpPlan)
        ensures
            scoop_run1_is(*self, r, seq!["status"@], views(kws@), views(flags@)),
            r matches OpPlan::Run(v) && v@[0].strat == plain_strat(),
    {
        OpPlan::Run(
            vec![
                Invocation {
                    cmd: ps_cmd(vec!["scoop".to_owned(), "status".to_owned()], kws, flags),
                    mode: self.mode(),
                    strat: Strategy::plain(),
                },
            ],
        )
    }

    /// R removes a single package, leaving its dependencies installed.
    pub fn r(&self, kws: &Vec<String>, flags: &Vec<String>) -> (r: OpPlan)
        ensures
            scoop_run1_is(*self, r, seq!["uninstall"@], views(kws@), views(flags@)),
            r matches OpPlan::Run(v) && prompt_strat_is(v@[0].strat),
    {
        OpPlan::Run(
            vec![
                Invocation {
                    cmd: ps_cmd(vec!["scoop".to_owned(), "uninstall".to_owned()], kws, flags),
                    mode: self.mode(),
                    strat: prompt_strat(),
                },
            ],
        )
    }

    /// Rn removes a package and skips the generation of configuration
    /// backup files.
    pub fn rn(&self, kws: &Vec<String>, flags: &Vec<String>) -> (r: OpPlan)
        ensures
            scoop_run1_is(*self, r, seq!["uninstall"@, "--purge"@], views(kws@), views(flags@)),
            r matches OpPlan::Run(v) && prompt_strat_is(v@[0].strat),
    {
        OpPlan::Run(
            vec![
                Invocation {
                    cmd: ps_cmd(
                        vec![
                            "scoop".to_owned(),
                            "uninstall".to_owned(),
                            "--purge".to_owned(),
                        ],
                        kws,
                        flags,
                    ),
                    mode: self.mode(),
                    strat: prompt_strat(),
                },
            ],
        )
    }

    /// S installs one or more packages by name.
    pub fn s(&self, kws: &Vec<String>, flags: &Vec<String>) -> (r: OpPlan)
        ensures
            scoop_run1_is(*self, r, seq!["install"@], views(kws@), views(flags@)),
            r matches OpPlan::Run(v) && install_strat_is(v@[0].strat),
    {
        OpPlan::Run(
            vec![
                Invocation {
                    cmd: ps_cmd(vec!["scoop".to_owned(), "install".to_owned()], kws, flags),
                    mode: self.mode(),
                    strat: install_strat(),
                },
            ],
        )
    }

    /// Sc removes cached packages; without keywords the whole cache goes.
    pub fn sc(&self, kws: &Vec<String>, flags: &Vec<String>) -> (r: OpPlan)
        ensures
            scoop_run1_is(
                *self,
                r,
                seq!["cache"@, "rm"@],
                star_or(views(kws@)),
                views(flags@),
            ),
            r matches OpPlan::Run(v) && prompt_strat_is(v@[0].strat),
    {
        let kws2 = kws_or_star(kws);
        OpPlan::Run(
            vec![
                Invocation {
                    cmd: ps_cmd(
                        vec!["scoop".to_owned(), "cache".to_owned(), "rm".to_owned()],
                        &kws2,
                        flags,
                    ),
                    mode: self.mode(),
                    strat: prompt_strat(),
                },
            ],
        )
    }

    /// Scc removes all files from the cache.
    pub fn scc(&self, kws: &Vec<String>, flags: &Vec<String>) -> (r: OpPlan)
        ensures
            scoop_run1_is(
                *self,
                r,
                seq!["cache"@, "rm"@],
                star_or(views(kws@)),
                views(flags@),
            ),
            r matches OpPlan::Run(v) && prompt_strat_is(v@[0].strat),
    {
        self.sc(kws, flags)
    }

    /// Si displays remote package information: name, version, description.
    pub fn si(&self, kws: &Vec<String>, flags: &Vec<String>) -> (r: OpPlan)
        ensures
            scoop_run1_is(*self, r, seq!["info"@], views(kws@), views(flags@)),
            r matches OpPlan::Run(v) && v@[0].strat == plain_strat(),
    {
        OpPlan::Run(
            vec![
                Invocation {
                    cmd: ps_cmd(vec!["scoop".to_owned(), "info".to_owned()], kws, flags),
                    mode: self.mode(),
                    strat: Strategy::plain(),
                },
            ],
        )
    }

    /// Ss searches for packages by expression in name and description.
    pub fn ss(&self, kws: &Vec<String>, flags: &Vec<String>) -> (r: OpPlan)
        ensures
            scoop_run1_is(*self, r, seq!["search"@], views(kws@), views(flags@)),
            r matches OpPlan::Run(v) && v@[0].strat == plain_strat(),
    {
        OpPlan::Run(
            vec![
                Invocation {
                    cmd: ps_cmd(vec!["scoop".to_owned(), "search".to_owned()], kws, flags),
                    mode: self.mode(),
                    strat: Strategy::plain(),
                },
            ],
        )
    }

    /// Su updates outdated packages; without keywords, all of them.
    pub fn su(&self, kws: &Vec<String>, flags: &Vec<String>) -> (r: OpPlan)
        ensures
            scoop_run1_is(
                *self,
                r,
                seq!["update"@],
                star_or(views(kws@)),
                views(flags@),
            ),
            r matches OpPlan::Run(v) && install_strat_is(v@[0].strat),
    {
        let kws2 = kws_or_star(kws);
        OpPlan::Run(
            vec![
                Invocation {
                    cmd: ps_cmd(vec!["scoop".to_owned(), "update".to_owned()], &kws2, flags),
                    mode: self.mode(),
                    strat: install_strat(),
                },
            ],
        )
    }

    /// Suy refreshes the local package database, then updates outdated
    /// packages, fail-fast.
    pub fn suy(&self, kws: &Vec<String>, flags: &Vec<String>) -> (r: OpPlan)
        ensures
            r matches OpPlan::Run(v) && v@.len() == 2 && scoop_inv_is(
                v@[0],
                seq!["update"@],
                Seq::<Seq<char>>::empty(),
                views(flags@),
                self.spec_mode(),
            ) && v@[0].strat == plain_strat() && scoop_inv_is(
                v@[1],
                seq!["update"@],
                star_or(views(kws@)),
                views(flags@),
                self.spec_mode(),
            ) && install_strat_is(v@[1].strat),
    {
        let none: Vec<String> = Vec::new();
        let kws2 = kws_or_star(kws);
        OpPlan::Run(
            vec![
                Invocation {
                    cmd: ps_cmd(vec!["scoop".to_owned(), "update".to_owned()], &none, flags),
                    mode: self.mode(),
                    strat: Strategy::plain(),
                },
                Invocation {
                    cmd: ps_cmd(vec!["scoop".to_owned(), "update".to_owned()], &kws2, flags),
                    mode: self.mode(),
                    strat: install_strat(),
                },
            ],
        )
    }

    /// Sy refreshes the local package database; any keywords are then
    /// installed, fail-fast.
    pub fn sy(&self, kws: &Vec<String>, flags: &Vec<String>) -> (r: OpPlan)
        ensures
            r matches OpPlan::Run(v) && v@.len() == (if kws@.len() == 0 {
                1int
            } else {
                2int
            }) && scoop_inv_is(
                v@[0],
                seq!["update"@],
                Seq::<Seq<char>>::empty(),
                views(flags@),
                self.spec_mode(),
            ) && v@[0].strat == plain_strat(),
            kws@.len() > 0 ==> (r matches OpPlan::Run(v) && scoop_inv_is(
                v@[1],
                seq!["install"@],
                views(kws@),
                views(flags@),
                self.spec_mode(),
            ) && install_strat_is(v@[1].strat)),
    {
        let none: Vec<String> = Vec::new();
        let refresh = Invocation {
            cmd: ps_cmd(vec!["scoop".to_owned(), "update".to_owned()], &none, flags),
            mode: self.mode(),
            strat: Strategy::plain(),
        };
        if kws.len() == 0 {
            OpPlan::Run(vec![refresh])
        } else {
            OpPlan::Run(
                vec![
                    refresh,
                    Invocation {
                        cmd: ps_cmd(
                            vec!["scoop".to_owned(), "install".to_owned()],
                            kws,
                            flags,
                        ),
                        mode: self.mode(),
                        strat: install_strat(),
                    },
                ],
            )
        }
    }
}

} // verus!
