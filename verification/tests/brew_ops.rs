use pacops::brew::{Homebrew, TwoStep};
use pacops::exec::{plan, OpPlan, Prompt, RunMode};
use pacops::interp::CaskState;

fn strings(xs: &[&str]) -> Vec<String> {
    xs.iter().map(|s| s.to_string()).collect()
}

fn normal() -> Homebrew {
    Homebrew { dry_run: false, force_cask: false }
}

const PROBE_A: &str = "Error: No available formula with the name \"foo\".";
const PROBE_B: &str =
    "Error: No available formula with the name \"foo\".\nFound a cask named \"foo\" instead.";
const PROBE_C: &str = "foo: stable 1.0";

#[test]
fn scenario_missing_formula_installs_from_primary_channel() {
    let hb = normal();
    let state = Homebrew::classify_probe(PROBE_A);
    assert_eq!(state, CaskState::NotFound);
    let inv = hb.s_finish(state, &"foo".to_string());
    assert_eq!(inv.cmd.display(), "brew install foo");
}

#[test]
fn scenario_cask_found_installs_from_alternate_channel() {
    let hb = normal();
    let state = Homebrew::classify_probe(PROBE_B);
    assert_eq!(state, CaskState::AlternateChannelNeeded);
    let inv = hb.s_finish(state, &"foo".to_string());
    assert_eq!(inv.cmd.display(), "brew cask install foo");
}

#[test]
fn scenario_formula_present_installs_from_primary_channel() {
    let hb = normal();
    let state = Homebrew::classify_probe(PROBE_C);
    assert_eq!(state, CaskState::DefaultChannelSufficient);
    let inv = hb.s_finish(state, &"foo".to_string());
    assert_eq!(inv.cmd.display(), "brew install foo");
}

#[test]
fn force_cask_skips_the_probe_entirely() {
    let hb = Homebrew { dry_run: false, force_cask: true };
    match hb.s_begin(&"foo".to_string()) {
        TwoStep::Direct(inv) => assert_eq!(inv.cmd.display(), "brew cask install foo"),
        TwoStep::ProbeFirst(_) => panic!("probe must not be issued under force"),
    }
    match hb.r_begin(&"foo".to_string()) {
        TwoStep::Direct(inv) => assert_eq!(inv.cmd.display(), "brew cask uninstall foo"),
        TwoStep::ProbeFirst(_) => panic!("probe must not be issued under force"),
    }
}

#[test]
fn without_force_the_probe_runs_first_and_muted() {
    let hb = normal();
    match hb.s_begin(&"foo".to_string()) {
        TwoStep::ProbeFirst(inv) => {
            assert_eq!(inv.cmd.display(), "brew info foo");
            assert_eq!(inv.mode, RunMode::Mute);
        }
        TwoStep::Direct(_) => panic!("probe expected"),
    }
}

#[test]
fn branch_selection_is_pure() {
    let hb = normal();
    let s1 = Homebrew::classify_probe(PROBE_B);
    let s2 = Homebrew::classify_probe(PROBE_B);
    let i1 = hb.s_finish(s1, &"foo".to_string());
    let i2 = hb.s_finish(s2, &"foo".to_string());
    assert_eq!(i1, i2);
    let u1 = hb.r_finish(s1, &"foo".to_string());
    let u2 = hb.r_finish(s2, &"foo".to_string());
    assert_eq!(u1, u2);
}

#[test]
fn dry_run_probe_launches_nothing() {
    let hb = Homebrew { dry_run: true, force_cask: false };
    match hb.s_begin(&"foo".to_string()) {
        TwoStep::ProbeFirst(inv) => {
            assert_eq!(inv.mode, RunMode::DryRun);
            let p = plan(inv, None);
            assert!(!p.launch);
            assert_eq!(p.ask, Prompt::NoPrompt);
        }
        TwoStep::Direct(_) => panic!("probe expected"),
    }
}

#[test]
fn uninstall_follows_the_classified_state() {
    let hb = normal();
    let inv = hb.r_finish(CaskState::NotFound, &"foo".to_string());
    assert_eq!(inv.cmd.display(), "brew uninstall foo");
    let inv = hb.r_finish(CaskState::AlternateChannelNeeded, &"foo".to_string());
    assert_eq!(inv.cmd.display(), "brew cask uninstall foo");
}

#[test]
fn qu_is_a_muted_probe_filtered_by_the_keywords() {
    let hb = normal();
    match hb.qu(&strings(&["curl", "wget"])) {
        OpPlan::Filtered(inv, pats) => {
            assert_eq!(inv.cmd.display(), "brew outdated curl wget");
            assert_eq!(inv.mode, RunMode::Mute);
            assert_eq!(pats, strings(&["curl", "wget"]));
        }
        _ => panic!("filtered plan expected"),
    }
}

#[test]
fn simple_verbs_map_to_single_commands() {
    let hb = normal();
    let cases: Vec<(OpPlan, &str)> = vec![
        (hb.qc(&strings(&["curl"])), "brew log curl"),
        (hb.ql(&strings(&["curl"])), "brew list curl"),
        (hb.qi(&strings(&["curl"])), "brew info curl"),
        (hb.si(&strings(&["curl"])), "brew info curl"),
        (hb.sii(&strings(&["curl"])), "brew uses curl"),
        (hb.ss(&strings(&["curl"])), "brew search curl"),
        (hb.sw(&strings(&["curl"])), "brew fetch curl"),
        (hb.sy(&strings(&[])), "brew update"),
    ];
    for (op, expect) in cases {
        match op {
            OpPlan::Run(v) => {
                assert_eq!(v.len(), 1);
                assert_eq!(v[0].cmd.display(), expect);
                assert_eq!(v[0].mode, RunMode::Verbose);
            }
            _ => panic!("single command expected"),
        }
    }
}

#[test]
fn dry_run_uses_the_dry_run_mode_everywhere() {
    let hb = Homebrew { dry_run: true, force_cask: false };
    match hb.si(&strings(&["curl"])) {
        OpPlan::Run(v) => assert_eq!(v[0].mode, RunMode::DryRun),
        _ => panic!("single command expected"),
    }
    match hb.qu(&strings(&["curl"])) {
        OpPlan::Filtered(inv, _) => assert_eq!(inv.mode, RunMode::DryRun),
        _ => panic!("filtered plan expected"),
    }
}

#[test]
fn cleanup_carries_its_own_dry_run_flag() {
    let dry = Homebrew { dry_run: true, force_cask: false };
    match dry.sc(&strings(&[])) {
        OpPlan::Run(v) => {
            assert_eq!(v[0].cmd.display(), "brew cleanup --dry-run");
            assert_eq!(v[0].mode, RunMode::DryRun);
        }
        _ => panic!("single command expected"),
    }
    match normal().scc(&strings(&[])) {
        OpPlan::Run(v) => assert_eq!(v[0].cmd.display(), "brew cleanup -s"),
        _ => panic!("single command expected"),
    }
    match dry.scc(&strings(&[])) {
        OpPlan::Run(v) => assert_eq!(v[0].cmd.display(), "brew cleanup -s --dry-run"),
        _ => panic!("single command expected"),
    }
}

#[test]
fn update_operations_run_both_channels_in_order() {
    let hb = normal();
    match hb.su(&strings(&["curl"])) {
        OpPlan::Run(v) => {
            assert_eq!(v.len(), 2);
            assert_eq!(v[0].cmd.display(), "brew upgrade curl");
            assert_eq!(v[1].cmd.display(), "brew cask upgrade curl");
        }
        _ => panic!("two commands expected"),
    }
    match hb.suy(&strings(&[])) {
        OpPlan::Run(v) => {
            assert_eq!(v.len(), 3);
            assert_eq!(v[0].cmd.display(), "brew update");
            assert_eq!(v[1].cmd.display(), "brew upgrade");
            assert_eq!(v[2].cmd.display(), "brew cask upgrade");
        }
        _ => panic!("three commands expected"),
    }
}

#[test]
fn dry_run_launches_nothing_across_operations() {
    let hb = Homebrew { dry_run: true, force_cask: false };
    let kws = strings(&["curl", "wget"]);
    let plans = vec![
        hb.qc(&kws),
        hb.ql(&kws),
        hb.qi(&kws),
        hb.qu(&kws),
        hb.si(&kws),
        hb.sii(&kws),
        hb.ss(&kws),
        hb.su(&kws),
        hb.suy(&kws),
        hb.sw(&kws),
        hb.sy(&kws),
        hb.sc(&kws),
        hb.scc(&kws),
    ];
    let mut launches = 0;
    for op in plans {
        match op {
            OpPlan::Run(v) => {
                for inv in v {
                    if plan(inv, None).launch {
                        launches += 1;
                    }
                }
            }
            OpPlan::Filtered(inv, _) => {
                if plan(inv, None).launch {
                    launches += 1;
                }
            }
            OpPlan::Unsupported => {}
        }
    }
    for pack in ["curl", "wget"] {
        match hb.s_begin(&pack.to_string()) {
            TwoStep::ProbeFirst(inv) | TwoStep::Direct(inv) => {
                if plan(inv, None).launch {
                    launches += 1;
                }
            }
        }
        let chosen = hb.s_finish(CaskState::DefaultChannelSufficient, &pack.to_string());
        if plan(chosen, None).launch {
            launches += 1;
        }
    }
    assert_eq!(launches, 0);
}

#[test]
fn unimplemented_operations_are_declared_unsupported() {
    let hb = normal();
    assert!(matches!(hb.qs(&strings(&["x"])), OpPlan::Unsupported));
    assert!(matches!(hb.rn(&strings(&["x"])), OpPlan::Unsupported));
    assert!(matches!(hb.rns(&strings(&["x"])), OpPlan::Unsupported));
    assert!(matches!(hb.rs(&strings(&["x"])), OpPlan::Unsupported));
    assert!(matches!(hb.sccc(&strings(&["x"])), OpPlan::Unsupported));
}
