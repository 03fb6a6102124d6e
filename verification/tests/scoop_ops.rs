use pacops::exec::{plan, Cleanup, OpPlan, Prompt, RunMode};
use pacops::scoop::{Config, Scoop};

fn strings(xs: &[&str]) -> Vec<String> {
    xs.iter().map(|s| s.to_string()).collect()
}

fn scoop() -> Scoop {
    Scoop::new(Config { mode: RunMode::Normal })
}

#[test]
fn adapter_identity() {
    let sc = scoop();
    assert_eq!(sc.name(), "scoop");
    assert_eq!(sc.cfg().mode, RunMode::Normal);
}

#[test]
fn query_without_keywords_lists_everything() {
    match scoop().q(&strings(&[]), &strings(&["--global"])) {
        OpPlan::Run(v) => {
            assert_eq!(v.len(), 1);
            assert_eq!(v[0].cmd.display(), "powershell scoop list --global");
            assert_eq!(v[0].mode, RunMode::Normal);
        }
        _ => panic!("single command expected"),
    }
}

#[test]
fn query_with_keywords_filters_the_listing() {
    match scoop().q(&strings(&["git"]), &strings(&[])) {
        OpPlan::Filtered(inv, pats) => {
            assert_eq!(inv.cmd.display(), "powershell scoop list");
            assert_eq!(inv.mode, RunMode::Mute);
            assert_eq!(pats, strings(&["git"]));
        }
        _ => panic!("filtered plan expected"),
    }
}

#[test]
fn local_search_is_a_muted_filtered_listing() {
    match scoop().qs(&strings(&["git", "scm"]), &strings(&[])) {
        OpPlan::Filtered(inv, pats) => {
            assert_eq!(inv.cmd.display(), "powershell scoop list");
            assert_eq!(pats, strings(&["git", "scm"]));
        }
        _ => panic!("filtered plan expected"),
    }
}

#[test]
fn uninstall_asks_with_a_custom_prompt() {
    match scoop().r(&strings(&["git"]), &strings(&[])) {
        OpPlan::Run(v) => {
            assert_eq!(v[0].cmd.display(), "powershell scoop uninstall git");
            assert_eq!(v[0].strat.prompt, Prompt::CustomConfirm);
            assert_eq!(v[0].strat.cleanup, Cleanup::NoCleanup);
        }
        _ => panic!("single command expected"),
    }
    match scoop().rn(&strings(&["git"]), &strings(&[])) {
        OpPlan::Run(v) => {
            assert_eq!(v[0].cmd.display(), "powershell scoop uninstall --purge git")
        }
        _ => panic!("single command expected"),
    }
}

#[test]
fn install_cleans_the_cache_after_success() {
    match scoop().s(&strings(&["git"]), &strings(&[])) {
        OpPlan::Run(v) => {
            assert_eq!(v[0].cmd.display(), "powershell scoop install git");
            assert_eq!(v[0].strat.prompt, Prompt::CustomConfirm);
            match &v[0].strat.cleanup {
                Cleanup::RunCommand(c) => {
                    assert_eq!(c.display(), "powershell scoop cache rm *")
                }
                Cleanup::NoCleanup => panic!("cache cleanup expected"),
            }
        }
        _ => panic!("single command expected"),
    }
}

#[test]
fn cache_removal_defaults_to_everything() {
    match scoop().sc(&strings(&[]), &strings(&[])) {
        OpPlan::Run(v) => assert_eq!(v[0].cmd.display(), "powershell scoop cache rm *"),
        _ => panic!("single command expected"),
    }
    match scoop().scc(&strings(&["git"]), &strings(&[])) {
        OpPlan::Run(v) => assert_eq!(v[0].cmd.display(), "powershell scoop cache rm git"),
        _ => panic!("single command expected"),
    }
}

#[test]
fn update_defaults_to_everything() {
    match scoop().su(&strings(&[]), &strings(&[])) {
        OpPlan::Run(v) => assert_eq!(v[0].cmd.display(), "powershell scoop update *"),
        _ => panic!("single command expected"),
    }
}

#[test]
fn refresh_then_update_runs_two_commands() {
    match scoop().suy(&strings(&["git"]), &strings(&[])) {
        OpPlan::Run(v) => {
            assert_eq!(v.len(), 2);
            assert_eq!(v[0].cmd.display(), "powershell scoop update");
            assert_eq!(v[1].cmd.display(), "powershell scoop update git");
        }
        _ => panic!("two commands expected"),
    }
}

#[test]
fn refresh_alone_when_no_keywords() {
    match scoop().sy(&strings(&[]), &strings(&[])) {
        OpPlan::Run(v) => {
            assert_eq!(v.len(), 1);
            assert_eq!(v[0].cmd.display(), "powershell scoop update");
        }
        _ => panic!("one command expected"),
    }
    match scoop().sy(&strings(&["git"]), &strings(&[])) {
        OpPlan::Run(v) => {
            assert_eq!(v.len(), 2);
            assert_eq!(v[1].cmd.display(), "powershell scoop install git");
        }
        _ => panic!("two commands expected"),
    }
}

#[test]
fn remote_verbs_pass_keywords_and_flags_through() {
    match scoop().si(&strings(&["git"]), &strings(&["--verbose"])) {
        OpPlan::Run(v) => assert_eq!(v[0].cmd.display(), "powershell scoop info git --verbose"),
        _ => panic!("single command expected"),
    }
    match scoop().ss(&strings(&["git"]), &strings(&[])) {
        OpPlan::Run(v) => assert_eq!(v[0].cmd.display(), "powershell scoop search git"),
        _ => panic!("single command expected"),
    }
    match scoop().qu(&strings(&["git"]), &strings(&[])) {
        OpPlan::Run(v) => assert_eq!(v[0].cmd.display(), "powershell scoop status git"),
        _ => panic!("single command expected"),
    }
    match scoop().qi(&strings(&["git"]), &strings(&[])) {
        OpPlan::Run(v) => assert_eq!(v[0].cmd.display(), "powershell scoop info git"),
        _ => panic!("single command expected"),
    }
}

#[test]
fn dry_run_configuration_reaches_every_plan() {
    let sc = Scoop::new(Config { mode: RunMode::DryRun });
    match sc.s(&strings(&["git"]), &strings(&[])) {
        OpPlan::Run(v) => {
            assert_eq!(v[0].mode, RunMode::DryRun);
            for inv in v {
                assert!(!plan(inv, None).launch);
            }
        }
        _ => panic!("single command expected"),
    }
    match sc.qs(&strings(&["git"]), &strings(&[])) {
        OpPlan::Filtered(inv, _) => {
            assert_eq!(inv.mode, RunMode::DryRun);
            assert!(!plan(inv, None).launch);
        }
        _ => panic!("filtered plan expected"),
    }
}
