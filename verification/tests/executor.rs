use pacops::cmd::Cmd;
use pacops::error::Error;
use pacops::exec::{
    cancelled_result, cleanup_due, decide, dry_run_result, interpret_outcome, plan,
    unsupported_result, Cleanup, Decision, Invocation, LaunchOutcome, Prompt, RunMode, Strategy,
};

fn strings(xs: &[&str]) -> Vec<String> {
    xs.iter().map(|s| s.to_string()).collect()
}

fn install_cmd() -> Cmd {
    Cmd::new("brew".to_string())
        .sub("install".to_string())
        .kws(strings(&["curl"]))
}

#[test]
fn display_form_joins_tokens() {
    assert_eq!(install_cmd().display(), "brew install curl");
}

#[test]
fn args_follow_the_program() {
    assert_eq!(install_cmd().args(), strings(&["install", "curl"]));
}

#[test]
fn dry_run_never_launches() {
    let inv = Invocation {
        cmd: install_cmd(),
        mode: RunMode::DryRun,
        strat: Strategy { prompt: Prompt::Confirm, cleanup: Cleanup::RunCommand(install_cmd()) },
    };
    let p = plan(inv, None);
    assert!(!p.launch);
    assert_eq!(p.ask, Prompt::NoPrompt);
    assert_eq!(p.echo, Some("brew install curl".to_string()));
    assert_eq!(p.cleanup, None);
    assert_eq!(dry_run_result(), Ok(String::new()));
}

#[test]
fn verbose_echoes_then_launches() {
    let inv = Invocation { cmd: install_cmd(), mode: RunMode::Verbose, strat: Strategy::plain() };
    let p = plan(inv, None);
    assert!(p.launch);
    assert!(!p.mute);
    assert_eq!(p.echo, Some("brew install curl".to_string()));
    assert_eq!(p.program, "brew");
    assert_eq!(p.args, strings(&["install", "curl"]));
}

#[test]
fn mute_launches_without_echo() {
    let inv = Invocation { cmd: install_cmd(), mode: RunMode::Mute, strat: Strategy::plain() };
    let p = plan(inv, None);
    assert!(p.launch);
    assert!(p.mute);
    assert_eq!(p.echo, None);
}

#[test]
fn normal_mode_is_silent_without_prompt() {
    let inv = Invocation { cmd: install_cmd(), mode: RunMode::Normal, strat: Strategy::plain() };
    let p = plan(inv, None);
    assert!(p.launch);
    assert!(!p.mute);
    assert_eq!(p.echo, None);
}

#[test]
fn confirm_prompt_echoes_command_line() {
    let strat = Strategy { prompt: Prompt::Confirm, cleanup: Cleanup::NoCleanup };
    let inv = Invocation { cmd: install_cmd(), mode: RunMode::Normal, strat };
    let p = plan(inv, None);
    assert_eq!(p.ask, Prompt::Confirm);
    assert_eq!(p.echo, Some("brew install curl".to_string()));
}

#[test]
fn custom_confirm_uses_backend_preview() {
    let strat = Strategy { prompt: Prompt::CustomConfirm, cleanup: Cleanup::NoCleanup };
    let inv = Invocation { cmd: install_cmd(), mode: RunMode::Normal, strat };
    let p = plan(inv, Some("would install: curl 8.0".to_string()));
    assert_eq!(p.ask, Prompt::CustomConfirm);
    assert_eq!(p.echo, Some("would install: curl 8.0".to_string()));
}

#[test]
fn declined_prompt_cancels_and_skips_cleanup() {
    let strat =
        Strategy { prompt: Prompt::Confirm, cleanup: Cleanup::RunCommand(install_cmd()) };
    let inv = Invocation { cmd: install_cmd(), mode: RunMode::Normal, strat };
    let p = plan(inv, None);
    assert_eq!(decide(p.ask, Some(false)), Decision::Cancelled);
    assert_eq!(decide(p.ask, None), Decision::Cancelled);
    assert_eq!(decide(p.ask, Some(true)), Decision::Proceed);
    let cancelled = cancelled_result();
    assert_eq!(cancelled, Err(Error::UserCancelled));
    assert_eq!(cleanup_due(&p, &cancelled), None);
}

#[test]
fn cleanup_follows_success_only() {
    let clean = Cmd::new("brew".to_string()).sub("cleanup".to_string());
    let strat =
        Strategy { prompt: Prompt::NoPrompt, cleanup: Cleanup::RunCommand(clean.clone()) };
    let inv = Invocation { cmd: install_cmd(), mode: RunMode::Normal, strat };
    let p = plan(inv, None);
    assert_eq!(cleanup_due(&p, &Ok("done".to_string())), Some(&clean));
    let failed = Err(Error::CommandFailed { program: "brew".to_string(), exit_code: 1 });
    assert_eq!(cleanup_due(&p, &failed), None);
}

#[test]
fn answer_without_prompt_is_ignored() {
    assert_eq!(decide(Prompt::NoPrompt, Some(false)), Decision::Proceed);
    assert_eq!(decide(Prompt::NoPrompt, None), Decision::Proceed);
}

#[test]
fn zero_exit_succeeds_with_captured_output() {
    let r = interpret_outcome(
        &"brew".to_string(),
        LaunchOutcome::Exited { exit_code: 0, stdout: "fine\n".to_string() },
    );
    assert_eq!(r, Ok("fine\n".to_string()));
}

#[test]
fn nonzero_exit_is_command_failed() {
    let r = interpret_outcome(
        &"brew".to_string(),
        LaunchOutcome::Exited { exit_code: 2, stdout: String::new() },
    );
    assert_eq!(r, Err(Error::CommandFailed { program: "brew".to_string(), exit_code: 2 }));
}

#[test]
fn failed_launch_is_subprocess_launch_failed() {
    let r = interpret_outcome(&"brew".to_string(), LaunchOutcome::LaunchFailed);
    assert_eq!(r, Err(Error::SubprocessLaunchFailed));
}

#[test]
fn undecodable_output_is_output_decode_failed() {
    let r = interpret_outcome(&"brew".to_string(), LaunchOutcome::DecodeFailed);
    assert_eq!(r, Err(Error::OutputDecodeFailed));
}

#[test]
fn unsupported_operation_surfaces_verbatim() {
    assert_eq!(unsupported_result(), Err(Error::UnsupportedOperation));
}

#[test]
fn cancellation_is_not_a_failure() {
    assert!(!Error::UserCancelled.is_failure());
    assert!(Error::SubprocessLaunchFailed.is_failure());
    assert!(Error::UnsupportedOperation.is_failure());
    assert!(Error::OutputDecodeFailed.is_failure());
    assert!(Error::CommandFailed { program: "brew".to_string(), exit_code: 1 }.is_failure());
}
