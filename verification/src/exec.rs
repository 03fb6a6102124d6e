use vstd::prelude::*;

use crate::cmd::Cmd;
use crate::cmd::views;
use crate::error::Error;

verus! {

/// The process-wide run mode, chosen once from the command line before any
/// operation runs and never mutated afterwards.
#[derive(Clone, Copy, Debug, PartialEq, Eq, Structural)]
pub enum RunMode {
    /// Execute and stream the child's output.
    Normal,
    /// Print the command's display form instead of launching anything.
    DryRun,
    /// Execute, but suppress forwarding the child's output.
    Mute,
    /// Echo the command line, then execute.
    Verbose,
}

/// Prompt behaviour of an execution strategy.
#[derive(Clone, Copy, Debug, PartialEq, Eq, Structural)]
pub enum Prompt {
    /// Run without asking.
    NoPrompt,
    /// Print the command's display form and wait for a yes/no answer.
    Confirm,
    /// Like `Confirm`, but the backend supplies the preview text instead
    /// of the literal command line.
    CustomConfirm,
}

/// Cache-invalidation behaviour after a successful primary command.
#[derive(Clone, Debug, PartialEq, Eq)]
pub enum Cleanup {
    NoCleanup,
    /// Run the designated cleanup command once the primary succeeds.
    RunCommand(Cmd),
}

/// A per-operation execution strategy: prompt behaviour and post-success
/// cleanup. Pure configuration, attached per operation by a backend
/// adapter, never global.
#[derive(Clone, Debug, PartialEq, Eq)]
pub struct Strategy {
    pub prompt: Prompt,
    pub cleanup: Cleanup,
}

impl Strategy {
    /// The default strategy: no prompt, no cleanup.
    pub fn plain() -> (r: Strategy)
        ensures
            r == plain_strat(),
    {
        Strategy { prompt: Prompt::NoPrompt, cleanup: Cleanup::NoCleanup }
    }
}

/// One planned invocation: a command, the run mode to execute it under,
/// and the strategy the backend attached to the operation.
#[derive(Clone, Debug, PartialEq, Eq)]
pub struct Invocation {
    pub cmd: Cmd,
    pub mode: RunMode,
    pub strat: Strategy,
}

/// The components of one invocation, pinned at once: the command's parts
/// by their views, the run mode, and the strategy.
pub open spec fn inv_is(
    inv: Invocation,
    prog: Seq<char>,
    sub: Seq<Seq<char>>,
    kws: Seq<Seq<char>>,
    flags: Seq<Seq<char>>,
    mode: RunMode,
    strat: Strategy,
) -> bool {
    &&& crate::cmd::cmd_is(inv.cmd, prog, sub, kws, flags)
    &&& inv.mode == mode
    &&& inv.strat == strat
}

/// The strategy with no prompt and no cleanup.
pub open spec fn plain_strat() -> Strategy {
    Strategy { prompt: Prompt::NoPrompt, cleanup: Cleanup::NoCleanup }
}

/// What one canonical operation asks the driver to do.
#[derive(Clone, Debug, PartialEq, Eq)]
pub enum OpPlan {
    /// The backend declares the operation unimplemented: the caller
    /// surfaces `UnsupportedOperation` verbatim.
    Unsupported,
    /// Execute the invocations in order, stopping at the first failure
    /// (fail-fast; no partial-result report for the rest).
    Run(Vec<Invocation>),
    /// Execute the invocation (a muted probe), split its captured output
    /// into lines, and print only the lines matching every pattern.
    Filtered(Invocation, Vec<String>),
}

/// Everything the executor decides for one invocation, resolved before any
/// side effect happens: what to print, whether to await a yes/no answer,
/// whether to launch the subprocess (and with which argument vector),
/// whether to suppress the child's output, and which cleanup command may
/// follow a success.
#[derive(Clone, Debug, PartialEq, Eq)]
pub struct ExecPlan {
    /// Text printed before any prompt or launch: the display form, or the
    /// backend's preview text for a custom confirmation.
    pub echo: Option<String>,
    /// Whether (and how) to await a confirmation answer.
    pub ask: Prompt,
    /// Whether the primary subprocess is launched at all (after a prompt
    /// approval, where one is asked).
    pub launch: bool,
    /// Whether to suppress forwarding the child's output.
    pub mute: bool,
    /// The program to launch.
    pub program: String,
    /// The arguments after the program name, as an argument vector.
    pub args: Vec<String>,
    /// The cleanup command to run after a success, if the strategy
    /// designates one.
    pub cleanup: Option<Cmd>,
}

/// The text the executor echoes for an invocation, if any: a dry run and a
/// plain confirmation print the display form; a custom confirmation prints
/// the backend's preview text (falling back to the display form); verbose
/// mode echoes the display form; otherwise nothing is printed.
pub open spec fn spec_echo(
    cmd: Cmd,
    mode: RunMode,
    strat: Strategy,
    preview: Option<String>,
) -> Option<Seq<char>> {
    if mode is DryRun {
        Some(cmd.display_spec())
    } else if strat.prompt is Confirm {
        Some(cmd.display_spec())
    } else if strat.prompt is CustomConfirm {
        match preview {
            Some(p) => Some(p@),
            None => Some(cmd.display_spec()),
        }
    } else if mode is Verbose {
        Some(cmd.display_spec())
    } else {
        None
    }
}

/// The cleanup command a strategy designates, if any.
pub open spec fn spec_cleanup_of(strat: Strategy) -> Option<Cmd> {
    match strat.cleanup {
        Cleanup::NoCleanup => None,
        Cleanup::RunCommand(c) => Some(c),
    }
}

/// How a correct plan relates to the invocation it was resolved from.
pub open spec fn plan_matches(
    r: ExecPlan,
    cmd: Cmd,
    mode: RunMode,
    strat: Strategy,
    preview: Option<String>,
) -> bool {
    &&& r.launch == !(mode is DryRun)
    &&& r.mute == (mode is Mute)
    &&& r.ask == (if mode is DryRun {
        Prompt::NoPrompt
    } else {
        strat.prompt
    })
    &&& (match spec_echo(cmd, mode, strat, preview) {
        Some(e) => r.echo matches Some(s) && s@ == e,
        None => r.echo is None,
    })
    &&& r.cleanup == (if mode is DryRun {
        Option::<Cmd>::None
    } else {
        spec_cleanup_of(strat)
    })
    &&& r.program@ == cmd.program@
    &&& views(r.args@) == views(cmd.subcmd@) + views(cmd.kws@) + views(cmd.flags@)
}

/// Resolves an invocation and the global run mode into a concrete plan.
///
/// This is the executor's whole decision: a dry run echoes the display
/// form and launches nothing (and schedules no cleanup); otherwise the
/// subprocess is launched after any confirmation the strategy asks for,
/// muted exactly in mute mode, echoed per `spec_echo`, with the
/// strategy's cleanup command scheduled to follow a success.
pub fn plan(inv: Invocation, preview: Option<String>) -> (r: ExecPlan)
    ensures
        plan_matches(r, inv.cmd, inv.mode, inv.strat, preview),
{
    let Invocation { cmd, mode, strat } = inv;
    let args = cmd.args();
    match mode {
        RunMode::DryRun => ExecPlan {
            echo: Some(cmd.display()),
            ask: Prompt::NoPrompt,
            launch: false,
            mute: false,
            program: cmd.program,
            args,
            cleanup: None,
        },
        _ => {
            let echo = match strat.prompt {
                Prompt::Confirm => Some(cmd.display()),
                Prompt::CustomConfirm => match preview {
                    Some(p) => Some(p),
                    None => Some(cmd.display()),
                },
                Prompt::NoPrompt => match mode {
                    RunMode::Verbose => Some(cmd.display()),
                    _ => None,
                },
            };
            let cleanup = match strat.cleanup {
                Cleanup::NoCleanup => None,
                Cleanup::RunCommand(c) => Some(c),
            };
            let mute = matches!(mode, RunMode::Mute);
            ExecPlan {
                echo,
                ask: strat.prompt,
                launch: true,
                mute,
                program: cmd.program,
                args,
                cleanup,
            }
        },
    }
}

/// The outcome of a confirmation prompt.
#[derive(Clone, Copy, Debug, PartialEq, Eq, Structural)]
pub enum Decision {
    Proceed,
    Cancelled,
}

/// How a prompt answer resolves: without a prompt the run proceeds; with
/// one, only an explicit "yes" proceeds — "no" and absence of input
/// (a closed input stream) both cancel.
pub open spec fn spec_decision(ask: Prompt, answer: Option<bool>) -> Decision {
    if ask is NoPrompt {
        Decision::Proceed
    } else if answer == Some(true) {
        Decision::Proceed
    } else {
        Decision::Cancelled
    }
}

/// Resolves the answer read from the interactive input.
pub fn decide(ask: Prompt, answer: Option<bool>) -> (r: Decision)
    ensures
        r == spec_decision(ask, answer),
{
    match ask {
        Prompt::NoPrompt => Decision::Proceed,
        _ => match answer {
            Some(true) => Decision::Proceed,
            _ => Decision::Cancelled,
        },
    }
}

/// The result of a cancelled invocation: `UserCancelled`, with nothing run.
pub fn cancelled_result() -> (r: Result<String, Error>)
    ensures
        r == Result::<String, Error>::Err(Error::UserCancelled),
{
    Err(Error::UserCancelled)
}

/// The result of a dry run: success with empty captured output.
pub fn dry_run_result() -> (r: Result<String, Error>)
    ensures
        r matches Ok(s) && s@ == Seq::<char>::empty(),
{
    Ok(String::new())
}

/// The result of an operation its backend declares unimplemented:
/// surfaced verbatim, never a silent no-op.
pub fn unsupported_result() -> (r: Result<(), Error>)
    ensures
        r == Result::<(), Error>::Err(Error::UnsupportedOperation),
{
    Err(Error::UnsupportedOperation)
}

/// What a launch reported back, before interpretation.
#[derive(Clone, Debug, PartialEq, Eq)]
pub enum LaunchOutcome {
    /// The executable could not be found or started.
    LaunchFailed,
    /// The captured bytes were not valid text.
    DecodeFailed,
    /// The child ran to completion.
    Exited { exit_code: i32, stdout: String },
}

/// Maps a raw launch outcome to the operation result, per the error
/// taxonomy: exit status zero succeeds with the captured output; a nonzero
/// status is `CommandFailed` with the program name and status; a failed
/// launch is `SubprocessLaunchFailed`; undecodable output is
/// `OutputDecodeFailed`. Nothing is swallowed and nothing is retried.
pub fn interpret_outcome(program: &String, outcome: LaunchOutcome) -> (r: Result<String, Error>)
    ensures
        outcome is LaunchFailed ==> r == Result::<String, Error>::Err(
            Error::SubprocessLaunchFailed,
        ),
        outcome is DecodeFailed ==> r == Result::<String, Error>::Err(Error::OutputDecodeFailed),
        outcome matches LaunchOutcome::Exited { exit_code, stdout } ==> r == (if exit_code == 0 {
            Result::<String, Error>::Ok(stdout)
        } else {
            Result::<String, Error>::Err(
                (Error::CommandFailed { program: *program, exit_code }),
            )
        }),
{
    match outcome {
        LaunchOutcome::LaunchFailed => Err(Error::SubprocessLaunchFailed),
        LaunchOutcome::DecodeFailed => Err(Error::OutputDecodeFailed),
        LaunchOutcome::Exited { exit_code, stdout } => {
            if exit_code == 0 {
                Ok(stdout)
            } else {
                Err(Error::CommandFailed { program: program.clone(), exit_code })
            }
        },
    }
}

/// The cleanup command that is due after the primary command: exactly the
/// strategy's designated command, and only when the primary succeeded.
/// Cleanup only follows success; a cancellation or failure runs nothing.
pub open spec fn spec_cleanup_due(plan: ExecPlan, primary: Result<String, Error>) -> Option<Cmd> {
    if primary is Ok {
        plan.cleanup
    } else {
        None
    }
}

/// Decides whether (and which) cleanup command follows the primary
/// result. The cleanup command's own outcome is deliberately dropped by
/// the caller: a cleanup failure never overrides the primary success.
pub fn cleanup_due<'a>(plan: &'a ExecPlan, primary: &Result<String, Error>) -> (r: Option<&'a Cmd>)
    ensures
        r is Some <==> spec_cleanup_due(*plan, *primary) is Some,
        r matches Some(c) ==> spec_cleanup_due(*plan, *primary) == Some(*c),
{
    if primary.is_ok() {
        plan.cleanup.as_ref()
    } else {
        None
    }
}

/// Dry-run mode never launches: for every command, strategy and preview,
/// the resolved plan launches no subprocess, asks no confirmation and
/// schedules no cleanup command.
pub proof fn lemma_dry_run_never_launches(
    cmd: Cmd,
    strat: Strategy,
    preview: Option<String>,
    r: ExecPlan,
)
    requires
        plan_matches(r, cmd, RunMode::DryRun, strat, preview),
    ensures
        !r.launch,
        r.ask is NoPrompt,
        r.cleanup is None,
        forall|primary: Result<String, Error>| spec_cleanup_due(r, primary) is None,
{
}

/// A declined confirmation prompt (plain or custom, "no" or end of input)
/// resolves to a cancellation, the primary command is not launched after
/// it, its result is `UserCancelled`, and no cleanup command is due even
/// where the strategy designates one: cleanup only follows success.
pub proof fn lemma_declined_prompt_cancels(
    cmd: Cmd,
    mode: RunMode,
    strat: Strategy,
    preview: Option<String>,
    answer: Option<bool>,
    r: ExecPlan,
)
    requires
        !(mode is DryRun),
        strat.prompt is Confirm || strat.prompt is CustomConfirm,
        answer != Some(true),
        plan_matches(r, cmd, mode, strat, preview),
    ensures
        spec_decision(r.ask, answer) is Cancelled,
        spec_cleanup_due(r, Result::<String, Error>::Err(Error::UserCancelled)) is None,
{
}

} // verus!
