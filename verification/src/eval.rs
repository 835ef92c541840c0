//! The evaluator: a state machine over command trees.
//!
//! The shell process alone decides what happens next, but everything it
//! decides *about* — forking, waiting, changing directory — is a system
//! effect. The evaluator therefore runs as a machine: [`Shell::start`] arms
//! it with a tree, and each [`Shell::step`] consumes one [`Event`] (what the
//! caller observed) and returns one [`Action`] (what the caller must do
//! next), until the action is [`Action::Done`]. The caller performs actions
//! faithfully and reports events truthfully; every decision in between is
//! verified against [`spec_step`].

use vstd::prelude::*;
use vstd::string::StringExecFns;
use crate::cmd::{Cmd, CmdKind};
use crate::list::{List, rev_append, rev_copy};
use crate::plan::{ExternalCmd, SubshellCmd, BgItem, spec_stage_plan, stages_of, bg_items_of,
    plan_stages, zip_bg_items};
use crate::flatten::{pipe_leaves, bg_flatten, create_pipe_cmd_array, create_bg_cmd_arrays,
    lemma_bg_flatten_lens};
use crate::status::{ChildExit, decoded_status, decode_status, Slot, table_of, build_table,
    mark_reaped, record_reaped, spec_has_unfilled, has_unfilled, spec_pipe_status, pipe_status};

verus! {

/// The commands that must run in the shell process itself.
#[derive(Clone, Copy, Debug)]
pub enum BuiltinKind {
    Cd,
    Pushd,
    Popd,
}

/// How one `Simple` node is to be run.
#[derive(Debug)]
pub enum SimpleStep {
    /// The node has an empty argv: report and fail with status 1.
    NoCommand,
    /// A builtin, with the node's argv and locals.
    Builtin(BuiltinKind, Vec<String>, Vec<(String, String)>),
    /// An external program for the caller to fork and exec.
    External(ExternalCmd),
}

/// A diagnostic for the caller to print on stderr.
#[derive(Clone, Copy, Debug)]
pub enum Diag {
    /// A `Simple` node without a program name.
    NoCommand,
    /// `cd` with more than one argument.
    TooManyArgs,
    /// `cd` without arguments while `HOME` is unset.
    HomeUnset,
    /// A pipeline node with no `Simple` descendants.
    EmptyPipeline,
}

/// Pending internal work between events.
#[derive(Debug)]
pub enum Work {
    /// Evaluate this subtree next.
    Eval(Cmd),
    /// A subtree finished with this status; deliver it to the frame stack.
    Ret(u32),
    /// Run the remaining items of a flattened background chain.
    Bg(List<BgItem>),
}

/// One saved continuation: what to do when the subtree currently being
/// evaluated delivers its status.
#[derive(Debug)]
pub enum Frame {
    /// Evaluating the left of `&&`; the payload is the right branch.
    AndRight(Option<Box<Cmd>>),
    /// Evaluating the left of `||`; the payload is the right branch.
    OrRight(Option<Box<Cmd>>),
    /// Evaluating the left of `;`; the payload is the right branch.
    SeqRight(Option<Box<Cmd>>),
    /// Evaluating the right of `;`; the payload is the left status.
    SeqLeftStatus(u32),
    /// Evaluating one foreground item of a background chain; the payload is
    /// the rest of the chain.
    BgRest(List<BgItem>),
}

/// What a pending `Chdir` action was issued for.
#[derive(Debug)]
pub enum ChdirGoal {
    /// `cd`: the chdir result is the builtin's status.
    Cd,
    /// `pushd`: on success the directory listing is printed; `previous` is
    /// the working directory that was just pushed.
    Pushd { previous: String },
    /// `popd`: the chdir result is the builtin's status.
    Popd,
}

/// What the machine is waiting for.
#[derive(Debug)]
pub enum Phase {
    /// No evaluation in progress.
    Idle,
    /// Internal work pending; the caller acknowledges `Continue` with `Ack`.
    Run(Work),
    /// A foreground child (simple command or subshell) is running.
    AwaitChild,
    /// A pipeline was handed out; the caller reports the forked pids.
    AwaitPids,
    /// Reaping pipeline children into the process table.
    Reaping(List<Slot>),
    /// A background child was launched; the rest of the chain follows.
    AwaitBgAck(List<BgItem>),
    /// A builtin's locals are being applied; the builtin follows.
    AwaitLocals(BuiltinKind, Vec<String>),
    /// `cd` without arguments asked for `HOME`.
    AwaitHome,
    /// `pushd` asked for the current working directory before moving to
    /// `dir`.
    AwaitCwd { dir: String },
    /// A `Chdir` action is outstanding.
    AwaitChdir(ChdirGoal),
    /// The `pushd` directory listing is being printed.
    AwaitPrint,
    /// A diagnostic is being printed; the payload status follows.
    AwaitReport(u32),
    /// The `?` binding is being written; `Done` follows.
    AwaitBind(u32),
}

/// What the caller observed while performing the last action.
#[derive(Debug)]
pub enum Event {
    /// The action needed no observation (or `Continue` was returned).
    Ack,
    /// The foreground child was reaped with this wait observation.
    Child(ChildExit),
    /// The pipeline stages were forked with these pids, in stage order —
    /// or forking failed with this errno.
    PipeStarted(Result<List<i32>, u32>),
    /// A blocking wait returned this pid and observation.
    Reaped(i32, ChildExit),
    /// A blocking wait failed; the reap loop retries.
    ReapFailed,
    /// The chdir succeeded, or failed with this errno.
    ChdirDone(Result<(), u32>),
    /// The working directory, or the errno reading it failed with.
    Cwd(Result<String, u32>),
    /// The value of `HOME`, if set.
    Home(Option<String>),
}

/// What the caller must do next.
#[derive(Debug)]
pub enum Action {
    /// Nothing: call `step` again with `Ack`.
    Continue,
    /// Fork; in the child apply locals and redirections and exec; wait for
    /// the child and report the wait observation as `Child`.
    RunExternal(ExternalCmd),
    /// Fork one child per stage, wired by pipes in stage order; report the
    /// pids as `PipeStarted`.
    RunPipeline(List<ExternalCmd>),
    /// Fork; in the child apply locals and redirections and evaluate `body`
    /// with a fresh machine, exiting with its status; wait and report
    /// `Child`.
    RunSubshell(SubshellCmd),
    /// Fork; the child evaluates the command with a fresh machine and exits;
    /// do not wait. Print `Backgrounded: <pid>` on stderr and report `Ack`.
    RunBackground(Cmd),
    /// Block in wait for any child; report `Reaped` or `ReapFailed`.
    WaitAny,
    /// Change the working directory; report `ChdirDone`.
    Chdir(String),
    /// Read the working directory; report `Cwd`.
    ReadCwd,
    /// Read `HOME`; report `Home`.
    ReadHome,
    /// Set each binding in the shell's environment; report `Ack`.
    ApplyLocals(Vec<(String, String)>),
    /// Print the `pushd` listing: `previous` on its own line, then each
    /// entry of `entries` followed by a space, one per line; report `Ack`.
    PrintDirs { previous: String, entries: List<String> },
    /// Print a diagnostic on stderr; report `Ack`.
    Report(Diag),
    /// Bind the environment variable `?` to the decimal rendering of the
    /// status (see [`crate::numfmt::format_status`]); report `Ack`.
    BindStatus(u32),
    /// The evaluation finished with this status.
    Done(u32),
    /// The event did not answer the outstanding action; the machine reset.
    Fault,
}

/// The evaluator's whole state. `dirs` is the `pushd`/`popd` directory
/// stack, most recently pushed first; it outlives single evaluations.
#[derive(Debug)]
pub struct Shell {
    pub dirs: List<String>,
    pub frames: List<Frame>,
    pub phase: Phase,
}

/// Continue internally with work `w`.
pub open spec fn spec_run(dirs: List<String>, frames: List<Frame>, w: Work) -> (Shell, Action) {
    (Shell { dirs, frames, phase: Phase::Run(w) }, Action::Continue)
}

/// Which builtin, if any, this program name names.
pub open spec fn spec_builtin_of(s: Seq<char>) -> Option<BuiltinKind> {
    if s == "cd"@ {
        Some(BuiltinKind::Cd)
    } else if s == "pushd"@ {
        Some(BuiltinKind::Pushd)
    } else if s == "popd"@ {
        Some(BuiltinKind::Popd)
    } else {
        None
    }
}

fn builtin_of(s: &String) -> (r: Option<BuiltinKind>)
    ensures
        r == spec_builtin_of(s@),
{
    if *s == String::from_str("cd") {
        Some(BuiltinKind::Cd)
    } else if *s == String::from_str("pushd") {
        Some(BuiltinKind::Pushd)
    } else if *s == String::from_str("popd") {
        Some(BuiltinKind::Popd)
    } else {
        None
    }
}

/// How a `Simple` node is run: nodes with an empty argv fail, a builtin
/// name selects the builtin, anything else is an external program whose
/// launch payload carries the node's argv, locals and redirections
/// unchanged.
pub open spec fn spec_handle_simple(c: Cmd) -> SimpleStep {
    if c.argv.len() == 0 {
        SimpleStep::NoCommand
    } else {
        match spec_builtin_of(c.argv[0]@) {
            Some(k) => SimpleStep::Builtin(k, c.argv, c.locals),
            None => SimpleStep::External(spec_stage_plan(c)),
        }
    }
}

/// Classifies a `Simple` node, as [`spec_handle_simple`] describes.
pub fn handle_simple(c: Cmd) -> (r: SimpleStep)
    ensures
        r == spec_handle_simple(c),
{
    if c.argv.len() == 0 {
        return SimpleStep::NoCommand;
    }
    match builtin_of(&c.argv[0]) {
        Some(k) => SimpleStep::Builtin(k, c.argv, c.locals),
        None => SimpleStep::External(
            ExternalCmd { argv: c.argv, locals: c.locals, input: c.input, output: c.output },
        ),
    }
}

/// `cd`: without arguments, ask for `HOME`; with one argument, move there;
/// with more, report and fail with status 1.
pub open spec fn spec_process_cd(dirs: List<String>, frames: List<Frame>, argv: Vec<String>) -> (
    Shell,
    Action,
) {
    if argv.len() == 1 {
        (Shell { dirs, frames, phase: Phase::AwaitHome }, Action::ReadHome)
    } else if argv.len() == 2 {
        (Shell { dirs, frames, phase: Phase::AwaitChdir(ChdirGoal::Cd) }, Action::Chdir(argv[1]))
    } else {
        (Shell { dirs, frames, phase: Phase::AwaitReport(1) }, Action::Report(Diag::TooManyArgs))
    }
}

/// Starts the `cd` builtin, as [`spec_process_cd`] describes.
pub fn process_cd(dirs: List<String>, frames: List<Frame>, argv: Vec<String>) -> (r: (
    Shell,
    Action,
))
    ensures
        r == spec_process_cd(dirs, frames, argv),
{
    if argv.len() == 1 {
        (Shell { dirs, frames, phase: Phase::AwaitHome }, Action::ReadHome)
    } else if argv.len() == 2 {
        let dir = argv[1].clone();
        (Shell { dirs, frames, phase: Phase::AwaitChdir(ChdirGoal::Cd) }, Action::Chdir(dir))
    } else {
        (Shell { dirs, frames, phase: Phase::AwaitReport(1) }, Action::Report(Diag::TooManyArgs))
    }
}

/// `pushd`: exactly one argument, else status 1; ask for the working
/// directory, which will be pushed before moving.
pub open spec fn spec_process_pushd(dirs: List<String>, frames: List<Frame>, argv: Vec<String>) -> (
    Shell,
    Action,
) {
    if argv.len() != 2 {
        spec_run(dirs, frames, Work::Ret(1))
    } else {
        (Shell { dirs, frames, phase: Phase::AwaitCwd { dir: argv[1] } }, Action::ReadCwd)
    }
}

/// Starts the `pushd` builtin, as [`spec_process_pushd`] describes.
pub fn process_pushd(dirs: List<String>, frames: List<Frame>, argv: Vec<String>) -> (r: (
    Shell,
    Action,
))
    ensures
        r == spec_process_pushd(dirs, frames, argv),
{
    if argv.len() != 2 {
        (Shell { dirs, frames, phase: Phase::Run(Work::Ret(1)) }, Action::Continue)
    } else {
        let dir = argv[1].clone();
        (Shell { dirs, frames, phase: Phase::AwaitCwd { dir } }, Action::ReadCwd)
    }
}

/// `popd`: no arguments, else status 1; an empty stack is an error with
/// status 1; otherwise pop the most recent entry and move there.
pub open spec fn spec_process_popd(dirs: List<String>, frames: List<Frame>, argv: Vec<String>) -> (
    Shell,
    Action,
) {
    if argv.len() != 1 {
        spec_run(dirs, frames, Work::Ret(1))
    } else {
        match dirs {
            List::Nil => spec_run(dirs, frames, Work::Ret(1)),
            List::Cons(d, rest) => (
                (Shell { dirs: *rest, frames, phase: Phase::AwaitChdir(ChdirGoal::Popd) }),
                Action::Chdir(d),
            ),
        }
    }
}

/// Starts the `popd` builtin, as [`spec_process_popd`] describes.
pub fn process_popd(dirs: List<String>, frames: List<Frame>, argv: Vec<String>) -> (r: (
    Shell,
    Action,
))
    ensures
        r == spec_process_popd(dirs, frames, argv),
{
    if argv.len() != 1 {
        return (Shell { dirs, frames, phase: Phase::Run(Work::Ret(1)) }, Action::Continue);
    }
    match dirs {
        List::Nil => (
            Shell { dirs: List::Nil, frames, phase: Phase::Run(Work::Ret(1)) },
            Action::Continue,
        ),
        List::Cons(d, rest) => (
            Shell { dirs: *rest, frames, phase: Phase::AwaitChdir(ChdirGoal::Popd) },
            Action::Chdir(d),
        ),
    }
}

/// Dispatch to one builtin.
pub open spec fn spec_builtin_step(
    dirs: List<String>,
    frames: List<Frame>,
    k: BuiltinKind,
    argv: Vec<String>,
) -> (Shell, Action) {
    match k {
        BuiltinKind::Cd => spec_process_cd(dirs, frames, argv),
        BuiltinKind::Pushd => spec_process_pushd(dirs, frames, argv),
        BuiltinKind::Popd => spec_process_popd(dirs, frames, argv),
    }
}

/// Runs the named builtin in the shell process, as [`spec_builtin_step`]
/// describes.
pub fn process_built_in_simple(
    dirs: List<String>,
    frames: List<Frame>,
    k: BuiltinKind,
    argv: Vec<String>,
) -> (r: (Shell, Action))
    ensures
        r == spec_builtin_step(dirs, frames, k, argv),
{
    match k {
        BuiltinKind::Cd => process_cd(dirs, frames, argv),
        BuiltinKind::Pushd => process_pushd(dirs, frames, argv),
        BuiltinKind::Popd => process_popd(dirs, frames, argv),
    }
}

/// A `Simple` node: report an empty argv; start a builtin, applying its
/// locals to the shell's own environment first; or hand an external
/// command's launch payload to the caller.
pub open spec fn spec_eval_simple(dirs: List<String>, frames: List<Frame>, c: Cmd) -> (
    Shell,
    Action,
) {
    match spec_handle_simple(c) {
        SimpleStep::NoCommand => (
            Shell { dirs, frames, phase: Phase::AwaitReport(1) },
            Action::Report(Diag::NoCommand),
        ),
        SimpleStep::Builtin(k, argv, locals) => {
            if locals.len() > 0 {
                (
                    Shell { dirs, frames, phase: Phase::AwaitLocals(k, argv) },
                    Action::ApplyLocals(locals),
                )
            } else {
                spec_builtin_step(dirs, frames, k, argv)
            }
        },
        SimpleStep::External(e) => (
            Shell { dirs, frames, phase: Phase::AwaitChild },
            Action::RunExternal(e),
        ),
    }
}

/// A pipeline node: flatten it to its `Simple` stages and hand their launch
/// payloads out in stage order; a pipeline with no stages is rejected with
/// status 1.
pub open spec fn spec_handle_pipe(dirs: List<String>, frames: List<Frame>, c: Cmd) -> (
    Shell,
    Action,
) {
    let leaves = pipe_leaves(c);
    if leaves.len() == 0 {
        (Shell { dirs, frames, phase: Phase::AwaitReport(1) }, Action::Report(Diag::EmptyPipeline))
    } else {
        (Shell { dirs, frames, phase: Phase::AwaitPids }, Action::RunPipeline(stages_of(leaves)))
    }
}

/// Flattens and launches a pipeline, as [`spec_handle_pipe`] describes.
pub fn handle_pipe(dirs: List<String>, frames: List<Frame>, c: Cmd) -> (r: (Shell, Action))
    ensures
        r == spec_handle_pipe(dirs, frames, c),
{
    let mut stages: Vec<Cmd> = Vec::new();
    proof {
        assert(Seq::<Cmd>::empty() + pipe_leaves(c) =~= pipe_leaves(c));
    }
    create_pipe_cmd_array(c, &mut stages);
    if stages.len() == 0 {
        (Shell { dirs, frames, phase: Phase::AwaitReport(1) }, Action::Report(Diag::EmptyPipeline))
    } else {
        let plans = plan_stages(stages);
        (Shell { dirs, frames, phase: Phase::AwaitPids }, Action::RunPipeline(plans))
    }
}

/// `&&` and `||`: evaluate the left branch under a frame holding the right;
/// a node without a left branch fails with status 1.
pub open spec fn spec_handle_cond(dirs: List<String>, frames: List<Frame>, c: Cmd) -> (
    Shell,
    Action,
) {
    match c.left {
        None => spec_run(dirs, frames, Work::Ret(1)),
        Some(l) => {
            let fr = if c.kind is SepAnd {
                Frame::AndRight(c.right)
            } else {
                Frame::OrRight(c.right)
            };
            spec_run(dirs, List::Cons(fr, Box::new(frames)), Work::Eval(*l))
        },
    }
}

/// Starts a conditional node, as [`spec_handle_cond`] describes.
pub fn handle_cond(dirs: List<String>, frames: List<Frame>, c: Cmd) -> (r: (Shell, Action))
    ensures
        r == spec_handle_cond(dirs, frames, c),
{
    let is_and = match c.kind {
        CmdKind::SepAnd => true,
        _ => false,
    };
    match c.left {
        None => (Shell { dirs, frames, phase: Phase::Run(Work::Ret(1)) }, Action::Continue),
        Some(l) => {
            let fr = if is_and {
                Frame::AndRight(c.right)
            } else {
                Frame::OrRight(c.right)
            };
            (
                Shell {
                    dirs,
                    frames: List::Cons(fr, Box::new(frames)),
                    phase: Phase::Run(Work::Eval(*l)),
                },
                Action::Continue,
            )
        },
    }
}

/// `;`: evaluate the left branch under a frame holding the right; a missing
/// left branch contributes status 0.
pub open spec fn spec_handle_sep_end(dirs: List<String>, frames: List<Frame>, c: Cmd) -> (
    Shell,
    Action,
) {
    match c.left {
        Some(l) => spec_run(
            dirs,
            List::Cons(Frame::SeqRight(c.right), Box::new(frames)),
            Work::Eval(*l),
        ),
        None => match c.right {
            Some(r) => spec_run(
                dirs,
                List::Cons(Frame::SeqLeftStatus(0), Box::new(frames)),
                Work::Eval(*r),
            ),
            None => spec_run(dirs, frames, Work::Ret(0)),
        },
    }
}

/// Starts a `;` node, as [`spec_handle_sep_end`] describes.
pub fn handle_sep_end(dirs: List<String>, frames: List<Frame>, c: Cmd) -> (r: (Shell, Action))
    ensures
        r == spec_handle_sep_end(dirs, frames, c),
{
    match c.left {
        Some(l) => (
            Shell {
                dirs,
                frames: List::Cons(Frame::SeqRight(c.right), Box::new(frames)),
                phase: Phase::Run(Work::Eval(*l)),
            },
            Action::Continue,
        ),
        None => match c.right {
            Some(r) => (
                Shell {
                    dirs,
                    frames: List::Cons(Frame::SeqLeftStatus(0), Box::new(frames)),
                    phase: Phase::Run(Work::Eval(*r)),
                },
                Action::Continue,
            ),
            None => (Shell { dirs, frames, phase: Phase::Run(Work::Ret(0)) }, Action::Continue),
        },
    }
}

/// `&`: flatten the chain of `&`/`;` siblings into its items and run them
/// in source order.
pub open spec fn spec_handle_bg(dirs: List<String>, frames: List<Frame>, c: Cmd) -> (
    Shell,
    Action,
) {
    let flat = bg_flatten(c, (Seq::empty(), Seq::empty()));
    spec_run(dirs, frames, Work::Bg(bg_items_of(flat.0, flat.1)))
}

/// Flattens a background chain, as [`spec_handle_bg`] describes.
pub fn handle_bg(dirs: List<String>, frames: List<Frame>, c: Cmd) -> (r: (Shell, Action))
    ensures
        r == spec_handle_bg(dirs, frames, c),
{
    let mut bg_vec: Vec<bool> = Vec::new();
    let mut cmd_vec: Vec<Cmd> = Vec::new();
    proof {
        lemma_bg_flatten_lens(c, (Seq::empty(), Seq::empty()));
    }
    create_bg_cmd_arrays(c, &mut bg_vec, &mut cmd_vec);
    let items = zip_bg_items(cmd_vec, bg_vec);
    (Shell { dirs, frames, phase: Phase::Run(Work::Bg(items)) }, Action::Continue)
}

/// A subshell node: hand the caller its locals, redirections and body to
/// evaluate in a forked child; a node without a body fails with status 1.
pub open spec fn spec_handle_subcmd(dirs: List<String>, frames: List<Frame>, c: Cmd) -> (
    Shell,
    Action,
) {
    match c.left {
        None => spec_run(dirs, frames, Work::Ret(1)),
        Some(l) => (
            Shell { dirs, frames, phase: Phase::AwaitChild },
            Action::RunSubshell(
                SubshellCmd { locals: c.locals, input: c.input, output: c.output, body: *l },
            ),
        ),
    }
}

/// Starts a subshell, as [`spec_handle_subcmd`] describes.
pub fn handle_subcmd(dirs: List<String>, frames: List<Frame>, c: Cmd) -> (r: (Shell, Action))
    ensures
        r == spec_handle_subcmd(dirs, frames, c),
{
    match c.left {
        None => (Shell { dirs, frames, phase: Phase::Run(Work::Ret(1)) }, Action::Continue),
        Some(l) => (
            Shell { dirs, frames, phase: Phase::AwaitChild },
            Action::RunSubshell(
                SubshellCmd { locals: c.locals, input: c.input, output: c.output, body: *l },
            ),
        ),
    }
}

/// Dispatch over the node kinds.
pub open spec fn spec_eval(dirs: List<String>, frames: List<Frame>, c: Cmd) -> (Shell, Action) {
    match c.kind {
        CmdKind::Simple => spec_eval_simple(dirs, frames, c),
        CmdKind::Pipe => spec_handle_pipe(dirs, frames, c),
        CmdKind::SepAnd => spec_handle_cond(dirs, frames, c),
        CmdKind::SepOr => spec_handle_cond(dirs, frames, c),
        CmdKind::SepEnd => spec_handle_sep_end(dirs, frames, c),
        CmdKind::SepBg => spec_handle_bg(dirs, frames, c),
        CmdKind::Subcmd => spec_handle_subcmd(dirs, frames, c),
    }
}

/// Begins evaluating one node, as [`spec_eval`] describes.
pub fn handle_any(dirs: List<String>, frames: List<Frame>, c: Cmd) -> (r: (Shell, Action))
    ensures
        r == spec_eval(dirs, frames, c),
{
    match c.kind {
        CmdKind::Simple => {
            match handle_simple(c) {
                SimpleStep::NoCommand => (
                    Shell { dirs, frames, phase: Phase::AwaitReport(1) },
                    Action::Report(Diag::NoCommand),
                ),
                SimpleStep::Builtin(k, argv, locals) => {
                    if locals.len() > 0 {
                        (
                            Shell { dirs, frames, phase: Phase::AwaitLocals(k, argv) },
                            Action::ApplyLocals(locals),
                        )
                    } else {
                        process_built_in_simple(dirs, frames, k, argv)
                    }
                },
                SimpleStep::External(e) => (
                    Shell { dirs, frames, phase: Phase::AwaitChild },
                    Action::RunExternal(e),
                ),
            }
        },
        CmdKind::Pipe => handle_pipe(dirs, frames, c),
        CmdKind::SepAnd => handle_cond(dirs, frames, c),
        CmdKind::SepOr => handle_cond(dirs, frames, c),
        CmdKind::SepEnd => handle_sep_end(dirs, frames, c),
        CmdKind::SepBg => handle_bg(dirs, frames, c),
        CmdKind::Subcmd => handle_subcmd(dirs, frames, c),
    }
}

/// Deliver a finished subtree's status to the innermost frame. With no
/// frames left the evaluation is over: bind `?` and report the status.
/// `&&` returns a non-zero left status without touching its right branch;
/// `||` returns 0 without touching its right branch; `;` returns the right
/// status if non-zero, else the left; a background chain discards the item's
/// status and moves on.
pub open spec fn spec_ret(dirs: List<String>, frames: List<Frame>, s: u32) -> (Shell, Action) {
    match frames {
        List::Nil => (
            Shell { dirs, frames: List::Nil, phase: Phase::AwaitBind(s) },
            Action::BindStatus(s),
        ),
        List::Cons(f, rest) => match f {
            Frame::AndRight(r) => {
                if s != 0 {
                    spec_run(dirs, *rest, Work::Ret(s))
                } else {
                    spec_eval_branch(dirs, *rest, r)
                }
            },
            Frame::OrRight(r) => {
                if s == 0 {
                    spec_run(dirs, *rest, Work::Ret(0))
                } else {
                    spec_eval_branch(dirs, *rest, r)
                }
            },
            Frame::SeqRight(r) => match r {
                None => spec_run(dirs, *rest, Work::Ret(s)),
                Some(rc) => spec_run(
                    dirs,
                    List::Cons(Frame::SeqLeftStatus(s), rest),
                    Work::Eval(*rc),
                ),
            },
            Frame::SeqLeftStatus(l) => spec_run(
                dirs,
                *rest,
                Work::Ret(if s != 0 { s } else { l }),
            ),
            Frame::BgRest(items) => spec_run(dirs, *rest, Work::Bg(items)),
        },
    }
}

/// A conditional's right branch: evaluate it, or fail with status 1 when the
/// branch is missing.
pub open spec fn spec_eval_branch(
    dirs: List<String>,
    frames: List<Frame>,
    r: Option<Box<Cmd>>,
) -> (Shell, Action) {
    match r {
        None => spec_run(dirs, frames, Work::Ret(1)),
        Some(rc) => spec_run(dirs, frames, Work::Eval(*rc)),
    }
}

/// Delivers a status to the frame stack, as [`spec_ret`] describes.
pub fn ret_status(dirs: List<String>, frames: List<Frame>, s: u32) -> (r: (Shell, Action))
    ensures
        r == spec_ret(dirs, frames, s),
{
    match frames {
        List::Nil => (
            Shell { dirs, frames: List::Nil, phase: Phase::AwaitBind(s) },
            Action::BindStatus(s),
        ),
        List::Cons(f, rest) => match f {
            Frame::AndRight(r) => {
                if s != 0 {
                    (Shell { dirs, frames: *rest, phase: Phase::Run(Work::Ret(s)) }, Action::Continue)
                } else {
                    eval_branch(dirs, *rest, r)
                }
            },
            Frame::OrRight(r) => {
                if s == 0 {
                    (Shell { dirs, frames: *rest, phase: Phase::Run(Work::Ret(0)) }, Action::Continue)
                } else {
                    eval_branch(dirs, *rest, r)
                }
            },
            Frame::SeqRight(r) => match r {
                None => (
                    Shell { dirs, frames: *rest, phase: Phase::Run(Work::Ret(s)) },
                    Action::Continue,
                ),
                Some(rc) => (
                    Shell {
                        dirs,
                        frames: List::Cons(Frame::SeqLeftStatus(s), rest),
                        phase: Phase::Run(Work::Eval(*rc)),
                    },
                    Action::Continue,
                ),
            },
            Frame::SeqLeftStatus(l) => {
                let combined = if s != 0 {
                    s
                } else {
                    l
                };
                (
                    Shell { dirs, frames: *rest, phase: Phase::Run(Work::Ret(combined)) },
                    Action::Continue,
                )
            },
            Frame::BgRest(items) => (
                Shell { dirs, frames: *rest, phase: Phase::Run(Work::Bg(items)) },
                Action::Continue,
            ),
        },
    }
}

fn eval_branch(dirs: List<String>, frames: List<Frame>, r: Option<Box<Cmd>>) -> (res: (
    Shell,
    Action,
))
    ensures
        res == spec_eval_branch(dirs, frames, r),
{
    match r {
        None => (Shell { dirs, frames, phase: Phase::Run(Work::Ret(1)) }, Action::Continue),
        Some(rc) => (Shell { dirs, frames, phase: Phase::Run(Work::Eval(*rc)) }, Action::Continue),
    }
}

/// Run the next background-chain item: a `&`-marked item is launched
/// without waiting, a foreground item is evaluated under a frame holding
/// the rest; an exhausted chain yields status 0.
pub open spec fn spec_bg(dirs: List<String>, frames: List<Frame>, items: List<BgItem>) -> (
    Shell,
    Action,
) {
    match items {
        List::Nil => spec_run(dirs, frames, Work::Ret(0)),
        List::Cons(item, rest) => {
            if item.bg {
                (
                    Shell { dirs, frames, phase: Phase::AwaitBgAck(*rest) },
                    Action::RunBackground(item.cmd),
                )
            } else {
                spec_run(
                    dirs,
                    List::Cons(Frame::BgRest(*rest), Box::new(frames)),
                    Work::Eval(item.cmd),
                )
            }
        },
    }
}

/// Runs the next background-chain item, as [`spec_bg`] describes.
pub fn run_bg(dirs: List<String>, frames: List<Frame>, items: List<BgItem>) -> (r: (Shell, Action))
    ensures
        r == spec_bg(dirs, frames, items),
{
    match items {
        List::Nil => (Shell { dirs, frames, phase: Phase::Run(Work::Ret(0)) }, Action::Continue),
        List::Cons(item, rest) => {
            if item.bg {
                (
                    Shell { dirs, frames, phase: Phase::AwaitBgAck(*rest) },
                    Action::RunBackground(item.cmd),
                )
            } else {
                (
                    Shell {
                        dirs,
                        frames: List::Cons(Frame::BgRest(*rest), Box::new(frames)),
                        phase: Phase::Run(Work::Eval(item.cmd)),
                    },
                    Action::Continue,
                )
            }
        },
    }
}

/// Keep waiting while any pipeline stage is unreaped; once the table is
/// full, the pipeline's status is the rightmost failure.
pub open spec fn spec_reap_check(dirs: List<String>, frames: List<Frame>, table: List<Slot>) -> (
    Shell,
    Action,
) {
    if spec_has_unfilled(table) {
        (Shell { dirs, frames, phase: Phase::Reaping(table) }, Action::WaitAny)
    } else {
        spec_run(dirs, frames, Work::Ret(spec_pipe_status(table)))
    }
}

/// Continues or finishes the pipeline reap loop, as [`spec_reap_check`]
/// describes.
pub fn reap_check(dirs: List<String>, frames: List<Frame>, table: List<Slot>) -> (r: (
    Shell,
    Action,
))
    ensures
        r == spec_reap_check(dirs, frames, table),
{
    if has_unfilled(&table) {
        (Shell { dirs, frames, phase: Phase::Reaping(table) }, Action::WaitAny)
    } else {
        let s = pipe_status(&table);
        (Shell { dirs, frames, phase: Phase::Run(Work::Ret(s)) }, Action::Continue)
    }
}

/// Finish a pending chdir: for `cd` and `popd` the result is the status;
/// for `pushd` success prints the previous directory and then the stack,
/// bottom first.
pub open spec fn spec_chdir_done(
    dirs: List<String>,
    frames: List<Frame>,
    goal: ChdirGoal,
    res: Result<(), u32>,
) -> (Shell, Action) {
    match res {
        Err(e) => spec_run(dirs, frames, Work::Ret(e)),
        Ok(_) => match goal {
            ChdirGoal::Cd => spec_run(dirs, frames, Work::Ret(0)),
            ChdirGoal::Popd => spec_run(dirs, frames, Work::Ret(0)),
            ChdirGoal::Pushd { previous } => (
                Shell { dirs, frames, phase: Phase::AwaitPrint },
                Action::PrintDirs {
                    previous,
                    entries: rev_append(dirs, List::<String>::Nil),
                },
            ),
        },
    }
}

/// Finishes a pending chdir, as [`spec_chdir_done`] describes.
pub fn chdir_done(
    dirs: List<String>,
    frames: List<Frame>,
    goal: ChdirGoal,
    res: Result<(), u32>,
) -> (r: (Shell, Action))
    ensures
        r == spec_chdir_done(dirs, frames, goal, res),
{
    match res {
        Err(e) => (Shell { dirs, frames, phase: Phase::Run(Work::Ret(e)) }, Action::Continue),
        Ok(_) => match goal {
            ChdirGoal::Cd => (
                Shell { dirs, frames, phase: Phase::Run(Work::Ret(0)) },
                Action::Continue,
            ),
            ChdirGoal::Popd => (
                Shell { dirs, frames, phase: Phase::Run(Work::Ret(0)) },
                Action::Continue,
            ),
            ChdirGoal::Pushd { previous } => {
                let entries = rev_copy(&dirs);
                (
                    Shell { dirs, frames, phase: Phase::AwaitPrint },
                    Action::PrintDirs { previous, entries },
                )
            },
        },
    }
}

/// One transition of the machine: the whole next state and the action the
/// caller must perform, as a function of the previous state and the event.
/// An event that does not answer the outstanding phase resets the machine.
pub open spec fn spec_step(pre: Shell, ev: Event) -> (Shell, Action) {
    match (pre.phase, ev) {
        (Phase::Run(w), Event::Ack) => match w {
            Work::Eval(c) => spec_eval(pre.dirs, pre.frames, c),
            Work::Ret(s) => spec_ret(pre.dirs, pre.frames, s),
            Work::Bg(items) => spec_bg(pre.dirs, pre.frames, items),
        },
        (Phase::AwaitChild, Event::Child(e)) => spec_run(
            pre.dirs,
            pre.frames,
            Work::Ret(decoded_status(e)),
        ),
        (Phase::AwaitPids, Event::PipeStarted(Ok(pids))) => spec_reap_check(
            pre.dirs,
            pre.frames,
            table_of(pids),
        ),
        (Phase::AwaitPids, Event::PipeStarted(Err(e))) => spec_run(
            pre.dirs,
            pre.frames,
            Work::Ret(e),
        ),
        (Phase::Reaping(table), Event::Reaped(pid, ce)) => match ce {
            ChildExit::Other => (
                Shell { dirs: pre.dirs, frames: pre.frames, phase: Phase::Reaping(table) },
                Action::WaitAny,
            ),
            _ => spec_reap_check(
                pre.dirs,
                pre.frames,
                mark_reaped(table, pid, decoded_status(ce)),
            ),
        },
        (Phase::Reaping(table), Event::ReapFailed) => (
            Shell { dirs: pre.dirs, frames: pre.frames, phase: Phase::Reaping(table) },
            Action::WaitAny,
        ),
        (Phase::AwaitBgAck(items), Event::Ack) => spec_run(pre.dirs, pre.frames, Work::Bg(items)),
        (Phase::AwaitLocals(k, argv), Event::Ack) => spec_builtin_step(
            pre.dirs,
            pre.frames,
            k,
            argv,
        ),
        (Phase::AwaitHome, Event::Home(None)) => (
            Shell { dirs: pre.dirs, frames: pre.frames, phase: Phase::AwaitReport(1) },
            Action::Report(Diag::HomeUnset),
        ),
        (Phase::AwaitHome, Event::Home(Some(h))) => (
            Shell { dirs: pre.dirs, frames: pre.frames, phase: Phase::AwaitChdir(ChdirGoal::Cd) },
            Action::Chdir(h),
        ),
        (Phase::AwaitCwd { dir }, Event::Cwd(Ok(cwd))) => (
            Shell {
                dirs: List::Cons(cwd, Box::new(pre.dirs)),
                frames: pre.frames,
                phase: Phase::AwaitChdir(ChdirGoal::Pushd { previous: cwd }),
            },
            Action::Chdir(dir),
        ),
        (Phase::AwaitCwd { dir }, Event::Cwd(Err(e))) => spec_run(
            pre.dirs,
            pre.frames,
            Work::Ret(e),
        ),
        (Phase::AwaitChdir(goal), Event::ChdirDone(res)) => spec_chdir_done(
            pre.dirs,
            pre.frames,
            goal,
            res,
        ),
        (Phase::AwaitPrint, Event::Ack) => spec_run(pre.dirs, pre.frames, Work::Ret(0)),
        (Phase::AwaitReport(c), Event::Ack) => spec_run(pre.dirs, pre.frames, Work::Ret(c)),
        (Phase::AwaitBind(c), Event::Ack) => (
            Shell { dirs: pre.dirs, frames: pre.frames, phase: Phase::Idle },
            Action::Done(c),
        ),
        _ => (
            Shell { dirs: pre.dirs, frames: List::Nil, phase: Phase::Idle },
            Action::Fault,
        ),
    }
}

/// Performs one transition, as [`spec_step`] describes.
pub fn transition(pre: Shell, ev: Event) -> (r: (Shell, Action))
    ensures
        r == spec_step(pre, ev),
{
    let Shell { dirs, frames, phase } = pre;
    match (phase, ev) {
        (Phase::Run(w), Event::Ack) => match w {
            Work::Eval(c) => handle_any(dirs, frames, c),
            Work::Ret(s) => ret_status(dirs, frames, s),
            Work::Bg(items) => run_bg(dirs, frames, items),
        },
        (Phase::AwaitChild, Event::Child(e)) => {
            let s = decode_status(e);
            (Shell { dirs, frames, phase: Phase::Run(Work::Ret(s)) }, Action::Continue)
        },
        (Phase::AwaitPids, Event::PipeStarted(Ok(pids))) => {
            let table = build_table(pids);
            reap_check(dirs, frames, table)
        },
        (Phase::AwaitPids, Event::PipeStarted(Err(e))) => (
            Shell { dirs, frames, phase: Phase::Run(Work::Ret(e)) },
            Action::Continue,
        ),
        (Phase::Reaping(table), Event::Reaped(pid, ce)) => match ce {
            ChildExit::Other => (
                Shell { dirs, frames, phase: Phase::Reaping(table) },
                Action::WaitAny,
            ),
            _ => {
                let code = decode_status(ce);
                let table = record_reaped(table, pid, code);
                reap_check(dirs, frames, table)
            },
        },
        (Phase::Reaping(table), Event::ReapFailed) => (
            Shell { dirs, frames, phase: Phase::Reaping(table) },
            Action::WaitAny,
        ),
        (Phase::AwaitBgAck(items), Event::Ack) => (
            Shell { dirs, frames, phase: Phase::Run(Work::Bg(items)) },
            Action::Continue,
        ),
        (Phase::AwaitLocals(k, argv), Event::Ack) => process_built_in_simple(dirs, frames, k, argv),
        (Phase::AwaitHome, Event::Home(None)) => (
            Shell { dirs, frames, phase: Phase::AwaitReport(1) },
            Action::Report(Diag::HomeUnset),
        ),
        (Phase::AwaitHome, Event::Home(Some(h))) => (
            Shell { dirs, frames, phase: Phase::AwaitChdir(ChdirGoal::Cd) },
            Action::Chdir(h),
        ),
        (Phase::AwaitCwd { dir }, Event::Cwd(Ok(cwd))) => {
            let previous = cwd.clone();
            (
                Shell {
                    dirs: List::Cons(cwd, Box::new(dirs)),
                    frames,
                    phase: Phase::AwaitChdir(ChdirGoal::Pushd { previous }),
                },
                Action::Chdir(dir),
            )
        },
        (Phase::AwaitCwd { dir: _ }, Event::Cwd(Err(e))) => (
            Shell { dirs, frames, phase: Phase::Run(Work::Ret(e)) },
            Action::Continue,
        ),
        (Phase::AwaitChdir(goal), Event::ChdirDone(res)) => chdir_done(dirs, frames, goal, res),
        (Phase::AwaitPrint, Event::Ack) => (
            Shell { dirs, frames, phase: Phase::Run(Work::Ret(0)) },
            Action::Continue,
        ),
        (Phase::AwaitReport(c), Event::Ack) => (
            Shell { dirs, frames, phase: Phase::Run(Work::Ret(c)) },
            Action::Continue,
        ),
        (Phase::AwaitBind(c), Event::Ack) => (
            Shell { dirs, frames, phase: Phase::Idle },
            Action::Done(c),
        ),
        _ => (Shell { dirs, frames: List::Nil, phase: Phase::Idle }, Action::Fault),
    }
}

impl Shell {
    /// A fresh shell: empty directory stack, no evaluation in progress.
    pub fn new() -> (s: Shell)
        ensures
            s == (Shell {
                dirs: List::<String>::Nil,
                frames: List::<Frame>::Nil,
                phase: Phase::Idle,
            }),
    {
        Shell { dirs: List::Nil, frames: List::Nil, phase: Phase::Idle }
    }

    /// Arms the machine with a tree for one top-level evaluation. The
    /// directory stack is kept; any evaluation in progress is discarded.
    /// The caller then calls [`Shell::step`] with [`Event::Ack`].
    pub fn start(&mut self, tree: Cmd)
        ensures
            final(self).dirs == old(self).dirs,
            final(self).frames == List::<Frame>::Nil,
            final(self).phase == Phase::Run(Work::Eval(tree)),
    {
        self.frames = List::Nil;
        self.phase = Phase::Run(Work::Eval(tree));
    }

    /// Performs one transition in place, as [`spec_step`] describes.
    pub fn step(&mut self, ev: Event) -> (r: Action)
        ensures
            ({
                let (s, a) = spec_step(*old(self), ev);
                *final(self) == s && r == a
            }),
    {
        let mut taken = Shell { dirs: List::Nil, frames: List::Nil, phase: Phase::Idle };
        core::mem::swap(&mut taken, self);
        let (next, action) = transition(taken, ev);
        *self = next;
        action
    }

    /// The `pushd` half of the directory-stack interface: records a
    /// directory as the most recent entry.
    pub fn push_dir(&mut self, path: String)
        ensures
            final(self).dirs == List::Cons(path, Box::new(old(self).dirs)),
            final(self).frames == old(self).frames,
            final(self).phase == old(self).phase,
    {
        let mut taken: List<String> = List::Nil;
        core::mem::swap(&mut taken, &mut self.dirs);
        self.dirs = List::Cons(path, Box::new(taken));
    }

    /// The `popd` half of the directory-stack interface: removes and
    /// returns the most recent entry, or `None` on an empty stack.
    pub fn pop_dir(&mut self) -> (r: Option<String>)
        ensures
            match old(self).dirs {
                List::Nil => r is None && final(self).dirs == List::<String>::Nil,
                List::Cons(d, rest) => r == Some(d) && final(self).dirs == *rest,
            },
            final(self).frames == old(self).frames,
            final(self).phase == old(self).phase,
    {
        let mut taken: List<String> = List::Nil;
        core::mem::swap(&mut taken, &mut self.dirs);
        match taken {
            List::Nil => None,
            List::Cons(d, rest) => {
                self.dirs = *rest;
                Some(d)
            },
        }
    }
}

} // verus!
