//! Properties of the evaluator, proved against [`crate::eval::spec_step`].

use vstd::prelude::*;
use crate::cmd::Cmd;
use crate::eval::{Shell, Phase, Work, Frame, Event, Action, spec_step, spec_run, spec_ret,
    spec_handle_simple, spec_builtin_of, spec_process_popd, SimpleStep};
use crate::list::List;
use crate::plan::{spec_stage_plan, stages_of};
use crate::status::{ChildExit, decoded_status};

verus! {

/// Exit-code fidelity: a top-level `Simple` node naming an external program
/// is launched with its payload unchanged, and whatever wait observation the
/// caller reports comes back decoded as the evaluation's result — `exit(c)`
/// gives `c`, death by signal `s` gives `128 + s` — bound to `?` just before
/// `Done`.
pub proof fn lemma_simple_exit_code(sh: Shell, c: Cmd, ce: ChildExit)
    requires
        sh.phase == Phase::Run(Work::Eval(c)),
        sh.frames == List::<Frame>::Nil,
        c.kind is Simple,
        c.argv.len() > 0,
        spec_builtin_of(c.argv[0]@) is None,
    ensures
        ({
            let (s1, a1) = spec_step(sh, Event::Ack);
            let (s2, a2) = spec_step(s1, Event::Child(ce));
            let (s3, a3) = spec_step(s2, Event::Ack);
            let (s4, a4) = spec_step(s3, Event::Ack);
            &&& a1 == Action::RunExternal(spec_stage_plan(c))
            &&& s1.phase is AwaitChild
            &&& a2 == Action::Continue
            &&& a3 == Action::BindStatus(decoded_status(ce))
            &&& a4 == Action::Done(decoded_status(ce))
            &&& s4.phase is Idle
        }),
{
}

/// `&&` short-circuit: when the left side of `&&` delivers a non-zero
/// status `s`, the whole conditional delivers `s` itself, the saved right
/// branch is discarded unevaluated, and no launch action is issued for it.
pub proof fn lemma_and_short_circuit(
    dirs: List<String>,
    frames: List<Frame>,
    right: Option<Box<Cmd>>,
    s: u32,
)
    requires
        s != 0,
    ensures
        spec_ret(dirs, List::Cons(Frame::AndRight(right), Box::new(frames)), s) == spec_run(
            dirs,
            frames,
            Work::Ret(s),
        ),
{
}

/// `||` short-circuit: when the left side of `||` delivers status 0, the
/// whole conditional delivers 0, the saved right branch is discarded
/// unevaluated, and no launch action is issued for it.
pub proof fn lemma_or_short_circuit(
    dirs: List<String>,
    frames: List<Frame>,
    right: Option<Box<Cmd>>,
)
    ensures
        spec_ret(dirs, List::Cons(Frame::OrRight(right), Box::new(frames)), 0) == spec_run(
            dirs,
            frames,
            Work::Ret(0),
        ),
{
}

/// Redirection and here-document truthfulness at the launch boundary: an
/// external `Simple` command's launch payload carries the node's argv,
/// locals, input redirection (a here-document's body text verbatim) and
/// output redirection unchanged.
pub proof fn lemma_launch_payload(c: Cmd)
    requires
        c.kind is Simple,
        c.argv.len() > 0,
        spec_builtin_of(c.argv[0]@) is None,
    ensures
        ({
            let st = spec_handle_simple(c);
            &&& st matches SimpleStep::External(e)
            &&& e.argv == c.argv
            &&& e.locals == c.locals
            &&& e.input == c.input
            &&& e.output == c.output
        }),
{
}

/// Pipeline launch fidelity: the payloads handed out for a flattened
/// pipeline are exactly the stages' own argv, locals and redirections, one
/// per stage, in stage order.
pub proof fn lemma_stages_payload(cs: Seq<Cmd>)
    ensures
        stages_of(cs).to_seq() =~= cs.map_values(|c: Cmd| spec_stage_plan(c)),
    decreases cs.len(),
{
    if cs.len() > 0 {
        lemma_stages_payload(cs.drop_first());
        assert(stages_of(cs).to_seq() == seq![spec_stage_plan(cs[0])] + stages_of(
            cs.drop_first(),
        ).to_seq());
    }
}

/// Directory-stack LIFO: two `pushd`s record the working directories they
/// were issued from; the next `popd` moves back to the second, the one after
/// it to the first, and the stack is exactly what it was before.
pub proof fn lemma_dir_stack_lifo(
    d0: List<String>,
    f: List<Frame>,
    a_dir: String,
    b_dir: String,
    cwd1: String,
    cwd2: String,
    popd_argv: Vec<String>,
)
    requires
        popd_argv.len() == 1,
    ensures
        ({
            // First pushd, issued while the working directory was `cwd1`.
            let p1 = spec_step(
                Shell { dirs: d0, frames: f, phase: Phase::AwaitCwd { dir: a_dir } },
                Event::Cwd(Ok(cwd1)),
            );
            // Second pushd, issued while the working directory was `cwd2`.
            let p2 = spec_step(
                Shell { dirs: p1.0.dirs, frames: f, phase: Phase::AwaitCwd { dir: b_dir } },
                Event::Cwd(Ok(cwd2)),
            );
            // The two popds.
            let q1 = spec_process_popd(p2.0.dirs, f, popd_argv);
            let q2 = spec_process_popd(q1.0.dirs, f, popd_argv);
            &&& q1.1 == Action::Chdir(cwd2)
            &&& q2.1 == Action::Chdir(cwd1)
            &&& q2.0.dirs == d0
        }),
{
}

/// `?` binding: every evaluation ends by delivering its status `s` to an
/// empty frame stack, and from there the machine binds `?` to `s` (see
/// [`crate::numfmt::format_status`] for the text) and only then reports
/// `Done(s)`.
pub proof fn lemma_status_binding(sh: Shell, s: u32)
    requires
        sh.phase == Phase::Run(Work::Ret(s)),
        sh.frames == List::<Frame>::Nil,
    ensures
        ({
            let (s1, a1) = spec_step(sh, Event::Ack);
            let (s2, a2) = spec_step(s1, Event::Ack);
            &&& a1 == Action::BindStatus(s)
            &&& a2 == Action::Done(s)
            &&& s2.phase is Idle
        }),
{
}

} // verus!
