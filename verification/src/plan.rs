//! What the caller must launch: external commands, pipeline stages,
//! subshells and background items.

use vstd::prelude::*;
use crate::cmd::{Cmd, InputRedir, OutputRedir};
use crate::list::List;

verus! {

/// Everything needed to run one external program: fork, apply the locals,
/// apply the redirections, then exec `argv`.
#[derive(Debug)]
pub struct ExternalCmd {
    pub argv: Vec<String>,
    pub locals: Vec<(String, String)>,
    pub input: InputRedir,
    pub output: OutputRedir,
}

/// Everything needed to run a subshell: fork, apply the locals and
/// redirections in the child, evaluate `body` there, and exit with its
/// status.
#[derive(Debug)]
pub struct SubshellCmd {
    pub locals: Vec<(String, String)>,
    pub input: InputRedir,
    pub output: OutputRedir,
    pub body: Cmd,
}

/// One entry of a flattened background chain.
#[derive(Debug)]
pub struct BgItem {
    /// Whether the command was immediately followed by `&` in source order.
    pub bg: bool,
    pub cmd: Cmd,
}

/// The launch payload of one command: its argv, locals and redirections.
pub open spec fn spec_stage_plan(c: Cmd) -> ExternalCmd {
    ExternalCmd { argv: c.argv, locals: c.locals, input: c.input, output: c.output }
}

/// The launch payloads of a flattened pipeline, in stage order.
pub open spec fn stages_of(cs: Seq<Cmd>) -> List<ExternalCmd>
    decreases cs.len(),
{
    if cs.len() == 0 {
        List::Nil
    } else {
        List::Cons(spec_stage_plan(cs[0]), Box::new(stages_of(cs.drop_first())))
    }
}

/// Turns flattened pipeline stages into their launch payloads.
#[verifier::loop_isolation(false)]
pub fn plan_stages(cs: Vec<Cmd>) -> (r: List<ExternalCmd>)
    ensures
        r == stages_of(cs@),
{
    let ghost all = cs@;
    let mut csv = cs;
    let mut r: List<ExternalCmd> = List::Nil;
    loop
        invariant
            csv@.len() <= all.len(),
            csv@ == all.take(csv@.len() as int),
            r == stages_of(all.skip(csv@.len() as int)),
        decreases csv@.len(),
    {
        match csv.pop() {
            None => {
                proof {
                    assert(all.skip(0) =~= all);
                }
                return r;
            },
            Some(c) => {
                let ghost n = csv@.len() as int;
                proof {
                    assert(all.skip(n)[0] == all[n]);
                    assert(all.skip(n).drop_first() =~= all.skip(n + 1));
                    assert(c == all[n]);
                }
                r = List::Cons(
                    ExternalCmd { argv: c.argv, locals: c.locals, input: c.input, output: c.output },
                    Box::new(r),
                );
            },
        }
    }
}

/// The flattened background chain as one list: each command paired with its
/// background flag.
pub open spec fn bg_items_of(cs: Seq<Cmd>, fs: Seq<bool>) -> List<BgItem>
    decreases cs.len(),
{
    if cs.len() == 0 {
        List::Nil
    } else {
        List::Cons(
            BgItem { bg: fs[0], cmd: cs[0] },
            Box::new(bg_items_of(cs.drop_first(), fs.drop_first())),
        )
    }
}

/// Zips the two background-flattening vectors into one item list.
#[verifier::loop_isolation(false)]
pub fn zip_bg_items(cs: Vec<Cmd>, fs: Vec<bool>) -> (r: List<BgItem>)
    requires
        cs@.len() == fs@.len(),
    ensures
        r == bg_items_of(cs@, fs@),
{
    let ghost all_c = cs@;
    let ghost all_f = fs@;
    let mut csv = cs;
    let mut fsv = fs;
    let mut r: List<BgItem> = List::Nil;
    loop
        invariant
            all_c.len() == all_f.len(),
            csv@.len() <= all_c.len(),
            csv@.len() == fsv@.len(),
            csv@ == all_c.take(csv@.len() as int),
            fsv@ == all_f.take(csv@.len() as int),
            r == bg_items_of(all_c.skip(csv@.len() as int), all_f.skip(csv@.len() as int)),
        decreases csv@.len(),
    {
        match csv.pop() {
            None => {
                proof {
                    assert(all_c.skip(0) =~= all_c);
                    assert(all_f.skip(0) =~= all_f);
                }
                return r;
            },
            Some(c) => {
                let f = match fsv.pop() {
                    Some(f) => f,
                    None => false,
                };
                let ghost n = csv@.len() as int;
                proof {
                    assert(all_c.skip(n)[0] == all_c[n]);
                    assert(all_f.skip(n)[0] == all_f[n]);
                    assert(all_c.skip(n).drop_first() =~= all_c.skip(n + 1));
                    assert(all_f.skip(n).drop_first() =~= all_f.skip(n + 1));
                    assert(c == all_c[n] && f == all_f[n]);
                }
                r = List::Cons(BgItem { bg: f, cmd: c }, Box::new(r));
            },
        }
    }
}

} // verus!
