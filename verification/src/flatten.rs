//! Flattening of pipeline and background chains into ordered command lists.

use vstd::prelude::*;
use vstd::pervasive::VecAdditionalExecFns;
use crate::cmd::{Cmd, CmdKind};

verus! {

/// The `Simple` descendants of `c`, in left-to-right source order. Interior
/// nodes are traversed but contribute nothing themselves.
pub open spec fn pipe_leaves(c: Cmd) -> Seq<Cmd>
    decreases c,
{
    match c.kind {
        CmdKind::Simple => seq![c],
        _ => {
            let l = match c.left {
                Some(b) => pipe_leaves(*b),
                None => Seq::empty(),
            };
            let r = match c.right {
                Some(b) => pipe_leaves(*b),
                None => Seq::empty(),
            };
            l + r
        },
    }
}

/// Collects every `Simple` descendant of `cmd` onto `out`, preserving
/// left-to-right source order; a pipeline `s1 | ... | sn` flattens to its
/// stages in stage order.
pub fn create_pipe_cmd_array(cmd: Cmd, out: &mut Vec<Cmd>)
    ensures
        final(out)@ == old(out)@ + pipe_leaves(cmd),
    decreases cmd,
{
    match cmd.kind {
        CmdKind::Simple => {
            out.push(cmd);
        },
        _ => {
            let ghost pre = out@;
            let Cmd { left, right, .. } = cmd;
            if let Some(l) = left {
                create_pipe_cmd_array(*l, out);
            }
            if let Some(r) = right {
                create_pipe_cmd_array(*r, out);
            }
            proof {
                assert(final(out)@ =~= pre + pipe_leaves(cmd));
            }
        },
    }
}

/// Whether background flattening walks through this node kind rather than
/// collecting the node whole: `&` and `;` separators form one chain.
pub open spec fn is_bg_chain(k: CmdKind) -> bool {
    k is SepBg || k is SepEnd
}

/// Background flattening of `c` appended to the accumulated pair of command
/// and flag sequences. Walking a chain of `&`/`;` separators in source order:
/// a node that is not a separator is collected with flag `false`, and each
/// `&` marks the command collected immediately before it — the one the `&`
/// followed in source text — as a background command.
pub open spec fn bg_flatten(c: Cmd, acc: (Seq<Cmd>, Seq<bool>)) -> (Seq<Cmd>, Seq<bool>)
    decreases c,
{
    if !is_bg_chain(c.kind) {
        (acc.0.push(c), acc.1.push(false))
    } else {
        let a1 = match c.left {
            Some(b) => bg_flatten(*b, acc),
            None => acc,
        };
        let a2 = if c.kind is SepBg && a1.1.len() > 0 {
            (a1.0, a1.1.update(a1.1.len() - 1, true))
        } else {
            a1
        };
        match c.right {
            Some(b) => bg_flatten(*b, a2),
            None => a2,
        }
    }
}

/// Flattens the `&`/`;` chain rooted at `cmd` into parallel vectors of
/// commands and background flags, as [`bg_flatten`] describes.
pub fn create_bg_cmd_arrays(cmd: Cmd, bg_vec: &mut Vec<bool>, cmd_vec: &mut Vec<Cmd>)
    ensures
        (final(cmd_vec)@, final(bg_vec)@) == bg_flatten(cmd, (old(cmd_vec)@, old(bg_vec)@)),
    decreases cmd,
{
    let chain = match cmd.kind {
        CmdKind::SepBg => true,
        CmdKind::SepEnd => true,
        _ => false,
    };
    if !chain {
        cmd_vec.push(cmd);
        bg_vec.push(false);
    } else {
        let is_bg = match cmd.kind {
            CmdKind::SepBg => true,
            _ => false,
        };
        let Cmd { left, right, .. } = cmd;
        if let Some(l) = left {
            create_bg_cmd_arrays(*l, bg_vec, cmd_vec);
        }
        if is_bg && bg_vec.len() > 0 {
            let last = bg_vec.len() - 1;
            bg_vec.set(last, true);
        }
        if let Some(r) = right {
            create_bg_cmd_arrays(*r, bg_vec, cmd_vec);
        }
    }
}

/// Both sides of a background flattening grow in step.
pub proof fn lemma_bg_flatten_lens(c: Cmd, acc: (Seq<Cmd>, Seq<bool>))
    requires
        acc.0.len() == acc.1.len(),
    ensures
        bg_flatten(c, acc).0.len() == bg_flatten(c, acc).1.len(),
    decreases c,
{
    if !is_bg_chain(c.kind) {
    } else {
        let a1 = match c.left {
            Some(b) => bg_flatten(*b, acc),
            None => acc,
        };
        if let Some(b) = c.left {
            lemma_bg_flatten_lens(*b, acc);
        }
        let a2 = if c.kind is SepBg && a1.1.len() > 0 {
            (a1.0, a1.1.update(a1.1.len() - 1, true))
        } else {
            a1
        };
        if let Some(b) = c.right {
            lemma_bg_flatten_lens(*b, a2);
        }
    }
}

} // verus!
