//! Exit-status decoding and the pipeline process table.

use vstd::prelude::*;
use crate::list::List;

verus! {

/// What the caller observed when it reaped a child process.
#[derive(Clone, Copy, Debug)]
pub enum ChildExit {
    /// The child called `exit(code)`.
    Exited(u32),
    /// The child was killed by the given signal number.
    Signaled(u8),
    /// Anything else (stopped, continued): the child was not reaped.
    Other,
}

/// The shell-visible exit code of a reaped child: `exit(n)` gives `n`, death
/// by signal `s` gives `128 + s`, anything else gives `0`.
pub open spec fn decoded_status(e: ChildExit) -> u32 {
    match e {
        ChildExit::Exited(c) => c,
        ChildExit::Signaled(s) => (128 + s as int) as u32,
        ChildExit::Other => 0,
    }
}

/// Decodes a wait observation into the shell-visible exit code.
pub fn decode_status(e: ChildExit) -> (r: u32)
    ensures
        r == decoded_status(e),
{
    match e {
        ChildExit::Exited(c) => c,
        ChildExit::Signaled(s) => 128 + s as u32,
        ChildExit::Other => 0,
    }
}

/// One pipeline stage's entry in the process table: the child's pid and,
/// once the child has been reaped, its decoded exit code.
#[derive(Debug)]
pub struct Slot {
    pub pid: i32,
    pub code: Option<u32>,
}

/// A fresh process table: one unfilled slot per forked pid, in stage order.
pub open spec fn table_of(pids: List<i32>) -> List<Slot>
    decreases pids,
{
    match pids {
        List::Nil => List::Nil,
        List::Cons(p, t) => List::Cons(Slot { pid: p, code: None }, Box::new(table_of(*t))),
    }
}

/// Builds the process table for the given pids.
pub fn build_table(pids: List<i32>) -> (r: List<Slot>)
    ensures
        r == table_of(pids),
    decreases pids,
{
    match pids {
        List::Nil => List::Nil,
        List::Cons(p, t) => List::Cons(Slot { pid: p, code: None }, Box::new(build_table(*t))),
    }
}

/// The table after one reap of `pid` with decoded code `code`: the first
/// slot for that pid is filled; a pid no slot holds changes nothing.
pub open spec fn mark_reaped(table: List<Slot>, pid: i32, code: u32) -> List<Slot>
    decreases table,
{
    match table {
        List::Nil => List::Nil,
        List::Cons(s, t) => {
            if s.pid == pid {
                List::Cons(Slot { pid: s.pid, code: Some(code) }, t)
            } else {
                List::Cons(s, Box::new(mark_reaped(*t, pid, code)))
            }
        },
    }
}

/// Records one reaped child in the table, matching by pid.
pub fn record_reaped(table: List<Slot>, pid: i32, code: u32) -> (r: List<Slot>)
    ensures
        r == mark_reaped(table, pid, code),
    decreases table,
{
    match table {
        List::Nil => List::Nil,
        List::Cons(s, t) => {
            if s.pid == pid {
                List::Cons(Slot { pid: s.pid, code: Some(code) }, t)
            } else {
                List::Cons(s, Box::new(record_reaped(*t, pid, code)))
            }
        },
    }
}

/// Whether some stage has not been reaped yet.
pub open spec fn spec_has_unfilled(table: List<Slot>) -> bool
    decreases table,
{
    match table {
        List::Nil => false,
        List::Cons(s, t) => s.code is None || spec_has_unfilled(*t),
    }
}

/// Whether the reap loop must keep waiting.
pub fn has_unfilled(table: &List<Slot>) -> (r: bool)
    ensures
        r == spec_has_unfilled(*table),
{
    let mut cur: &List<Slot> = table;
    loop
        invariant
            spec_has_unfilled(*table) == spec_has_unfilled(*cur),
        decreases cur.len(),
    {
        match cur {
            List::Nil => {
                return false;
            },
            List::Cons(s, t) => {
                if s.code.is_none() {
                    return true;
                }
                cur = t;
            },
        }
    }
}

/// The code a slot contributes: its recorded exit code, or 0 while unfilled.
pub open spec fn slot_code(s: Slot) -> u32 {
    match s.code {
        Some(c) => c,
        None => 0,
    }
}

/// The pipeline's exit code under the rightmost-failure rule: the last
/// non-zero recorded code, or 0 when every stage succeeded.
pub open spec fn spec_pipe_status(table: List<Slot>) -> u32
    decreases table,
{
    match table {
        List::Nil => 0,
        List::Cons(s, t) => {
            let rest = spec_pipe_status(*t);
            if rest != 0 {
                rest
            } else {
                slot_code(s)
            }
        },
    }
}

/// Scans the table for the pipeline's exit code, rightmost failure first.
pub fn pipe_status(table: &List<Slot>) -> (r: u32)
    ensures
        r == spec_pipe_status(*table),
    decreases *table,
{
    match table {
        List::Nil => 0,
        List::Cons(s, t) => {
            let rest = pipe_status(t);
            if rest != 0 {
                rest
            } else {
                match s.code {
                    Some(c) => c,
                    None => 0,
                }
            }
        },
    }
}

/// The slot codes as a sequence in stage order.
pub open spec fn codes_of(table: List<Slot>) -> Seq<u32>
    decreases table,
{
    match table {
        List::Nil => Seq::empty(),
        List::Cons(s, t) => seq![slot_code(s)] + codes_of(*t),
    }
}

/// Pipeline rightmost-failure rule, spelled out over the stage codes: when
/// the pipeline's code is 0 every stage's code is 0, and when it is not, it
/// is the code of some stage to whose right every stage succeeded — the
/// rightmost failure.
pub proof fn lemma_pipe_status_rightmost(table: List<Slot>)
    ensures
        spec_pipe_status(table) == 0 ==> forall|i: int|
            0 <= i < codes_of(table).len() ==> codes_of(table)[i] == 0,
        spec_pipe_status(table) != 0 ==> exists|j: int|
            0 <= j < codes_of(table).len() && #[trigger] codes_of(table)[j] == spec_pipe_status(
                table,
            ) && (forall|i: int| j < i < codes_of(table).len() ==> codes_of(table)[i] == 0),
    decreases table,
{
    match table {
        List::Nil => {},
        List::Cons(s, t) => {
            lemma_pipe_status_rightmost(*t);
            let cs = codes_of(table);
            let ct = codes_of(*t);
            let status = spec_pipe_status(table);
            let rest = spec_pipe_status(*t);
            assert(cs.len() == 1 + ct.len());
            assert(forall|i: int| 0 <= i < ct.len() ==> cs[i + 1] == ct[i]);
            if rest != 0 {
                let jt = choose|j: int|
                    0 <= j < ct.len() && #[trigger] ct[j] == rest && (forall|i: int|
                        j < i < ct.len() ==> ct[i] == 0);
                assert(cs[jt + 1] == status);
                assert(forall|i: int| jt + 1 < i < cs.len() ==> cs[i] == ct[i - 1] && cs[i] == 0);
            } else {
                if slot_code(s) != 0 {
                    assert(cs[0] == status);
                    assert(forall|i: int| 0 < i < cs.len() ==> cs[i] == ct[i - 1] && cs[i] == 0);
                } else {
                    assert(forall|i: int| 0 < i < cs.len() ==> cs[i] == ct[i - 1] && cs[i] == 0);
                }
            }
        },
    }
}

} // verus!
