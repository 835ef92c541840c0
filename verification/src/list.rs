//! A singly linked list.
//!
//! The evaluator keeps its frame stack, the directory stack and action
//! payloads in this type rather than in `Vec`: a list is a plain datatype, so
//! a contract can pin a whole successor value by equality, where a `Vec`
//! built at run time is only known through its view.

use vstd::prelude::*;

verus! {

#[derive(Debug)]
pub enum List<T> {
    Nil,
    Cons(T, Box<List<T>>),
}

impl<T> List<T> {
    pub open spec fn len(self) -> nat
        decreases self,
    {
        match self {
            List::Nil => 0,
            List::Cons(_, t) => 1 + t.len(),
        }
    }

    /// The elements as a sequence, head first.
    pub open spec fn to_seq(self) -> Seq<T>
        decreases self,
    {
        match self {
            List::Nil => Seq::empty(),
            List::Cons(h, t) => seq![h] + t.to_seq(),
        }
    }
}

/// `l` reversed onto the front of `acc`.
pub open spec fn rev_append<T>(l: List<T>, acc: List<T>) -> List<T>
    decreases l,
{
    match l {
        List::Nil => acc,
        List::Cons(h, t) => rev_append(*t, List::Cons(h, Box::new(acc))),
    }
}

/// The directory listing order for `pushd`: bottom of the stack first.
pub fn rev_copy(l: &List<String>) -> (r: List<String>)
    ensures
        r == rev_append(*l, List::<String>::Nil),
{
    let mut acc: List<String> = List::Nil;
    let mut cur: &List<String> = l;
    loop
        invariant
            rev_append(*cur, acc) == rev_append(*l, List::<String>::Nil),
        decreases cur.len(),
    {
        match cur {
            List::Nil => {
                return acc;
            },
            List::Cons(h, t) => {
                acc = List::Cons(h.clone(), Box::new(acc));
                cur = t;
            },
        }
    }
}

} // verus!
