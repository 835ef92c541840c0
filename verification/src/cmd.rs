//! The command tree handed to the evaluator by a parser.

use vstd::prelude::*;

verus! {

/// The seven node kinds a command tree is built from.
#[derive(Clone, Copy, Debug)]
pub enum CmdKind {
    /// One program invocation: `argv` names the program and its arguments.
    Simple,
    /// `left | right` — a pipeline.
    Pipe,
    /// `left && right`.
    SepAnd,
    /// `left || right`.
    SepOr,
    /// `left ; right`.
    SepEnd,
    /// `left & right` (the node whose left side ends in `&`).
    SepBg,
    /// `( left )` — a subshell around `left`.
    Subcmd,
}

/// Where a command's standard input comes from.
#[derive(Debug)]
pub enum InputRedir {
    /// No redirection: inherit the caller's descriptor 0.
    Inherit,
    /// `< file`: read the named file.
    File(String),
    /// `<< word`: a here-document; the payload is the full body text.
    Heredoc(String),
}

/// Where a command's standard output goes.
#[derive(Debug)]
pub enum OutputRedir {
    /// No redirection: inherit the caller's descriptor 1.
    Inherit,
    /// `> file`: truncate or create the named file.
    File(String),
    /// `>> file`: append to the named file.
    Append(String),
}

/// One node of a parsed command tree.
///
/// `argv` is meaningful only on `Simple` nodes; `locals` on `Simple` and
/// `Subcmd` nodes. `Pipe`, `SepAnd`, `SepOr`, `SepEnd` and `SepBg` nodes carry
/// both children, `Subcmd` only `left`, `Simple` neither. The evaluator does
/// not require these shape invariants: a malformed node evaluates to status 1.
#[derive(Debug)]
pub struct Cmd {
    pub kind: CmdKind,
    /// Program name and arguments, fully expanded by the parser.
    pub argv: Vec<String>,
    /// `name=value` environment assignments attached to this command.
    pub locals: Vec<(String, String)>,
    pub input: InputRedir,
    pub output: OutputRedir,
    pub left: Option<Box<Cmd>>,
    pub right: Option<Box<Cmd>>,
}

impl Cmd {
    /// A `Simple` node with the given argv and no locals or redirections.
    pub fn simple(argv: Vec<String>) -> (c: Cmd)
        ensures
            c.kind is Simple,
            c.argv == argv,
            c.locals@ == Seq::<(String, String)>::empty(),
            c.input is Inherit,
            c.output is Inherit,
            c.left is None,
            c.right is None,
    {
        Cmd {
            kind: CmdKind::Simple,
            argv,
            locals: Vec::new(),
            input: InputRedir::Inherit,
            output: OutputRedir::Inherit,
            left: None,
            right: None,
        }
    }

    /// An interior node joining two subtrees with the given kind.
    pub fn join(kind: CmdKind, left: Cmd, right: Cmd) -> (c: Cmd)
        ensures
            c.kind == kind,
            c.argv@ == Seq::<String>::empty(),
            c.locals@ == Seq::<(String, String)>::empty(),
            c.input is Inherit,
            c.output is Inherit,
            c.left matches Some(l) && l == left,
            c.right matches Some(r) && r == right,
    {
        Cmd {
            kind,
            argv: Vec::new(),
            locals: Vec::new(),
            input: InputRedir::Inherit,
            output: OutputRedir::Inherit,
            left: Some(Box::new(left)),
            right: Some(Box::new(right)),
        }
    }

    /// A `Subcmd` node around one subtree.
    pub fn subshell(body: Cmd) -> (c: Cmd)
        ensures
            c.kind is Subcmd,
            c.argv@ == Seq::<String>::empty(),
            c.locals@ == Seq::<(String, String)>::empty(),
            c.input is Inherit,
            c.output is Inherit,
            c.left matches Some(l) && l == body,
            c.right is None,
    {
        Cmd {
            kind: CmdKind::Subcmd,
            argv: Vec::new(),
            locals: Vec::new(),
            input: InputRedir::Inherit,
            output: OutputRedir::Inherit,
            left: Some(Box::new(body)),
            right: None,
        }
    }
}

} // verus!
