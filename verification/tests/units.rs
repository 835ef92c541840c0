//! Unit tests of the library's pieces: flattening, status decoding, the
//! pipeline table, decimal formatting, the directory stack and simple-node
//! classification.

use shell_core::cmd::{Cmd, CmdKind, InputRedir, OutputRedir};
use shell_core::eval::{Action, BuiltinKind, Event, Shell, SimpleStep};
use shell_core::flatten::{create_bg_cmd_arrays, create_pipe_cmd_array};
use shell_core::eval::handle_simple;
use shell_core::list::List;
use shell_core::numfmt::format_status;
use shell_core::status::{build_table, decode_status, has_unfilled, pipe_status, record_reaped,
    ChildExit};

fn args(xs: &[&str]) -> Vec<String> {
    xs.iter().map(|s| s.to_string()).collect()
}

fn simple(xs: &[&str]) -> Cmd {
    Cmd::simple(args(xs))
}

fn pid_list(xs: &[i32]) -> List<i32> {
    let mut l = List::Nil;
    for x in xs.iter().rev() {
        l = List::Cons(*x, Box::new(l));
    }
    l
}

fn argv0s(cs: &[Cmd]) -> Vec<String> {
    cs.iter().map(|c| c.argv[0].clone()).collect()
}

#[test]
fn decode_exit_signal_and_other() {
    assert_eq!(decode_status(ChildExit::Exited(0)), 0);
    assert_eq!(decode_status(ChildExit::Exited(7)), 7);
    assert_eq!(decode_status(ChildExit::Signaled(9)), 137);
    assert_eq!(decode_status(ChildExit::Signaled(2)), 130);
    assert_eq!(decode_status(ChildExit::Other), 0);
}

#[test]
fn format_status_renders_decimal() {
    assert_eq!(format_status(0), "0");
    assert_eq!(format_status(7), "7");
    assert_eq!(format_status(10), "10");
    assert_eq!(format_status(137), "137");
    assert_eq!(format_status(4294967295), "4294967295");
}

#[test]
fn pipe_flatten_collects_simple_leaves_in_order() {
    // (a | b) | c flattens to a, b, c.
    let tree = Cmd::join(
        CmdKind::Pipe,
        Cmd::join(CmdKind::Pipe, simple(&["a"]), simple(&["b"])),
        simple(&["c"]),
    );
    let mut out = Vec::new();
    create_pipe_cmd_array(tree, &mut out);
    assert_eq!(argv0s(&out), args(&["a", "b", "c"]));
}

#[test]
fn pipe_flatten_walks_through_other_interior_nodes() {
    // A non-pipe interior node is traversed, not collected.
    let tree = Cmd::join(
        CmdKind::Pipe,
        Cmd::join(CmdKind::SepAnd, simple(&["a"]), simple(&["b"])),
        simple(&["c"]),
    );
    let mut out = Vec::new();
    create_pipe_cmd_array(tree, &mut out);
    assert_eq!(argv0s(&out), args(&["a", "b", "c"]));
}

#[test]
fn bg_flatten_marks_command_before_ampersand() {
    // `a & b`: a is marked, b is not.
    let tree = Cmd::join(CmdKind::SepBg, simple(&["a"]), simple(&["b"]));
    let mut flags = Vec::new();
    let mut cmds = Vec::new();
    create_bg_cmd_arrays(tree, &mut flags, &mut cmds);
    assert_eq!(argv0s(&cmds), args(&["a", "b"]));
    assert_eq!(flags, vec![true, false]);
}

#[test]
fn bg_flatten_walks_semicolon_chains() {
    // `a; b & c`: the `&` marks b, the command it follows.
    let tree = Cmd::join(
        CmdKind::SepBg,
        Cmd::join(CmdKind::SepEnd, simple(&["a"]), simple(&["b"])),
        simple(&["c"]),
    );
    let mut flags = Vec::new();
    let mut cmds = Vec::new();
    create_bg_cmd_arrays(tree, &mut flags, &mut cmds);
    assert_eq!(argv0s(&cmds), args(&["a", "b", "c"]));
    assert_eq!(flags, vec![false, true, false]);
}

#[test]
fn bg_flatten_collects_other_nodes_whole() {
    // `x | y & z`: the pipeline is one chain item, marked by the `&`.
    let pipe = Cmd::join(CmdKind::Pipe, simple(&["x"]), simple(&["y"]));
    let tree = Cmd::join(CmdKind::SepBg, pipe, simple(&["z"]));
    let mut flags = Vec::new();
    let mut cmds = Vec::new();
    create_bg_cmd_arrays(tree, &mut flags, &mut cmds);
    assert_eq!(cmds.len(), 2);
    assert!(matches!(cmds[0].kind, CmdKind::Pipe));
    assert_eq!(cmds[1].argv, args(&["z"]));
    assert_eq!(flags, vec![true, false]);
}

#[test]
fn process_table_matches_pids_and_scans_rightmost() {
    let table = build_table(pid_list(&[10, 11, 12]));
    assert!(has_unfilled(&table));
    let table = record_reaped(table, 11, 5);
    let table = record_reaped(table, 99, 9); // unknown pid: ignored
    assert!(has_unfilled(&table));
    let table = record_reaped(table, 10, 1);
    let table = record_reaped(table, 12, 0);
    assert!(!has_unfilled(&table));
    // Codes are 1, 5, 0 in stage order: the rightmost non-zero is 5.
    assert_eq!(pipe_status(&table), 5);
}

#[test]
fn pipe_status_is_zero_when_all_stages_succeed() {
    let table = build_table(pid_list(&[1, 2]));
    let table = record_reaped(table, 1, 0);
    let table = record_reaped(table, 2, 0);
    assert_eq!(pipe_status(&table), 0);
}

#[test]
fn handle_simple_classifies_builtins_and_externals() {
    assert!(matches!(
        handle_simple(simple(&["cd", "x"])),
        SimpleStep::Builtin(BuiltinKind::Cd, _, _)
    ));
    assert!(matches!(
        handle_simple(simple(&["pushd", "x"])),
        SimpleStep::Builtin(BuiltinKind::Pushd, _, _)
    ));
    assert!(matches!(
        handle_simple(simple(&["popd"])),
        SimpleStep::Builtin(BuiltinKind::Popd, _, _)
    ));
    match handle_simple(simple(&["echo", "cd"])) {
        SimpleStep::External(e) => assert_eq!(e.argv, args(&["echo", "cd"])),
        _ => panic!("echo is not a builtin"),
    }
    assert!(matches!(
        handle_simple(Cmd::simple(Vec::new())),
        SimpleStep::NoCommand
    ));
}

#[test]
fn external_payload_keeps_redirections() {
    let mut c = simple(&["sort"]);
    c.input = InputRedir::File("in.txt".to_string());
    c.output = OutputRedir::Append("out.txt".to_string());
    match handle_simple(c) {
        SimpleStep::External(e) => {
            assert!(matches!(&e.input, InputRedir::File(f) if f == "in.txt"));
            assert!(matches!(&e.output, OutputRedir::Append(f) if f == "out.txt"));
        }
        _ => panic!("sort is not a builtin"),
    }
}

#[test]
fn dir_stack_push_pop_is_lifo() {
    let mut sh = Shell::new();
    sh.push_dir("a".to_string());
    sh.push_dir("b".to_string());
    assert_eq!(sh.pop_dir(), Some("b".to_string()));
    assert_eq!(sh.pop_dir(), Some("a".to_string()));
    assert_eq!(sh.pop_dir(), None);
}

#[test]
fn step_on_idle_machine_faults() {
    let mut sh = Shell::new();
    assert!(matches!(sh.step(Event::Ack), Action::Fault));
}

#[test]
fn wrong_event_faults_and_resets() {
    let mut sh = Shell::new();
    sh.start(simple(&["echo"]));
    assert!(matches!(sh.step(Event::Ack), Action::RunExternal(_)));
    // The machine awaits a Child event; an Ack does not answer it.
    assert!(matches!(sh.step(Event::Ack), Action::Fault));
    // After the fault the machine is idle again.
    assert!(matches!(sh.step(Event::Ack), Action::Fault));
}

#[test]
fn childless_pipe_reports_empty_pipeline() {
    let tree = Cmd {
        kind: CmdKind::Pipe,
        argv: Vec::new(),
        locals: Vec::new(),
        input: InputRedir::Inherit,
        output: OutputRedir::Inherit,
        left: None,
        right: None,
    };
    let mut sh = Shell::new();
    sh.start(tree);
    let mut reported = false;
    let mut result = None;
    let mut ev = Event::Ack;
    for _ in 0..100 {
        match sh.step(ev) {
            Action::Done(c) => {
                result = Some(c);
                break;
            }
            Action::Report(d) => {
                assert!(matches!(d, shell_core::eval::Diag::EmptyPipeline));
                reported = true;
                ev = Event::Ack;
            }
            Action::Continue | Action::BindStatus(_) => ev = Event::Ack,
            _ => panic!("unexpected action"),
        }
    }
    assert!(reported);
    assert_eq!(result, Some(1));
}

#[test]
fn conditional_without_left_branch_fails() {
    let tree = Cmd {
        kind: CmdKind::SepAnd,
        argv: Vec::new(),
        locals: Vec::new(),
        input: InputRedir::Inherit,
        output: OutputRedir::Inherit,
        left: None,
        right: Some(Box::new(simple(&["echo"]))),
    };
    let mut sh = Shell::new();
    sh.start(tree);
    let mut ev = Event::Ack;
    for _ in 0..100 {
        match sh.step(ev) {
            Action::Done(c) => {
                assert_eq!(c, 1);
                return;
            }
            Action::Continue | Action::BindStatus(_) => ev = Event::Ack,
            _ => panic!("a malformed conditional launches nothing"),
        }
    }
    panic!("machine did not finish");
}

#[test]
fn subshell_without_body_fails() {
    let tree = Cmd {
        kind: CmdKind::Subcmd,
        argv: Vec::new(),
        locals: Vec::new(),
        input: InputRedir::Inherit,
        output: OutputRedir::Inherit,
        left: None,
        right: None,
    };
    let mut sh = Shell::new();
    sh.start(tree);
    let mut ev = Event::Ack;
    for _ in 0..100 {
        match sh.step(ev) {
            Action::Done(c) => {
                assert_eq!(c, 1);
                return;
            }
            Action::Continue | Action::BindStatus(_) => ev = Event::Ack,
            _ => panic!("a bodyless subshell launches nothing"),
        }
    }
    panic!("machine did not finish");
}
