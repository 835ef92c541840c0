//! The builtin commands, driven through the machine with simulated
//! system responses.

use shell_core::cmd::{Cmd, CmdKind};
use shell_core::eval::{Action, Diag, Event, Shell};
use shell_core::status::ChildExit;

fn args(xs: &[&str]) -> Vec<String> {
    xs.iter().map(|s| s.to_string()).collect()
}

fn simple(xs: &[&str]) -> Cmd {
    Cmd::simple(args(xs))
}

fn drive(sh: &mut Shell, tree: Cmd, respond: &mut dyn FnMut(&Action) -> Event) -> u32 {
    sh.start(tree);
    let mut ev = Event::Ack;
    for _ in 0..100_000 {
        let act = sh.step(ev);
        match act {
            Action::Done(c) => return c,
            Action::Continue | Action::BindStatus(_) => ev = Event::Ack,
            Action::Fault => panic!("machine fault"),
            other => ev = respond(&other),
        }
    }
    panic!("machine did not finish");
}

#[test]
fn cd_with_argument_changes_directory() {
    let mut sh = Shell::new();
    let mut target = String::new();
    let status = drive(&mut sh, simple(&["cd", "/somewhere"]), &mut |act| match act {
        Action::Chdir(d) => {
            target = d.clone();
            Event::ChdirDone(Ok(()))
        }
        _ => panic!("unexpected action"),
    });
    assert_eq!(status, 0);
    assert_eq!(target, "/somewhere");
}

#[test]
fn cd_failure_surfaces_errno() {
    let mut sh = Shell::new();
    let status = drive(&mut sh, simple(&["cd", "/nope"]), &mut |act| match act {
        Action::Chdir(_) => Event::ChdirDone(Err(2)),
        _ => panic!("unexpected action"),
    });
    assert_eq!(status, 2);
}

#[test]
fn cd_without_argument_uses_home() {
    let mut sh = Shell::new();
    let mut target = String::new();
    let status = drive(&mut sh, simple(&["cd"]), &mut |act| match act {
        Action::ReadHome => Event::Home(Some("/home/me".to_string())),
        Action::Chdir(d) => {
            target = d.clone();
            Event::ChdirDone(Ok(()))
        }
        _ => panic!("unexpected action"),
    });
    assert_eq!(status, 0);
    assert_eq!(target, "/home/me");
}

#[test]
fn cd_without_home_reports_and_fails() {
    let mut sh = Shell::new();
    let mut reported = false;
    let status = drive(&mut sh, simple(&["cd"]), &mut |act| match act {
        Action::ReadHome => Event::Home(None),
        Action::Report(Diag::HomeUnset) => {
            reported = true;
            Event::Ack
        }
        _ => panic!("unexpected action"),
    });
    assert_eq!(status, 1);
    assert!(reported);
}

#[test]
fn cd_with_two_arguments_reports_usage() {
    let mut sh = Shell::new();
    let mut reported = false;
    let status = drive(&mut sh, simple(&["cd", "a", "b"]), &mut |act| match act {
        Action::Report(Diag::TooManyArgs) => {
            reported = true;
            Event::Ack
        }
        _ => panic!("cd with two arguments must not chdir"),
    });
    assert_eq!(status, 1);
    assert!(reported);
}

#[test]
fn pushd_without_argument_fails_silently() {
    let mut sh = Shell::new();
    let status = drive(&mut sh, simple(&["pushd"]), &mut |_| {
        panic!("pushd without argument performs nothing")
    });
    assert_eq!(status, 1);
}

#[test]
fn pushd_cwd_failure_surfaces_errno() {
    let mut sh = Shell::new();
    let status = drive(&mut sh, simple(&["pushd", "/x"]), &mut |act| match act {
        Action::ReadCwd => Event::Cwd(Err(13)),
        _ => panic!("unexpected action"),
    });
    assert_eq!(status, 13);
}

#[test]
fn pushd_chdir_failure_keeps_pushed_entry() {
    // The working directory is pushed before the chdir, and a failed chdir
    // leaves it on the stack: the next popd moves back to it.
    let mut sh = Shell::new();
    let status = drive(&mut sh, simple(&["pushd", "/nope"]), &mut |act| match act {
        Action::ReadCwd => Event::Cwd(Ok("/orig".to_string())),
        Action::Chdir(_) => Event::ChdirDone(Err(2)),
        _ => panic!("unexpected action"),
    });
    assert_eq!(status, 2);
    let mut target = String::new();
    let status = drive(&mut sh, simple(&["popd"]), &mut |act| match act {
        Action::Chdir(d) => {
            target = d.clone();
            Event::ChdirDone(Ok(()))
        }
        _ => panic!("unexpected action"),
    });
    assert_eq!(status, 0);
    assert_eq!(target, "/orig");
}

#[test]
fn pushd_prints_previous_directory_and_stack() {
    let mut sh = Shell::new();
    let mut listing: Option<(String, Vec<String>)> = None;
    // Two pushds: the second listing shows both entries, bottom first.
    let status = drive(&mut sh, simple(&["pushd", "/a"]), &mut |act| match act {
        Action::ReadCwd => Event::Cwd(Ok("/one".to_string())),
        Action::Chdir(_) => Event::ChdirDone(Ok(())),
        Action::PrintDirs { .. } => Event::Ack,
        _ => panic!("unexpected action"),
    });
    assert_eq!(status, 0);
    let status = drive(&mut sh, simple(&["pushd", "/b"]), &mut |act| match act {
        Action::ReadCwd => Event::Cwd(Ok("/two".to_string())),
        Action::Chdir(_) => Event::ChdirDone(Ok(())),
        Action::PrintDirs { previous, entries } => {
            let mut es = Vec::new();
            let mut cur = entries;
            while let shell_core::list::List::Cons(s, rest) = cur {
                es.push(s.clone());
                cur = rest;
            }
            listing = Some((previous.clone(), es));
            Event::Ack
        }
        _ => panic!("unexpected action"),
    });
    assert_eq!(status, 0);
    let (previous, entries) = listing.expect("pushd must print its listing");
    assert_eq!(previous, "/two");
    assert_eq!(entries, args(&["/one", "/two"]));
}

#[test]
fn popd_on_empty_stack_fails() {
    let mut sh = Shell::new();
    let status = drive(&mut sh, simple(&["popd"]), &mut |_| {
        panic!("popd on an empty stack performs nothing")
    });
    assert_eq!(status, 1);
}

#[test]
fn popd_with_argument_fails_without_popping() {
    let mut sh = Shell::new();
    sh.push_dir("/kept".to_string());
    let status = drive(&mut sh, simple(&["popd", "x"]), &mut |_| {
        panic!("popd with an argument performs nothing")
    });
    assert_eq!(status, 1);
    assert_eq!(sh.pop_dir(), Some("/kept".to_string()));
}

#[test]
fn popd_chdir_failure_surfaces_errno() {
    let mut sh = Shell::new();
    sh.push_dir("/gone".to_string());
    let status = drive(&mut sh, simple(&["popd"]), &mut |act| match act {
        Action::Chdir(_) => Event::ChdirDone(Err(2)),
        _ => panic!("unexpected action"),
    });
    assert_eq!(status, 2);
}

#[test]
fn builtin_name_inside_pipeline_runs_as_external() {
    // Pipeline stages always exec; a builtin name there is not special.
    let tree = Cmd::join(CmdKind::Pipe, simple(&["pushd", "/a"]), simple(&["cat"]));
    let mut sh = Shell::new();
    let mut reaps = vec![
        Event::Reaped(1, ChildExit::Exited(0)),
        Event::Reaped(2, ChildExit::Exited(0)),
    ];
    let status = drive(&mut sh, tree, &mut |act| match act {
        Action::RunPipeline(stages) => {
            let mut n = 0;
            let mut cur = stages;
            while let shell_core::list::List::Cons(_, rest) = cur {
                n += 1;
                cur = rest;
            }
            assert_eq!(n, 2);
            Event::PipeStarted(Ok({
                let mut l = shell_core::list::List::Nil;
                for x in [2, 1] {
                    l = shell_core::list::List::Cons(x, Box::new(l));
                }
                l
            }))
        }
        Action::WaitAny => reaps.remove(0),
        _ => panic!("unexpected action"),
    });
    assert_eq!(status, 0);
}

#[test]
fn empty_argv_reports_no_command() {
    let mut sh = Shell::new();
    let mut reported = false;
    let status = drive(&mut sh, Cmd::simple(Vec::new()), &mut |act| match act {
        Action::Report(Diag::NoCommand) => {
            reported = true;
            Event::Ack
        }
        _ => panic!("unexpected action"),
    });
    assert_eq!(status, 1);
    assert!(reported);
}
