use slowhttptest_gui::app::App;
use slowhttptest_gui::gate::RunGate;
use slowhttptest_gui::mode::TestMode;
use slowhttptest_gui::options::{push_opt_num, push_opt_text};
use slowhttptest_gui::output::OutputLog;
use slowhttptest_gui::supervisor::{ChildEvent, Supervisor};

#[test]
fn launch_while_running_changes_nothing() {
    let app = App::default();
    let mut run = Supervisor::new();
    assert!(app.launch(&mut run).is_some());
    run.handle(&ChildEvent::Line("first line".to_string()));
    let before = run.snapshot();

    let mut other = App::default();
    other.connections = "99".to_string();
    assert!(other.launch(&mut run).is_none());
    assert!(run.is_running());
    assert_eq!(run.snapshot(), before);
    assert_eq!(before, "$ slowhttptest -H -u http://localhost/\nfirst line\n");
}

#[test]
fn spawn_failure_releases_the_run_and_names_the_binary() {
    let mut app = App::default();
    app.custom_binary_path = " /no/such/binary ".to_string();
    let mut run = Supervisor::new();
    let plan = app.launch(&mut run).expect("an idle supervisor admits the launch");
    assert!(run.is_running());
    run.handle(&ChildEvent::SpawnFailed {
        binary: plan.binary.clone(),
        error: "No such file or directory (os error 2)".to_string(),
    });
    assert!(!run.is_running());
    let text = run.snapshot();
    assert!(text.lines().any(|l| l.starts_with("[ERROR]") && l.contains("/no/such/binary")));
    assert_eq!(
        text,
        "$ /no/such/binary -H -u http://localhost/\n\
         [ERROR] Failed to start '/no/such/binary': No such file or directory (os error 2)\n  \
         Make sure slowhttptest is installed and in your PATH,\n  \
         or set a custom binary path above.\n"
    );
    assert!(app.launch(&mut run).is_some());
}

#[test]
fn admitted_launch_hands_out_binary_and_arguments() {
    let mut app = App::default();
    app.test_mode = TestMode::SlowBody;
    app.cookie = "a=b; c=d".to_string();
    let mut run = Supervisor::new();
    let plan = app.launch(&mut run).expect("an idle supervisor admits the launch");
    assert_eq!(plan.binary, "slowhttptest");
    assert_eq!(plan.args, app.build_args());
    assert_eq!(plan.binary, app.effective_binary());
    assert!(run.is_running());
    assert_eq!(run.snapshot(), "$ slowhttptest -B -u http://localhost/ -j a=b; c=d\n");
}

#[test]
fn new_supervisor_is_idle_and_empty() {
    let run = Supervisor::new();
    assert!(!run.is_running());
    assert_eq!(run.snapshot(), "");
}

#[test]
fn lines_arrive_in_order_and_do_not_end_the_run() {
    let app = App::default();
    let mut run = Supervisor::new();
    app.launch(&mut run);
    for line in ["out 1", "err 1", "", "out 2"] {
        run.handle(&ChildEvent::Line(line.to_string()));
        assert!(run.is_running());
    }
    assert_eq!(
        run.snapshot(),
        "$ slowhttptest -H -u http://localhost/\nout 1\nerr 1\n\nout 2\n"
    );
}

#[test]
fn exit_is_reported_and_ends_the_run() {
    let app = App::default();
    let mut run = Supervisor::new();
    app.launch(&mut run);
    run.handle(&ChildEvent::Line("done".to_string()));
    run.handle(&ChildEvent::Exited("exit status: 0".to_string()));
    assert!(!run.is_running());
    assert_eq!(
        run.snapshot(),
        "$ slowhttptest -H -u http://localhost/\ndone\n\n[Process exited with status: exit status: 0]\n"
    );
}

#[test]
fn wait_failure_is_reported_and_ends_the_run() {
    let app = App::default();
    let mut run = Supervisor::new();
    app.launch(&mut run);
    run.handle(&ChildEvent::WaitFailed("interrupted".to_string()));
    assert!(!run.is_running());
    assert_eq!(
        run.snapshot(),
        "$ slowhttptest -H -u http://localhost/\n\n[Wait error: interrupted]\n"
    );
}

#[test]
fn late_line_after_exit_is_kept_and_leaves_the_run_over() {
    let app = App::default();
    let mut run = Supervisor::new();
    app.launch(&mut run);
    run.handle(&ChildEvent::Exited("signal: 9 (SIGKILL)".to_string()));
    run.handle(&ChildEvent::Line("late".to_string()));
    assert!(!run.is_running());
    assert_eq!(
        run.snapshot(),
        "$ slowhttptest -H -u http://localhost/\n\n[Process exited with status: signal: 9 (SIGKILL)]\nlate\n"
    );
}

#[test]
fn next_launch_starts_the_log_anew() {
    let mut app = App::default();
    let mut run = Supervisor::new();
    app.launch(&mut run);
    run.handle(&ChildEvent::Line("old".to_string()));
    run.handle(&ChildEvent::Exited("exit status: 1".to_string()));
    app.rate = "10".to_string();
    let plan = app.launch(&mut run).expect("the run is over");
    assert_eq!(plan.args, vec!["-H", "-u", "http://localhost/", "-r", "10"]);
    assert_eq!(run.snapshot(), "$ slowhttptest -H -u http://localhost/ -r 10\n");
    assert!(run.is_running());
}

#[test]
fn run_gate_admits_one_at_a_time() {
    let mut gate = RunGate::new();
    assert!(!gate.is_running());
    assert!(gate.try_acquire());
    assert!(gate.is_running());
    assert!(!gate.try_acquire());
    assert!(gate.is_running());
    gate.release();
    assert!(!gate.is_running());
    gate.release();
    assert!(!gate.is_running());
    assert!(gate.try_acquire());
}

#[test]
fn output_log_appends_clears_and_renders() {
    let mut log = OutputLog::new();
    assert_eq!(log.snapshot(), "");
    log.append("a");
    log.append("");
    log.append("b c");
    assert_eq!(log.snapshot(), "a\n\nb c\n");
    let partial = log.snapshot();
    log.append("d");
    assert_eq!(partial, "a\n\nb c\n");
    assert_eq!(log.snapshot(), "a\n\nb c\nd\n");
    log.clear();
    assert_eq!(log.snapshot(), "");
}

#[test]
fn push_opt_num_appends_flag_and_canonical_number() {
    let mut args = vec!["x".to_string()];
    push_opt_num(&mut args, "-c", " 0060 ", 50);
    assert_eq!(args, vec!["x", "-c", "60"]);
    push_opt_num(&mut args, "-c", "50", 50);
    push_opt_num(&mut args, "-c", "", 50);
    push_opt_num(&mut args, "-c", "fifty", 50);
    assert_eq!(args, vec!["x", "-c", "60"]);
    push_opt_num(&mut args, "-q", "-3", -4);
    assert_eq!(args, vec!["x", "-c", "60", "-q", "-3"]);
}

#[test]
fn push_opt_text_appends_flag_and_trimmed_text() {
    let mut args: Vec<String> = Vec::new();
    push_opt_text(&mut args, "-t", "  GET ");
    push_opt_text(&mut args, "-f", " \t ");
    push_opt_text(&mut args, "-m", "");
    push_opt_text(&mut args, "-j", "a b");
    assert_eq!(args, vec!["-t", "GET", "-j", "a b"]);
}
