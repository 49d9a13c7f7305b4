//! The decisions of a run: whether a launch is admitted, what the log says
//! of it, and when the next run may start. Starting the child process and
//! reading its output is the caller's part; what happened comes back as a
//! [`ChildEvent`].

use crate::app::App;
use crate::gate::RunGate;
use crate::output::{rendered, OutputLog};
use vstd::prelude::*;

verus! {

/// The tokens of a command line on one line, a space between neighbours.
pub open spec fn joined(tokens: Seq<Seq<char>>) -> Seq<char>
    decreases tokens.len(),
{
    if tokens.len() == 0 {
        Seq::empty()
    } else if tokens.len() == 1 {
        tokens[0]
    } else {
        joined(tokens.drop_last()) + " "@ + tokens.last()
    }
}

/// The first line of a run's log: the command as it is about to be started.
pub open spec fn echo_line(binary: Seq<char>, args: Seq<Seq<char>>) -> Seq<char> {
    "$ "@ + binary + " "@ + joined(args)
}

/// Whether `needle` occurs in `text` as a run of neighbouring characters.
pub open spec fn mentions(text: Seq<char>, needle: Seq<char>) -> bool {
    exists|i: int|
        0 <= i && i + needle.len() <= text.len() && #[trigger] text.subrange(
            i,
            i + needle.len(),
        ) == needle
}

/// What the caller is to start after an admitted launch.
pub struct LaunchPlan {
    pub binary: String,
    pub args: Vec<String>,
}

/// What the caller reports back of the child process.
pub enum ChildEvent {
    /// One line of the child's standard output or standard error.
    Line(String),
    /// The child could not be started.
    SpawnFailed { binary: String, error: String },
    /// The child is over, with the given status.
    Exited(String),
    /// Waiting for the child failed.
    WaitFailed(String),
}

impl ChildEvent {
    /// The lines that the event adds to the log.
    pub open spec fn log_lines(&self) -> Seq<Seq<char>> {
        match self {
            ChildEvent::Line(line) => seq![line@],
            ChildEvent::SpawnFailed { binary, error } => seq![
                "[ERROR] Failed to start '"@ + binary@ + "': "@ + error@,
                "  Make sure slowhttptest is installed and in your PATH,"@,
                "  or set a custom binary path above."@,
            ],
            ChildEvent::Exited(status) => seq![
                Seq::empty(),
                "[Process exited with status: "@ + status@ + "]"@,
            ],
            ChildEvent::WaitFailed(error) => seq![
                Seq::empty(),
                "[Wait error: "@ + error@ + "]"@,
            ],
        }
    }

    /// Whether the run is over with this event.
    pub open spec fn ends_run(&self) -> bool {
        !(self is Line)
    }
}

/// The state of the supervisor as plain values.
pub struct RunView {
    pub running: bool,
    pub lines: Seq<Seq<char>>,
}

/// Whether a run is in flight, and the log of the current run.
pub struct Supervisor {
    gate: RunGate,
    output: OutputLog,
}

impl View for Supervisor {
    type V = RunView;

    closed spec fn view(&self) -> RunView {
        RunView { running: self.gate@, lines: self.output@ }
    }
}

/// The tokens of `args` on one line, a space between neighbours.
fn join_args(args: &Vec<String>) -> (line: String)
    ensures
        line@ == joined(args.deep_view()),
{
    let mut line = String::new();
    for i in 0..args.len()
        invariant
            line@ == joined(args.deep_view().subrange(0, i as int)),
    {
        proof {
            let seen = args.deep_view().subrange(0, i + 1);
            assert(seen.drop_last() =~= args.deep_view().subrange(0, i as int));
            assert(seen.last() == args[i as int]@);
            if i == 0 {
                assert(seen[0] == args[0]@);
            }
        }
        if i > 0 {
            line.append(" ");
        }
        line.append(args[i].as_str());
        assert(line@ =~= joined(args.deep_view().subrange(0, i + 1)));
    }
    assert(args.deep_view().subrange(0, args.len() as int) =~= args.deep_view());
    line
}

impl Supervisor {
    /// An idle supervisor with an empty log.
    pub fn new() -> (run: Self)
        ensures
            run@ == (RunView { running: false, lines: Seq::empty() }),
    {
        Supervisor { gate: RunGate::new(), output: OutputLog::new() }
    }

    pub fn is_running(&self) -> (running: bool)
        ensures
            running == self@.running,
    {
        self.gate.is_running()
    }

    /// The log as text, as of this call: each line followed by a line feed.
    pub fn snapshot(&self) -> (text: String)
        ensures
            text@ == rendered(self@.lines),
    {
        self.output.snapshot()
    }

    /// Takes in what happened to the child. The event's lines go to the end
    /// of the log; any event but a line of output ends the run.
    pub fn handle(&mut self, event: &ChildEvent)
        ensures
            final(self)@.lines == old(self)@.lines + event.log_lines(),
            final(self)@.running == (old(self)@.running && !event.ends_run()),
    {
        match event {
            ChildEvent::Line(line) => {
                self.output.append(line.as_str());
            },
            ChildEvent::SpawnFailed { binary, error } => {
                let mut first = String::new();
                first.append("[ERROR] Failed to start '");
                first.append(binary.as_str());
                first.append("': ");
                first.append(error.as_str());
                assert(first@ =~= "[ERROR] Failed to start '"@ + binary@ + "': "@ + error@);
                self.output.append(first.as_str());
                self.output.append("  Make sure slowhttptest is installed and in your PATH,");
                self.output.append("  or set a custom binary path above.");
                self.gate.release();
            },
            ChildEvent::Exited(status) => {
                let mut last = String::new();
                last.append("[Process exited with status: ");
                last.append(status.as_str());
                last.append("]");
                assert(last@ =~= "[Process exited with status: "@ + status@ + "]"@);
                self.output.append("");
                self.output.append(last.as_str());
                self.gate.release();
            },
            ChildEvent::WaitFailed(error) => {
                let mut last = String::new();
                last.append("[Wait error: ");
                last.append(error.as_str());
                last.append("]");
                assert(last@ =~= "[Wait error: "@ + error@ + "]"@);
                self.output.append("");
                self.output.append(last.as_str());
                self.gate.release();
            },
        }
        proof {
            reveal_strlit("");
            assert(""@ =~= Seq::<char>::empty());
            assert(self@.lines =~= old(self)@.lines + event.log_lines());
        }
    }
}

impl App {
    /// Asks for a run with the current parameters. While a run is in flight
    /// nothing happens. Otherwise the run is in flight, the log starts anew with
    /// the command, and the caller gets what to start.
    pub fn launch(&self, run: &mut Supervisor) -> (plan: Option<LaunchPlan>)
        ensures
            old(run)@.running ==> plan is None && final(run)@ == old(run)@,
            !old(run)@.running ==> {
                &&& plan matches Some(p)
                &&& p.binary@ == self@.effective_binary()
                &&& p.args.deep_view() == self@.args()
                &&& final(run)@ == (RunView {
                    running: true,
                    lines: seq![echo_line(self@.effective_binary(), self@.args())],
                })
            },
    {
        if !run.gate.try_acquire() {
            return None;
        }
        let binary = self.effective_binary();
        let args = self.build_args();
        let mut echo = String::new();
        echo.append("$ ");
        echo.append(binary.as_str());
        echo.append(" ");
        echo.append(join_args(&args).as_str());
        assert(echo@ =~= echo_line(self@.effective_binary(), self@.args()));
        run.output.clear();
        run.output.append(echo.as_str());
        assert(run@.lines =~= seq![echo_line(self@.effective_binary(), self@.args())]);
        Some(LaunchPlan { binary, args })
    }
}

/// A failure to start the child leaves a line in the log that names the
/// binary.
pub proof fn lemma_spawn_failure_names_binary(event: ChildEvent)
    requires
        event is SpawnFailed,
    ensures
        event.ends_run(),
        mentions(event.log_lines()[0], event->binary@),
{
    let head = "[ERROR] Failed to start '"@;
    let binary = event->binary@;
    let line = event.log_lines()[0];
    let start = head.len() as int;
    assert(line.subrange(start, start + binary.len()) =~= binary);
}

} // verus!
