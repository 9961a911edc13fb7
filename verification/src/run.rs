//! The per-example test procedure, as a state machine.
//!
//! Running one example alternates decisions with outside work: deleting a
//! stale component directory, instantiating the template, rendering the
//! instruction text, and running each executable instruction line in a shell.
//! The machine decides; the surrounding binary performs each requested action
//! and reports its outcome back.  A failing phase finishes the example with a
//! descriptive error and nothing further is requested for it.

use vstd::prelude::*;

use crate::instructions::executable_line;
use crate::instructions::instruction_lines;
use crate::instructions::is_executable_line;
use crate::instructions::split_lines;
use crate::names::component_name_for;
use crate::names::default_package_name;
use crate::names::join_path;
use crate::names::lemma_default_package_name_valid;
use crate::names::package_name_valid;
use crate::names::spec_default_package_name;

verus! {

/// The character a decimal digit is written as.
pub open spec fn digit_char(d: nat) -> char {
    if d == 0 {
        '0'
    } else if d == 1 {
        '1'
    } else if d == 2 {
        '2'
    } else if d == 3 {
        '3'
    } else if d == 4 {
        '4'
    } else if d == 5 {
        '5'
    } else if d == 6 {
        '6'
    } else if d == 7 {
        '7'
    } else if d == 8 {
        '8'
    } else {
        '9'
    }
}

/// The decimal digits of a non-negative number, most significant first.
pub open spec fn dec_digits(n: nat) -> Seq<char>
    decreases n,
{
    if n < 10 {
        seq![digit_char(n)]
    } else {
        dec_digits(n / 10).push(digit_char(n % 10))
    }
}

/// The decimal rendering of a signed number.
pub open spec fn dec_int(v: int) -> Seq<char> {
    if v < 0 {
        seq!['-'] + dec_digits((-v) as nat)
    } else {
        dec_digits(v as nat)
    }
}

fn digit_str(d: u64) -> (r: &'static str)
    requires
        d < 10,
    ensures
        r@ =~= seq![digit_char(d as nat)],
{
    let r: &'static str = if d == 0 {
        "0"
    } else if d == 1 {
        "1"
    } else if d == 2 {
        "2"
    } else if d == 3 {
        "3"
    } else if d == 4 {
        "4"
    } else if d == 5 {
        "5"
    } else if d == 6 {
        "6"
    } else if d == 7 {
        "7"
    } else if d == 8 {
        "8"
    } else {
        "9"
    };
    proof {
        reveal_strlit("0");
        reveal_strlit("1");
        reveal_strlit("2");
        reveal_strlit("3");
        reveal_strlit("4");
        reveal_strlit("5");
        reveal_strlit("6");
        reveal_strlit("7");
        reveal_strlit("8");
        reveal_strlit("9");
    }
    r
}

fn format_u64(m: u64) -> (r: String)
    ensures
        r@ == dec_digits(m as nat),
    decreases m,
{
    if m < 10 {
        String::from_str(digit_str(m))
    } else {
        let mut s = format_u64(m / 10);
        s.append(digit_str(m % 10));
        proof {
            assert(s@ =~= dec_digits((m / 10) as nat).push(digit_char((m % 10) as nat)));
        }
        s
    }
}

/// Renders a signed number in decimal.
pub fn format_i32(v: i32) -> (r: String)
    ensures
        r@ == dec_int(v as int),
{
    if v < 0 {
        let m: u64 = (-(v as i64)) as u64;
        let mut s = String::from_str("-");
        let d = format_u64(m);
        s.append(d.as_str());
        proof {
            reveal_strlit("-");
            assert(s@ =~= seq!['-'] + dec_digits((-(v as int)) as nat));
        }
        s
    } else {
        format_u64(v as u64)
    }
}

/// How a requested shell command ended.
pub enum CommandStatus {
    /// The process ran to completion with this exit code.
    Exited { code: i32 },
    /// The process was ended by a signal, so it has no exit code.
    Signaled,
    /// The process could not be started; the operating system's error text.
    SpawnFailed { message: String },
}

/// A command counts as successful exactly when it exited with code zero.
pub open spec fn command_succeeded(status: CommandStatus) -> bool {
    status matches CommandStatus::Exited { code } && code == 0
}

/// The reason text recorded for a failed command.
pub open spec fn failure_reason(status: CommandStatus) -> Seq<char> {
    match status {
        CommandStatus::Exited { code } => "non-zero exit code: "@ + dec_int(code as int),
        CommandStatus::Signaled => "terminated"@,
        CommandStatus::SpawnFailed { message } => message@,
    }
}

/// The full error recorded when an instruction command fails: the command
/// as it was run, then the reason.
pub open spec fn run_failure_message(line: Seq<char>, status: CommandStatus) -> Seq<char> {
    "bash -c "@ + line + " failed: "@ + failure_reason(status)
}

/// Builds the error text for a failed instruction command.
pub fn command_failure(line: &str, status: &CommandStatus) -> (r: String)
    ensures
        r@ == run_failure_message(line@, *status),
{
    let mut s = String::from_str("bash -c ");
    s.append(line);
    s.append(" failed: ");
    match status {
        CommandStatus::Exited { code } => {
            s.append("non-zero exit code: ");
            let d = format_i32(*code);
            s.append(d.as_str());
        },
        CommandStatus::Signaled => {
            s.append("terminated");
        },
        CommandStatus::SpawnFailed { message } => {
            s.append(message.as_str());
        },
    }
    proof {
        assert(s@ =~= run_failure_message(line@, *status));
    }
    s
}

/// How a finished example ended.
pub enum RunOutcome {
    /// Every phase that was not skipped succeeded.
    Pass,
    /// A phase failed; the recorded error text.
    Fail { message: String },
}

/// Everything derived up front for one example run.
pub struct ExamplePlan {
    /// Base directory the example is instantiated under.
    pub target_path: String,
    /// The example's name with the component suffix.
    pub component_name: String,
    /// The fixed package identifier handed to instantiation.
    pub package_name: String,
    /// The directory the component is rendered into.
    pub component_path: String,
}

/// The base directory used when none is given.
pub open spec fn spec_default_target() -> Seq<char> {
    "examples-test"@
}

/// What `prepare_example` promises of a successful plan.
pub open spec fn plan_for(plan: ExamplePlan, example_name: Seq<char>, target_path: Option<
    Seq<char>,
>) -> bool {
    &&& plan.target_path@ == match target_path {
        Some(t) => t,
        None => spec_default_target(),
    }
    &&& plan.component_name@ == example_name + "-comp"@
    &&& plan.package_name@ == spec_default_package_name()
    &&& plan.component_path@ == plan.target_path@ + "/"@ + plan.component_name@
}

/// Derives the names and paths for one example run.  The fixed package
/// identifier is checked against the package-name rule; since it has exactly
/// one `':'`, preparation never fails.
pub fn prepare_example(example_name: &str, target_path: &Option<String>) -> (r: Result<
    ExamplePlan,
    String,
>)
    ensures
        r is Ok,
        plan_for(
            r->Ok_0,
            example_name@,
            match *target_path {
                Some(ref t) => Some(t@),
                None => None,
            },
        ),
{
    let resolved = match target_path {
        Some(t) => t.clone(),
        None => String::from_str("examples-test"),
    };
    let component_name = component_name_for(example_name);
    let package_name = default_package_name();
    if !package_name_valid(package_name.as_str()) {
        proof {
            lemma_default_package_name_valid();
        }
        return Err(String::from_str("failed to create package name"));
    }
    let component_path = join_path(resolved.as_str(), component_name.as_str());
    Ok(
        ExamplePlan {
            target_path: resolved,
            component_name,
            package_name,
            component_path,
        },
    )
}

/// Where the machine stands in the per-example procedure.
pub enum Stage {
    /// A stale component directory must be removed if it exists.
    Remove,
    /// The template must be instantiated into the component path.
    Instantiate,
    /// The instruction text must be rendered.
    Render,
    /// Instruction lines are being worked through.
    Lines,
    /// The example is done, with an outcome.
    Finished,
}

/// What the machine asks the surrounding binary to do next.
pub enum Action {
    /// Delete this directory if it exists, then report the outcome.
    CheckRemove { path: String },
    /// Instantiate the example into this directory, failing if it exists.
    Instantiate { path: String },
    /// Render the example's instruction text and hand it back.
    Render,
    /// Run this instruction line as a shell command in this directory.
    RunCommand { directory: String, line: String },
    /// Show this informational instruction line; nothing is run.
    PrintInfo { line: String },
    /// Nothing is left to do; report this outcome for the example.
    Done { outcome: RunOutcome },
}

/// Outcome of the directory-removal request.
pub enum RemoveOutcome {
    /// The directory does not exist any more (or never did).
    Removed,
    /// Deletion failed; the operating system's error text.
    Failed { message: String },
}

/// Outcome of the instantiation request.
pub enum InstantiateOutcome {
    /// The template was rendered into the component path.
    Instantiated,
    /// Instantiation failed; the template library's error text.
    Failed { message: String },
}

/// The per-example state machine.
pub struct ExampleRun {
    /// Names and paths this run works with.
    pub plan: ExamplePlan,
    /// Whether the instruction phase is skipped.
    pub skip_instructions: bool,
    /// Current stage.
    pub stage: Stage,
    /// Instruction lines, once rendered; empty before that.
    pub lines: Vec<String>,
    /// Index of the current instruction line while in the `Lines` stage.
    pub next: usize,
    /// The recorded outcome, once finished.
    pub outcome: Option<RunOutcome>,
}

impl ExampleRun {
    /// Internal consistency of a machine state.
    pub open spec fn wf(self) -> bool {
        &&& self.stage is Lines ==> self.next < self.lines.len()
        &&& (self.stage is Finished <==> self.outcome is Some)
    }

    /// The stage a run starts in.
    pub open spec fn initial_stage(skip_instantiate: bool, skip_instructions: bool) -> Stage {
        if !skip_instantiate {
            Stage::Remove
        } else if !skip_instructions {
            Stage::Render
        } else {
            Stage::Finished
        }
    }

    /// What `new` promises: both skip flags honoured, nothing run yet, and an
    /// immediate successful outcome when every phase is skipped.
    pub open spec fn is_initial(self, plan: ExamplePlan, skip_instantiate: bool,
        skip_instructions: bool) -> bool {
        &&& self.plan == plan
        &&& self.skip_instructions == skip_instructions
        &&& self.stage == Self::initial_stage(skip_instantiate, skip_instructions)
        &&& self.lines@.len() == 0
        &&& self.outcome == if self.stage is Finished {
            Some(RunOutcome::Pass)
        } else {
            Option::<RunOutcome>::None
        }
    }

    /// Starts the procedure for one prepared example.
    pub fn new(plan: ExamplePlan, skip_instantiate: bool, skip_instructions: bool) -> (r: Self)
        ensures
            r.wf(),
            r.is_initial(plan, skip_instantiate, skip_instructions),
    {
        let stage = if !skip_instantiate {
            Stage::Remove
        } else if !skip_instructions {
            Stage::Render
        } else {
            Stage::Finished
        };
        let outcome = if skip_instantiate && skip_instructions {
            Some(RunOutcome::Pass)
        } else {
            None
        };
        ExampleRun { plan, skip_instructions, stage, lines: Vec::new(), next: 0, outcome }
    }

    /// The action a state asks for.
    pub open spec fn spec_next_action(self) -> Action {
        match self.stage {
            Stage::Remove => Action::CheckRemove { path: self.plan.component_path },
            Stage::Instantiate => Action::Instantiate { path: self.plan.component_path },
            Stage::Render => Action::Render,
            Stage::Lines => {
                if executable_line(self.lines@[self.next as int]@) {
                    Action::RunCommand {
                        directory: self.plan.component_path,
                        line: self.lines@[self.next as int],
                    }
                } else {
                    Action::PrintInfo { line: self.lines@[self.next as int] }
                }
            },
            Stage::Finished => Action::Done { outcome: self.outcome->0 },
        }
    }

    /// Asks the machine what to do next.
    pub fn next_action(&self) -> (a: Action)
        requires
            self.wf(),
        ensures
            a == self.spec_next_action(),
    {
        match &self.stage {
            Stage::Remove => Action::CheckRemove { path: self.plan.component_path.clone() },
            Stage::Instantiate => Action::Instantiate { path: self.plan.component_path.clone() },
            Stage::Render => Action::Render,
            Stage::Lines => {
                let line = self.lines[self.next].clone();
                if is_executable_line(line.as_str()) {
                    Action::RunCommand { directory: self.plan.component_path.clone(), line }
                } else {
                    Action::PrintInfo { line }
                }
            },
            Stage::Finished => {
                let outcome = match &self.outcome {
                    Some(RunOutcome::Pass) => RunOutcome::Pass,
                    Some(RunOutcome::Fail { message }) => RunOutcome::Fail {
                        message: message.clone(),
                    },
                    None => {
                        proof {
                            assert(false);
                        }
                        RunOutcome::Pass
                    },
                };
                Action::Done { outcome }
            },
        }
    }

    /// The frame every step preserves.
    pub open spec fn same_run(self, other: Self) -> bool {
        &&& self.plan == other.plan
        &&& self.skip_instructions == other.skip_instructions
    }

    /// Records the outcome of the removal request.  Success moves on to
    /// instantiation; failure finishes the example with the deletion error.
    pub fn on_remove(&mut self, outcome: RemoveOutcome)
        requires
            old(self).wf(),
            old(self).stage is Remove,
        ensures
            final(self).wf(),
            old(self).same_run(*final(self)),
            match outcome {
                RemoveOutcome::Removed => final(self).stage is Instantiate && final(self).outcome
                    is None,
                RemoveOutcome::Failed { message } => final(self).stage is Finished && (final(self).outcome matches Some(RunOutcome::Fail { message: e }) && e@ == "remove dir all failed: "@ + message@),
            },
    {
        match outcome {
            RemoveOutcome::Removed => {
                self.stage = Stage::Instantiate;
            },
            RemoveOutcome::Failed { message } => {
                let mut e = String::from_str("remove dir all failed: ");
                e.append(message.as_str());
                self.stage = Stage::Finished;
                self.outcome = Some(RunOutcome::Fail { message: e });
            },
        }
    }

    /// Records the outcome of the instantiation request.  Success moves on to
    /// the instruction phase unless that is skipped; failure finishes the
    /// example with the instantiation error.
    pub fn on_instantiate(&mut self, outcome: InstantiateOutcome)
        requires
            old(self).wf(),
            old(self).stage is Instantiate,
        ensures
            final(self).wf(),
            old(self).same_run(*final(self)),
            match outcome {
                InstantiateOutcome::Instantiated => {
                    if old(self).skip_instructions {
                        final(self).stage is Finished && final(self).outcome == Some(
                            RunOutcome::Pass,
                        )
                    } else {
                        final(self).stage is Render && final(self).outcome is None
                    }
                },
                InstantiateOutcome::Failed { message } => final(self).stage is Finished && (final(self).outcome matches Some(RunOutcome::Fail { message: e }) && e@ == "instantiate failed: "@ + message@),
            },
    {
        match outcome {
            InstantiateOutcome::Instantiated => {
                if self.skip_instructions {
                    self.stage = Stage::Finished;
                    self.outcome = Some(RunOutcome::Pass);
                } else {
                    self.stage = Stage::Render;
                }
            },
            InstantiateOutcome::Failed { message } => {
                let mut e = String::from_str("instantiate failed: ");
                e.append(message.as_str());
                self.stage = Stage::Finished;
                self.outcome = Some(RunOutcome::Fail { message: e });
            },
        }
    }

    /// Takes the rendered instruction text in.  A text without lines finishes
    /// the example successfully; otherwise the lines are worked through from
    /// the first.
    pub fn on_rendered(&mut self, text: &str)
        requires
            old(self).wf(),
            old(self).stage is Render,
        ensures
            final(self).wf(),
            old(self).same_run(*final(self)),
            final(self).lines.deep_view() == instruction_lines(text@),
            if instruction_lines(text@).len() == 0 {
                final(self).stage is Finished && final(self).outcome == Some(RunOutcome::Pass)
            } else {
                final(self).stage is Lines && final(self).next == 0 && final(self).outcome is None
            },
    {
        self.lines = split_lines(text);
        self.next = 0;
        if self.lines.len() == 0 {
            self.stage = Stage::Finished;
            self.outcome = Some(RunOutcome::Pass);
        } else {
            self.stage = Stage::Lines;
        }
    }

    /// The stage and index after stepping past the current line.
    pub open spec fn advanced(self) -> (Stage, usize, Option<RunOutcome>) {
        if self.next + 1 < self.lines.len() {
            (Stage::Lines, (self.next + 1) as usize, None)
        } else {
            (Stage::Finished, self.next, Some(RunOutcome::Pass))
        }
    }

    /// What holds of the machine after it stepped past the current line.
    pub open spec fn stepped(self, post: Self) -> bool {
        &&& post.stage == self.advanced().0
        &&& post.next == self.advanced().1
        &&& post.outcome == self.advanced().2
        &&& post.lines == self.lines
    }

    /// Steps past the current informational line; nothing was run for it.
    pub fn advance_info(&mut self)
        requires
            old(self).wf(),
            old(self).stage is Lines,
            !executable_line(old(self).lines@[old(self).next as int]@),
        ensures
            final(self).wf(),
            old(self).same_run(*final(self)),
            old(self).stepped(*final(self)),
    {
        if self.next + 1 < self.lines.len() {
            self.next = self.next + 1;
        } else {
            self.stage = Stage::Finished;
            self.outcome = Some(RunOutcome::Pass);
        }
    }

    /// Records how the current executable line's command ended.  Success steps
    /// to the next line; any failure finishes the example at once with the
    /// command and the reason, and no later line is ever run.
    pub fn on_command(&mut self, status: CommandStatus)
        requires
            old(self).wf(),
            old(self).stage is Lines,
            executable_line(old(self).lines@[old(self).next as int]@),
        ensures
            final(self).wf(),
            old(self).same_run(*final(self)),
            command_succeeded(status) ==> old(self).stepped(*final(self)),
            !command_succeeded(status) ==> final(self).stage is Finished && (final(self).outcome matches Some(RunOutcome::Fail { message: e }) && e@ == run_failure_message(
                old(self).lines@[old(self).next as int]@,
                status,
            )),
    {
        let failed: Option<String> = match &status {
            CommandStatus::Exited { code } => {
                if *code == 0 {
                    None
                } else {
                    Some(command_failure(self.lines[self.next].as_str(), &status))
                }
            },
            _ => Some(command_failure(self.lines[self.next].as_str(), &status)),
        };
        match failed {
            None => {
                if self.next + 1 < self.lines.len() {
                    self.next = self.next + 1;
                } else {
                    self.stage = Stage::Finished;
                    self.outcome = Some(RunOutcome::Pass);
                }
            },
            Some(e) => {
                self.stage = Stage::Finished;
                self.outcome = Some(RunOutcome::Fail { message: e });
            },
        }
    }
}

/// Once an example is finished, the machine only ever reports its outcome:
/// a failure halts all later instruction lines of that example.
pub proof fn law_finished_halts(r: ExampleRun)
    requires
        r.stage is Finished,
    ensures
        r.spec_next_action() matches Action::Done { outcome } && outcome == r.outcome->0,
{
}

/// While lines are being worked through, a command is requested exactly for
/// a line with exactly two leading spaces; every other line is only
/// shown.
pub proof fn law_line_partition(r: ExampleRun)
    requires
        r.wf(),
        r.stage is Lines,
    ensures
        executable_line(r.lines@[r.next as int]@) <==> (r.spec_next_action()
            matches Action::RunCommand { directory, line } && directory == r.plan.component_path
            && line == r.lines@[r.next as int]),
        !executable_line(r.lines@[r.next as int]@) <==> (r.spec_next_action()
            matches Action::PrintInfo { line } && line == r.lines@[r.next as int]),
{
}

/// A run that skips both instantiation and instructions is finished at once,
/// successfully: no action beyond reporting `Ok` is ever requested.
pub proof fn law_skip_all_immediate_ok(r: ExampleRun, plan: ExamplePlan)
    requires
        r.is_initial(plan, true, true),
    ensures
        r.stage is Finished,
        r.outcome == Some(RunOutcome::Pass),
        r.spec_next_action() matches Action::Done { outcome } && outcome == RunOutcome::Pass,
{
}

/// A run that does not skip instantiation asks for the stale directory to be
/// removed before it ever asks to instantiate.
pub proof fn law_remove_precedes_instantiate(r: ExampleRun, plan: ExamplePlan,
    skip_instructions: bool)
    requires
        r.is_initial(plan, false, skip_instructions),
    ensures
        r.spec_next_action() matches Action::CheckRemove { path } && path
            == plan.component_path,
{
}

} // verus!
