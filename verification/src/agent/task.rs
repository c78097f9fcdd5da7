//! Diagnostic tasks: named groups of commands that run with their own output budget.

use crate::agent::output_budget::{opt_view, spec_truncated_content, truncate_tool_output, OutputBudget};
use crate::llm::summarizer::ToolOutput;
use crate::text::{decimal, extend_decimal, extend_str, from_chars, to_chars, utf8_len};
use crate::types::skill::{SkillTool, ToolKind};
use std::collections::HashMap;
use std::time::Duration;
use vstd::prelude::*;

verus! {

/// `Clone` of `std::time::Duration`, a `Copy` type: the copy is the same duration.
pub assume_specification[ <Duration as Clone>::clone ](d: &Duration) -> (r: Duration)
    ensures
        r == *d,
;

/// A discrete diagnostic task that can run in isolation.
#[derive(Debug, Clone)]
pub struct DiagnosticTask {
    pub name: String,
    pub description: String,
    pub commands: Vec<String>,
    pub timeout: Duration,
}

/// Name of step `i` (counted from 0) of a task: `<task>_<i+1>`.
pub open spec fn step_name(task: Seq<char>, i: nat) -> Seq<char> {
    task + "_"@ + decimal(i + 1)
}

/// Description of step `i` of a task: `<description> step <i+1>`.
pub open spec fn step_description(description: Seq<char>, i: nat) -> Seq<char> {
    description + " step "@ + decimal(i + 1)
}

/// What running a task gave: its name, the output of each step, and whether every step
/// succeeded. (When each step ran is left to the caller that ran it.)
#[derive(Debug)]
pub struct TaskResult {
    pub task_name: String,
    pub tool_outputs: Vec<ToolOutput>,
    pub success: bool,
}

/// Every step succeeded.
pub open spec fn all_succeeded(steps: Seq<(String, bool, Option<String>)>) -> bool {
    forall|i: int| 0 <= i < steps.len() ==> #[trigger] steps[i].1
}

/// Runs tasks' commands under an output budget.
#[derive(Debug, Clone)]
pub struct TaskRunner {
    pub output_budget: OutputBudget,
}

impl TaskRunner {
    pub fn new(output_budget: OutputBudget) -> (r: TaskRunner)
        ensures
            r.output_budget == output_budget,
    {
        TaskRunner { output_budget }
    }

    /// `<task>_<i+1>`.
    pub fn step_name(task_name: &str, i: usize) -> (r: String)
        requires
            i < u64::MAX,
        ensures
            r@ == step_name(task_name@, i as nat),
    {
        let mut v = to_chars(task_name);
        extend_str(&mut v, "_");
        extend_decimal(&mut v, (i as u64) + 1);
        from_chars(v.as_slice())
    }

    /// The shell tool that runs step `i` of a task.
    pub fn step_tool(task: &DiagnosticTask, i: usize, command: &str, timeout_secs: u64) -> (t:
        SkillTool)
        requires
            i < u64::MAX,
        ensures
            t.name@ == step_name(task.name@, i as nat),
            t.description@ == step_description(task.description@, i as nat),
            t.kind == ToolKind::Shell,
            t.command@ == command@,
            t.args@ == Map::<String, String>::empty(),
            t.env@ == Map::<String, String>::empty(),
            t.timeout_secs == Some(timeout_secs),
    {
        let mut d = to_chars(task.description.as_str());
        extend_str(&mut d, " step ");
        extend_decimal(&mut d, (i as u64) + 1);
        SkillTool {
            name: Self::step_name(task.name.as_str(), i),
            description: from_chars(d.as_slice()),
            kind: ToolKind::Shell,
            command: command.to_string(),
            args: HashMap::new(),
            env: HashMap::new(),
            timeout_secs: Some(timeout_secs),
        }
    }

    /// The recorded output of step `i`: its text cut to the runner's budget.
    pub fn step_output(
        &self,
        task_name: &str,
        i: usize,
        output_text: &str,
        success: bool,
        saved_path: Option<String>,
    ) -> (o: ToolOutput)
        requires
            i < u64::MAX,
        ensures
            o.tool_name@ == step_name(task_name@, i as nat),
            o.content@ == spec_truncated_content(
                output_text@,
                self.output_budget.max_single_result_chars as nat,
                opt_view(saved_path),
            ),
            o.success == success,
    {
        let truncated = truncate_tool_output(output_text, &self.output_budget, saved_path);
        let name = Self::step_name(task_name, i);
        ToolOutput::new(name.as_str(), truncated.content.as_str(), success)
    }

    /// The result of a task from what each of its commands gave, in order: the step's text (see
    /// `planned_step_output`), whether it succeeded, and where a large text was stored.
    pub fn task_result(&self, task: &DiagnosticTask, steps: &Vec<(String, bool, Option<String>)>) -> (r:
        TaskResult)
        requires
            steps@.len() < u64::MAX,
        ensures
            r.task_name@ == task.name@,
            r.tool_outputs@.len() == steps@.len(),
            forall|i: int|
                0 <= i < steps@.len() ==> {
                    &&& (#[trigger] r.tool_outputs@[i]).tool_name@ == step_name(task.name@, i as nat)
                    &&& r.tool_outputs@[i].content@ == spec_truncated_content(
                        steps@[i].0@,
                        self.output_budget.max_single_result_chars as nat,
                        opt_view(steps@[i].2),
                    )
                    &&& r.tool_outputs@[i].success == steps@[i].1
                },
            r.success == all_succeeded(steps@),
    {
        self.result_of(task.name.as_str(), steps)
    }

    /// The result of the task named `task_name` from its steps' outcomes.
    pub fn result_of(&self, task_name: &str, steps: &Vec<(String, bool, Option<String>)>) -> (r:
        TaskResult)
        requires
            steps@.len() < u64::MAX,
        ensures
            r.task_name@ == task_name@,
            r.tool_outputs@.len() == steps@.len(),
            forall|i: int|
                0 <= i < steps@.len() ==> {
                    &&& (#[trigger] r.tool_outputs@[i]).tool_name@ == step_name(task_name@, i as nat)
                    &&& r.tool_outputs@[i].content@ == spec_truncated_content(
                        steps@[i].0@,
                        self.output_budget.max_single_result_chars as nat,
                        opt_view(steps@[i].2),
                    )
                    &&& r.tool_outputs@[i].success == steps@[i].1
                },
            r.success == all_succeeded(steps@),
    {
        let mut outputs: Vec<ToolOutput> = Vec::new();
        let mut success = true;
        let mut i: usize = 0;
        while i < steps.len()
            invariant
                i <= steps@.len() < u64::MAX,
                outputs@.len() == i,
                forall|k: int|
                    0 <= k < i ==> {
                        &&& (#[trigger] outputs@[k]).tool_name@ == step_name(task_name@, k as nat)
                        &&& outputs@[k].content@ == spec_truncated_content(
                            steps@[k].0@,
                            self.output_budget.max_single_result_chars as nat,
                            opt_view(steps@[k].2),
                        )
                        &&& outputs@[k].success == steps@[k].1
                    },
                success == (forall|k: int| 0 <= k < i ==> #[trigger] steps@[k].1),
            decreases steps.len() - i,
        {
            let saved = match &steps[i].2 {
                Some(p) => Some(p.clone()),
                None => None,
            };
            let o = self.step_output(task_name, i, steps[i].0.as_str(), steps[i].1, saved);
            outputs.push(o);
            success = success && steps[i].1;
            i = i + 1;
        }
        TaskResult { task_name: task_name.to_string(), tool_outputs: outputs, success }
    }
}

} // verus!

verus! {

/// `Duration::as_secs`: the whole seconds of a duration.
pub uninterp spec fn duration_secs(d: Duration) -> u64;

/// `Duration::as_secs`, which gives the whole seconds of the duration and depends on nothing
/// else.
#[verifier::external_body]
fn whole_secs(d: &Duration) -> (s: u64)
    ensures
        s == duration_secs(*d),
{
    d.as_secs()
}

/// A task being run: its commands run one at a time, each exactly once, in order, each with
/// the task's own timeout; the caller runs the tool each step names and reports what it gave.
pub struct TaskRun {
    name: String,
    description: String,
    commands: Vec<String>,
    timeout_secs: u64,
    steps: Vec<(String, bool, Option<String>)>,
}

impl TaskRun {
    /// The task's name.
    pub closed spec fn task_name(&self) -> Seq<char> {
        self.name@
    }

    /// The task's commands, in order.
    pub closed spec fn commands(&self) -> Seq<Seq<char>> {
        crate::text::strings_view(self.commands@)
    }

    /// The timeout every step runs with.
    pub closed spec fn timeout(&self) -> u64 {
        self.timeout_secs
    }

    /// What the steps run so far gave, in order.
    pub closed spec fn done(&self) -> Seq<(String, bool, Option<String>)> {
        self.steps@
    }

    pub closed spec fn description(&self) -> Seq<char> {
        self.description@
    }

    /// Starts a task: no step has run.
    pub fn start(task: &DiagnosticTask) -> (r: TaskRun)
        ensures
            r.task_name() == task.name@,
            r.description() == task.description@,
            r.commands() == crate::text::strings_view(task.commands@),
            r.timeout() == duration_secs(task.timeout),
            r.done().len() == 0,
    {
        let mut commands: Vec<String> = Vec::new();
        let mut i: usize = 0;
        while i < task.commands.len()
            invariant
                i <= task.commands@.len(),
                crate::text::strings_view(commands@) == crate::text::strings_view(task.commands@).take(
                    i as int,
                ),
            decreases task.commands.len() - i,
        {
            let ghost before = commands@;
            let c = task.commands[i].clone();
            assert(c@ == task.commands@[i as int]@);
            commands.push(c);
            assert(crate::text::strings_view(commands@) =~= crate::text::strings_view(before).push(
                task.commands@[i as int]@,
            ));
            assert(crate::text::strings_view(task.commands@).take(i + 1) =~= crate::text::strings_view(
                task.commands@,
            ).take(i as int).push(task.commands@[i as int]@));
            i = i + 1;
        }
        assert(crate::text::strings_view(task.commands@).take(i as int) =~= crate::text::strings_view(
            task.commands@,
        ));
        TaskRun {
            name: task.name.clone(),
            description: task.description.clone(),
            commands,
            timeout_secs: whole_secs(&task.timeout),
            steps: Vec::new(),
        }
    }

    /// The tool of the next step: `<task>_<k+1>`, a shell tool running command `k` with the
    /// task's timeout; `None` once every command has run.
    pub fn next_tool(&self) -> (t: Option<SkillTool>)
        requires
            self.done().len() <= self.commands().len() < u64::MAX,
        ensures
            self.done().len() == self.commands().len() ==> t is None,
            self.done().len() < self.commands().len() ==> (t matches Some(tool) && {
                let k = self.done().len();
                &&& tool.name@ == step_name(self.task_name(), k)
                &&& tool.description@ == step_description(self.description(), k)
                &&& tool.kind == ToolKind::Shell
                &&& tool.command@ == self.commands()[k as int]
                &&& tool.timeout_secs == Some(self.timeout())
            }),
    {
        let k = self.steps.len();
        if k >= self.commands.len() {
            return None;
        }
        let mut d = to_chars(self.description.as_str());
        extend_str(&mut d, " step ");
        extend_decimal(&mut d, (k as u64) + 1);
        Some(
            SkillTool {
                name: TaskRunner::step_name(self.name.as_str(), k),
                description: from_chars(d.as_slice()),
                kind: ToolKind::Shell,
                command: self.commands[k].clone(),
                args: HashMap::new(),
                env: HashMap::new(),
                timeout_secs: Some(self.timeout_secs),
            },
        )
    }

    /// Records what the step just run gave: its text, whether it succeeded, and where a large
    /// text was stored.
    pub fn step_done(&mut self, text: String, success: bool, saved_path: Option<String>)
        requires
            old(self).done().len() < old(self).commands().len(),
        ensures
            final(self).done() == old(self).done().push((text, success, saved_path)),
            final(self).task_name() == old(self).task_name(),
            final(self).description() == old(self).description(),
            final(self).commands() == old(self).commands(),
            final(self).timeout() == old(self).timeout(),
    {
        self.steps.push((text, success, saved_path));
    }

    /// The task's result once every step has run (see `TaskRunner::task_result`).
    pub fn finish(&self, runner: &TaskRunner) -> (r: TaskResult)
        requires
            self.done().len() == self.commands().len() < u64::MAX,
        ensures
            r.task_name@ == self.task_name(),
            r.tool_outputs@.len() == self.done().len(),
            forall|i: int|
                0 <= i < self.done().len() ==> {
                    &&& (#[trigger] r.tool_outputs@[i]).tool_name@ == step_name(self.task_name(), i as nat)
                    &&& r.tool_outputs@[i].content@ == spec_truncated_content(
                        self.done()[i].0@,
                        runner.output_budget.max_single_result_chars as nat,
                        opt_view(self.done()[i].2),
                    )
                    &&& r.tool_outputs@[i].success == self.done()[i].1
                },
            r.success == all_succeeded(self.done()),
    {
        runner.result_of(self.name.as_str(), &self.steps)
    }
}

} // verus!
