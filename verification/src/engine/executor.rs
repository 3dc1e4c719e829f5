//! The stages of one command step: its condition, the allowed commands,
//! the build of its process, and what is made of the output of the
//! process.

use crate::engine::commands::{evaluate_condition, condition_holds, CommandError, CommandResult};
use crate::engine::variables::{stored, Variables};
use crate::json::{parse_failure, parsed, Json, JsonValue};
use crate::models::command::CommandStep;
use crate::text::{
    chars_of, first_word, first_word_of, list_contains, pairs, strip_range, texts, trimmed, Strip,
};
use crate::utils::json_path::{extract_json_path, extracted};
use crate::utils::string::{
    optional_pairs, replace_variables, substitute_all, substitute_values, substituted,
    substituted_all, substituted_values,
};
use vstd::prelude::*;

verus! {

/// The kind of system that runs the processes.
#[derive(Debug, Clone, Copy, PartialEq, Eq, Structural)]
pub enum Platform {
    /// A shell step runs as `sh -lc`.
    Unix,
    /// A shell step runs as `cmd /C`.
    Windows,
}

/// A process to launch.
#[derive(Debug)]
pub struct Invocation {
    /// The program.
    pub program: String,
    /// Its arguments.
    pub args: Vec<String>,
    /// Its working directory.
    pub dir: String,
    /// Environment variables to set for it, as names and values.
    pub env: Vec<(String, String)>,
    /// The time it may take, in milliseconds.
    pub timeout_ms: u64,
}

/// How a launched process ended.
#[derive(Debug)]
pub enum Outcome {
    /// The process did not end in the time it may take.
    TimedOut,
    /// The process could not be started, or its output could not be read;
    /// the text says why.
    Failed(String),
    /// The process ended.
    Exited {
        /// What it wrote to its standard output.
        stdout: String,
        /// What it wrote to its standard error.
        stderr: String,
        /// Its exit code, where it had one.
        exit_code: Option<i32>,
        /// The time it took, in milliseconds.
        elapsed_ms: u64,
    },
}

/// What happened to a command step.
#[derive(Debug)]
pub enum StepEvent {
    /// The step is to be started.
    Start,
    /// The process of the step ended.
    Ended(Outcome),
}

/// What is to be done for a command step.
#[derive(Debug)]
pub enum StepAction {
    /// Launch this process, and come back with how it ended.
    Launch(Invocation),
    /// The step is over.
    Done(Result<CommandResult, CommandError>),
}

/// Whether the condition of `step` lets it run: a step without a
/// condition always runs, one with a condition runs where the condition
/// holds after substitution.
pub open spec fn condition_allows(
    step: CommandStep,
    env: Map<Seq<char>, Seq<char>>,
    vars: Map<Seq<char>, Seq<char>>,
) -> bool {
    match step.when {
        Some(w) => condition_holds(substituted(w@, env, vars)),
        None => true,
    }
}

/// The text in which the command of `step` is looked for: the second
/// argument of a shell step that has one, the `run` value otherwise.
pub open spec fn checked_text(step: CommandStep) -> Seq<char> {
    if step.uses_shell() && step.args is Some && step.args->0@.len() > 1 {
        step.args->0@[1]@
    } else {
        step.run@
    }
}

/// The name of the command of `step` as it is held against the allowed
/// commands.
pub open spec fn command_name(step: CommandStep) -> Seq<char> {
    first_word(checked_text(step))
}

/// Whether the command of `step` may run.
pub open spec fn command_allowed(step: CommandStep, allowed: Option<&Vec<String>>) -> bool {
    match allowed {
        Some(list) => texts(list@).contains(command_name(step)),
        None => true,
    }
}

/// What is said of a command that may not run.
pub open spec fn refusal(step: CommandStep) -> Seq<char> {
    "Command '"@ + command_name(step) + "' is not in allowed_commands list"@
}

/// The program of a shell step.
pub open spec fn shell_program(platform: Platform) -> Seq<char> {
    match platform {
        Platform::Unix => "sh"@,
        Platform::Windows => "cmd"@,
    }
}

/// The argument that makes the shell run what follows.
pub open spec fn shell_flag(platform: Platform) -> Seq<char> {
    match platform {
        Platform::Unix => "-lc"@,
        Platform::Windows => "/C"@,
    }
}

/// The program that `step` runs.
pub open spec fn planned_program(
    step: CommandStep,
    env: Map<Seq<char>, Seq<char>>,
    vars: Map<Seq<char>, Seq<char>>,
    platform: Platform,
) -> Seq<char> {
    if step.uses_shell() {
        shell_program(platform)
    } else {
        substituted(step.run@, env, vars)
    }
}

/// The arguments of the program that `step` runs: the arguments of the
/// step after substitution; in a shell, behind the flag of the shell, and
/// the `run` value in their place where the step has none.
pub open spec fn planned_args(
    step: CommandStep,
    env: Map<Seq<char>, Seq<char>>,
    vars: Map<Seq<char>, Seq<char>>,
    platform: Platform,
) -> Seq<Seq<char>> {
    let given = match step.args {
        Some(a) => substituted_all(texts(a@), env, vars),
        None => if step.uses_shell() {
            seq![substituted(step.run@, env, vars)]
        } else {
            Seq::empty()
        },
    };
    if step.uses_shell() {
        seq![shell_flag(platform)] + given
    } else {
        given
    }
}

/// The working directory of the process: that of the step after
/// substitution, or the base directory where the step names none.
pub open spec fn planned_dir(
    step: CommandStep,
    env: Map<Seq<char>, Seq<char>>,
    vars: Map<Seq<char>, Seq<char>>,
    work_dir: Seq<char>,
) -> Seq<char> {
    match step.dir {
        Some(d) => substituted(d@, env, vars),
        None => work_dir,
    }
}

/// The environment variables of the process: those of the step, each
/// value after substitution.
pub open spec fn planned_env(
    step: CommandStep,
    env: Map<Seq<char>, Seq<char>>,
    vars: Map<Seq<char>, Seq<char>>,
) -> Seq<(Seq<char>, Seq<char>)> {
    substituted_values(optional_pairs(step.env), env, vars)
}

/// Whether `inv` is the process that `step` asks for.
pub open spec fn is_planned(
    inv: Invocation,
    step: CommandStep,
    env: Map<Seq<char>, Seq<char>>,
    vars: Map<Seq<char>, Seq<char>>,
    work_dir: Seq<char>,
    platform: Platform,
) -> bool {
    &&& inv.program@ == planned_program(step, env, vars, platform)
    &&& texts(inv.args@) == planned_args(step, env, vars, platform)
    &&& inv.dir@ == planned_dir(step, env, vars, work_dir)
    &&& pairs(inv.env@) == planned_env(step, env, vars)
    &&& inv.timeout_ms == step.timeout()
}

/// Whether `result` is that of a skipped step: a success without output.
pub open spec fn is_skipped(result: CommandResult) -> bool {
    &&& result.success
    &&& result.stdout@.len() == 0
    &&& result.stderr@.len() == 0
    &&& result.exit_code == Some(0i32)
    &&& result.captured_vars@.len() == 0
}

/// Whether `action` is the right start of `step`: a step whose condition
/// does not hold is skipped, whatever its command; a step whose command may not
/// run is refused; any other step is launched as built.
pub open spec fn begun(
    action: StepAction,
    step: CommandStep,
    env: Map<Seq<char>, Seq<char>>,
    vars: Map<Seq<char>, Seq<char>>,
    work_dir: Seq<char>,
    allowed: Option<&Vec<String>>,
    platform: Platform,
) -> bool {
    if !condition_allows(step, env, vars) {
        action matches StepAction::Done(Ok(result)) && is_skipped(result)
    } else if !command_allowed(step, allowed) {
        action matches StepAction::Done(Err(CommandError::Validation(msg))) && msg@ == refusal(step)
    } else {
        action matches StepAction::Launch(inv) && is_planned(inv, step, env, vars, work_dir, platform)
    }
}

/// What the capture of `step` stores: the standard output under the
/// name that the step gives, the standard error under that name followed
/// by `_stderr`.
pub open spec fn captured(step: CommandStep, stdout: Seq<char>, stderr: Seq<char>) -> Seq<
    (Seq<char>, Seq<char>),
> {
    match step.capture {
        Some(c) => seq![(c.var@, stdout), (c.var@ + "_stderr"@, stderr)],
        None => Seq::empty(),
    }
}

/// What `exports` take from `json`: for each name and path in order, the
/// name with the text extracted at the path, where the path selects
/// something.
pub open spec fn exported(json: JsonValue, exports: Seq<(Seq<char>, Seq<char>)>) -> Seq<
    (Seq<char>, Seq<char>),
>
    decreases exports.len(),
{
    if exports.len() == 0 {
        Seq::empty()
    } else {
        let before = exported(json, exports.drop_last());
        match extracted(json, exports.last().1) {
            Some(text) => before.push((exports.last().0, text)),
            None => before,
        }
    }
}

/// Whether the standard output of `step` is to be read as JSON: the step
/// exports something and the output is not blank.
pub open spec fn reads_json(step: CommandStep, stdout: Seq<char>) -> bool {
    step.export is Some && trimmed(stdout).len() > 0
}

/// Everything that `step` stores from its output, in order: what it
/// captures, then what it exports where the standard output is JSON.
pub open spec fn gathered(step: CommandStep, stdout: Seq<char>, stderr: Seq<char>) -> Seq<
    (Seq<char>, Seq<char>),
> {
    captured(step, stdout, stderr) + (if reads_json(step, stdout) {
        match parsed(stdout) {
            Some(json) => exported(json, pairs(step.export->0@)),
            None => Seq::empty(),
        }
    } else {
        Seq::empty()
    })
}

/// Whether `result` is what `step` makes of the output of its process.
///
/// Where the standard output is to be read as JSON and is none, the step
/// fails with `JsonParsingFailed` and stores nothing, unless it ignores
/// errors. In every other case the step ends with the output and the
/// exit code, it succeeded where the exit code is 0, and what it gathered
/// is stored, whether it succeeded or not.
pub open spec fn processed(
    result: Result<CommandResult, CommandError>,
    step: CommandStep,
    stdout: Seq<char>,
    stderr: Seq<char>,
    exit_code: Option<i32>,
    before: Map<Seq<char>, Seq<char>>,
    after: Map<Seq<char>, Seq<char>>,
) -> bool {
    if reads_json(step, stdout) && parsed(stdout) is None && !step.ignores_error() {
        &&& result matches Err(CommandError::JsonParsingFailed(msg))
        &&& msg@ == "Failed to parse stdout as JSON: "@ + parse_failure(stdout)
        &&& after == before
    } else {
        &&& result matches Ok(res)
        &&& res.success == (exit_code == Some(0i32))
        &&& res.stdout@ == stdout
        &&& res.stderr@ == stderr
        &&& res.exit_code == exit_code
        &&& pairs(res.captured_vars@) == gathered(step, stdout, stderr)
        &&& after == stored(before, gathered(step, stdout, stderr))
    }
}

/// Whether `result` is the right end of `step` for how its process
/// ended.
///
/// A process that did not end in time, or that took longer than the step
/// allows, fails the step with `Timeout`, whatever else the step says. A
/// process that could not be run fails it with `ExecutionFailed`. Neither
/// stores anything.
pub open spec fn ended(
    result: Result<CommandResult, CommandError>,
    step: CommandStep,
    outcome: Outcome,
    before: Map<Seq<char>, Seq<char>>,
    after: Map<Seq<char>, Seq<char>>,
) -> bool {
    match outcome {
        Outcome::TimedOut => result == Err::<CommandResult, CommandError>(CommandError::Timeout)
            && after == before,
        Outcome::Failed(why) => result == Err::<CommandResult, CommandError>(
            CommandError::ExecutionFailed(why),
        ) && after == before,
        Outcome::Exited { stdout, stderr, exit_code, elapsed_ms } => if elapsed_ms
            > step.timeout() {
            result == Err::<CommandResult, CommandError>(CommandError::Timeout) && after == before
        } else {
            processed(result, step, stdout@, stderr@, exit_code, before, after)
        },
    }
}

/// A step whose condition does not hold launches no process and does
/// not fail: it ends as a success without output, whatever its command.
pub proof fn lemma_closed_condition_skips(
    action: StepAction,
    step: CommandStep,
    env: Map<Seq<char>, Seq<char>>,
    vars: Map<Seq<char>, Seq<char>>,
    work_dir: Seq<char>,
    allowed: Option<&Vec<String>>,
    platform: Platform,
)
    requires
        begun(action, step, env, vars, work_dir, allowed, platform),
        !condition_allows(step, env, vars),
    ensures
        !(action is Launch),
        action matches StepAction::Done(Ok(result)) && is_skipped(result),
{
}

/// A step whose process did not end in time, or took longer than the
/// step allows, fails with `Timeout` and stores nothing; it never
/// succeeds, whatever the process wrote and however it left.
pub proof fn lemma_overtime_is_timeout(
    result: Result<CommandResult, CommandError>,
    step: CommandStep,
    outcome: Outcome,
    before: Map<Seq<char>, Seq<char>>,
    after: Map<Seq<char>, Seq<char>>,
)
    requires
        ended(result, step, outcome, before, after),
        outcome is TimedOut || (outcome matches Outcome::Exited { elapsed_ms, .. } && elapsed_ms
            > step.timeout()),
    ensures
        result == Err::<CommandResult, CommandError>(CommandError::Timeout),
        after == before,
{
}

/// Takes from `json` what `exports` name.
pub fn export_variables(json: &Json, exports: &Vec<(String, String)>) -> (r: Vec<(String, String)>)
    ensures
        pairs(r@) == exported(json@, pairs(exports@)),
{
    let mut out: Vec<(String, String)> = Vec::new();
    let n: usize = exports.len();
    let mut i: usize = 0;
    assert(pairs(exports@).take(0) =~= Seq::<(Seq<char>, Seq<char>)>::empty());
    assert(pairs(out@) =~= Seq::<(Seq<char>, Seq<char>)>::empty());
    while i < n
        invariant
            n == exports.len(),
            i <= n,
            pairs(out@) == exported(json@, pairs(exports@).take(i as int)),
        decreases n - i,
    {
        proof {
            let upto = pairs(exports@).take(i + 1);
            assert(upto.drop_last() =~= pairs(exports@).take(i as int));
            assert(upto.last() == (exports@[i as int].0@, exports@[i as int].1@));
        }
        let ghost held = pairs(out@);
        match extract_json_path(json, exports[i].1.as_str()) {
            Some(text) => {
                let name = exports[i].0.clone();
                out.push((name, text));
                assert(pairs(out@) =~= held.push((exports@[i as int].0@, text@)));
            },
            None => {},
        }
        i += 1;
    }
    assert(pairs(exports@).take(n as int) =~= pairs(exports@));
    out
}

/// Runs the stages of one command step.
pub struct CommandExecutor<'a> {
    /// The step.
    pub step: &'a CommandStep,
    /// The environment that `${{NAME}}` markers resolve against.
    pub env: &'a Variables,
    /// The base directory of the suite.
    pub work_dir: &'a str,
    /// The commands that may run, where the suite restricts them.
    pub allowed_commands: Option<&'a Vec<String>>,
    /// The kind of system that runs the process.
    pub platform: Platform,
}

impl<'a> CommandExecutor<'a> {
    /// An executor for `step`.
    pub fn new(
        step: &'a CommandStep,
        env: &'a Variables,
        work_dir: &'a str,
        allowed_commands: Option<&'a Vec<String>>,
        platform: Platform,
    ) -> (r: Self)
        ensures
            r.step == step,
            r.env == env,
            r.work_dir == work_dir,
            r.allowed_commands == allowed_commands,
            r.platform == platform,
    {
        Self { step, env, work_dir, allowed_commands, platform }
    }

    /// Starts or finishes the step.
    pub fn execute(&self, event: StepEvent, variables: &mut Variables) -> (r: StepAction)
        ensures
            match event {
                StepEvent::Start => final(variables)@ == old(variables)@ && begun(
                    r,
                    *self.step,
                    self.env@,
                    old(variables)@,
                    self.work_dir@,
                    self.allowed_commands,
                    self.platform,
                ),
                StepEvent::Ended(outcome) => r matches StepAction::Done(result) && ended(
                    result,
                    *self.step,
                    outcome,
                    old(variables)@,
                    final(variables)@,
                ),
            },
    {
        match event {
            StepEvent::Start => {
                match self.should_execute(variables) {
                    Ok(open) => {
                        if !open {
                            return StepAction::Done(Ok(self.create_skipped_result()));
                        }
                    },
                    Err(e) => {
                        return StepAction::Done(Err(e));
                    },
                }
                match self.validate_command() {
                    Ok(()) => {},
                    Err(e) => {
                        return StepAction::Done(Err(e));
                    },
                }
                match self.build_command(variables) {
                    Ok(inv) => StepAction::Launch(inv),
                    Err(e) => StepAction::Done(Err(e)),
                }
            },
            StepEvent::Ended(outcome) => {
                match outcome {
                    Outcome::TimedOut => StepAction::Done(Err(CommandError::Timeout)),
                    Outcome::Failed(why) => StepAction::Done(
                        Err(CommandError::ExecutionFailed(why)),
                    ),
                    Outcome::Exited { stdout, stderr, exit_code, elapsed_ms } => {
                        if elapsed_ms > self.step.get_timeout_ms() {
                            StepAction::Done(Err(CommandError::Timeout))
                        } else {
                            StepAction::Done(
                                self.process_output(variables, stdout, stderr, exit_code),
                            )
                        }
                    },
                }
            },
        }
    }

    /// Whether the condition of the step lets it run.
    pub fn should_execute(&self, variables: &Variables) -> (r: Result<bool, CommandError>)
        ensures
            r matches Ok(open) && open == condition_allows(*self.step, self.env@, variables@),
    {
        match &self.step.when {
            Some(when_condition) => {
                let condition = replace_variables(when_condition.as_str(), self.env, variables);
                Ok(evaluate_condition(condition.as_str()))
            },
            None => Ok(true),
        }
    }

    /// The result of a skipped step.
    pub fn create_skipped_result(&self) -> (r: CommandResult)
        ensures
            is_skipped(r),
    {
        CommandResult {
            success: true,
            stdout: String::new(),
            stderr: String::new(),
            exit_code: Some(0),
            captured_vars: Vec::new(),
        }
    }

    /// Holds the command of the step against the allowed commands.
    pub fn validate_command(&self) -> (r: Result<(), CommandError>)
        ensures
            match r {
                Ok(_) => command_allowed(*self.step, self.allowed_commands),
                Err(e) => e matches CommandError::Validation(msg) && msg@ == refusal(*self.step)
                    && !command_allowed(*self.step, self.allowed_commands),
            },
    {
        match self.allowed_commands {
            None => Ok(()),
            Some(allowed) => {
                let checked: &String = if self.step.should_use_shell() {
                    match &self.step.args {
                        Some(args) => if args.len() > 1 {
                            &args[1]
                        } else {
                            &self.step.run
                        },
                        None => &self.step.run,
                    }
                } else {
                    &self.step.run
                };
                let name = first_word_of(checked.as_str());
                if list_contains(allowed, name.as_str()) {
                    Ok(())
                } else {
                    let mut msg = String::from_str("Command '");
                    msg.append(name.as_str());
                    msg.append("' is not in allowed_commands list");
                    Err(CommandError::Validation(msg))
                }
            },
        }
    }

    /// Builds the process of the step, with variables substituted into
    /// the command, its arguments, its directory and the values of its
    /// environment.
    pub fn build_command(&self, variables: &Variables) -> (r: Result<Invocation, CommandError>)
        ensures
            r matches Ok(inv) && is_planned(
                inv,
                *self.step,
                self.env@,
                variables@,
                self.work_dir@,
                self.platform,
            ),
    {
        let ghost e = self.env@;
        let ghost vs = variables@;
        let run_cmd = replace_variables(self.step.run.as_str(), self.env, variables);
        let shell = self.step.should_use_shell();
        let mut args: Vec<String> = Vec::new();
        if shell {
            match self.platform {
                Platform::Unix => args.push(String::from_str("-lc")),
                Platform::Windows => args.push(String::from_str("/C")),
            }
        }
        let ghost head = texts(args@);
        assert(head =~= if shell {
            seq![shell_flag(self.platform)]
        } else {
            Seq::<Seq<char>>::empty()
        });
        match &self.step.args {
            Some(given) => {
                let mut more = substitute_all(given, self.env, variables);
                let ghost rest = texts(more@);
                args.append(&mut more);
                assert(texts(args@) =~= head + rest);
            },
            None => {
                if shell {
                    args.push(run_cmd.clone());
                    assert(texts(args@) =~= head + seq![run_cmd@]);
                } else {
                    assert(texts(args@) =~= head + Seq::<Seq<char>>::empty());
                }
            },
        }
        assert(texts(args@) =~= planned_args(*self.step, e, vs, self.platform));
        let program = if shell {
            match self.platform {
                Platform::Unix => String::from_str("sh"),
                Platform::Windows => String::from_str("cmd"),
            }
        } else {
            run_cmd
        };
        let dir = match &self.step.dir {
            Some(d) => replace_variables(d.as_str(), self.env, variables),
            None => String::from_str(self.work_dir),
        };
        Ok(
            Invocation {
                program,
                args,
                dir,
                env: substitute_values(&self.step.env, self.env, variables),
                timeout_ms: self.step.get_timeout_ms(),
            },
        )
    }

    /// Makes the result of the step from the output of its process, and
    /// stores what the step captures and exports.
    pub fn process_output(
        &self,
        variables: &mut Variables,
        stdout: String,
        stderr: String,
        exit_code: Option<i32>,
    ) -> (r: Result<CommandResult, CommandError>)
        ensures
            processed(
                r,
                *self.step,
                stdout@,
                stderr@,
                exit_code,
                old(variables)@,
                final(variables)@,
            ),
    {
        let success = match exit_code {
            Some(c) => c == 0,
            None => false,
        };
        let mut captured_vars: Vec<(String, String)> = Vec::new();
        match &self.step.capture {
            Some(capture) => {
                captured_vars.push((capture.var.clone(), stdout.clone()));
                let mut name = capture.var.clone();
                name.append("_stderr");
                captured_vars.push((name, stderr.clone()));
                assert(pairs(captured_vars@) =~= captured(*self.step, stdout@, stderr@));
            },
            None => {
                assert(pairs(captured_vars@) =~= captured(*self.step, stdout@, stderr@));
            },
        }
        let ghost first = pairs(captured_vars@);
        match &self.step.export {
            Some(exports) => {
                if !is_blank(stdout.as_str()) {
                    match Json::parse(stdout.as_str()) {
                        Ok(json) => {
                            let mut found = export_variables(&json, exports);
                            let ghost second = pairs(found@);
                            captured_vars.append(&mut found);
                            assert(pairs(captured_vars@) =~= first + second);
                        },
                        Err(detail) => {
                            if !self.step.should_ignore_error() {
                                let mut msg = String::from_str("Failed to parse stdout as JSON: ");
                                msg.append(detail.as_str());
                                return Err(CommandError::JsonParsingFailed(msg));
                            }
                            assert(pairs(captured_vars@) =~= first + Seq::<
                                (Seq<char>, Seq<char>),
                            >::empty());
                        },
                    }
                } else {
                    assert(pairs(captured_vars@) =~= first + Seq::<(Seq<char>, Seq<char>)>::empty());
                }
            },
            None => {
                assert(pairs(captured_vars@) =~= first + Seq::<(Seq<char>, Seq<char>)>::empty());
            },
        }
        variables.insert_all(&captured_vars);
        Ok(CommandResult { success, stdout, stderr, exit_code, captured_vars })
    }
}

/// Whether the value of an environment variable is kept out of what is
/// written about a step: the name of the variable holds `token`,
/// `password`, `secret` or `key`, in whatever case.
pub open spec fn sensitive(key: Seq<char>) -> bool {
    let k = crate::text::lowercase(key);
    crate::text::contains(k, "token"@) || crate::text::contains(k, "password"@)
        || crate::text::contains(k, "secret"@) || crate::text::contains(k, "key"@)
}

/// Whether the value of the environment variable `key` is kept out of
/// what is written about a step.
pub fn is_sensitive(key: &str) -> (r: bool)
    ensures
        r == sensitive(key@),
{
    let lower = crate::text::to_lowercase(key);
    let k = lower.as_str();
    crate::text::contains_text(k, "token") || crate::text::contains_text(k, "password")
        || crate::text::contains_text(k, "secret") || crate::text::contains_text(k, "key")
}

/// What is written of the value of the environment variable `key`: the
/// value, or `[REDACTED]` in its place.
pub fn shown_value(key: &str, value: &str) -> (r: String)
    ensures
        r@ == if sensitive(key@) {
            "[REDACTED]"@
        } else {
            value@
        },
{
    if is_sensitive(key) {
        String::from_str("[REDACTED]")
    } else {
        String::from_str(value)
    }
}

/// Whether `text` holds nothing but white space.
pub fn is_blank(text: &str) -> (r: bool)
    ensures
        r == (trimmed(text@).len() == 0),
{
    let v = chars_of(text);
    assert(v@.subrange(0, v@.len() as int) =~= v@);
    let (a, b) = strip_range(&v, 0, v.len(), Strip::Whitespace);
    a == b
}

} // verus!
