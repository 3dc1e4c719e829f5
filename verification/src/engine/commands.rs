//! Command steps: their results and errors, the conditions on which
//! they run, and the decisions of a hook that runs several of them.
//!
//! The engine does not start processes. It decides what is to be run and
//! what follows from how a process ended; the caller runs the process in
//! between.

use crate::engine::executor::{
    begun, command_allowed, ended, condition_allows, is_planned, refusal, CommandExecutor, Invocation,
    Outcome, Platform, StepAction, StepEvent,
};
use crate::engine::variables::Variables;
use crate::models::command::CommandStep;
use crate::text::{
    chars_of, decimal, find, find_text, piece, push_decimal, push_signed_decimal, range_equals,
    same_text, signed_decimal, strip_range, trimmed, unquoted, Strip,
};
use vstd::prelude::*;

verus! {

/// How a command step ended.
#[derive(Debug)]
pub struct CommandResult {
    /// Whether the process left with exit code 0, or the step was
    /// skipped.
    pub success: bool,
    /// What the process wrote to its standard output.
    pub stdout: String,
    /// What the process wrote to its standard error.
    pub stderr: String,
    /// The exit code, where the process had one.
    pub exit_code: Option<i32>,
    /// The variables that the step captured and exported, in the order
    /// in which they were stored.
    pub captured_vars: Vec<(String, String)>,
}

/// Why a command step failed.
#[derive(Debug)]
pub enum CommandError {
    /// The process took longer than it may.
    Timeout,
    /// The process could not be run, or a step of a hook left with an
    /// exit code other than 0.
    ExecutionFailed(String),
    /// The standard output was to be read as JSON and is none.
    JsonParsingFailed(String),
    /// The command is not among the allowed ones.
    Validation(String),
}

impl CommandError {
    /// The text that describes the error.
    pub open spec fn message(&self) -> Seq<char> {
        match self {
            CommandError::Timeout => "Command timed out"@,
            CommandError::ExecutionFailed(msg) => "Command execution failed: "@ + msg@,
            CommandError::JsonParsingFailed(msg) => "JSON parsing failed: "@ + msg@,
            CommandError::Validation(msg) => "Validation error: "@ + msg@,
        }
    }

    /// The text that describes the error.
    pub fn to_string(&self) -> (r: String)
        ensures
            r@ == self.message(),
    {
        match self {
            CommandError::Timeout => String::from_str("Command timed out"),
            CommandError::ExecutionFailed(msg) => {
                let mut out = String::from_str("Command execution failed: ");
                out.append(msg.as_str());
                out
            },
            CommandError::JsonParsingFailed(msg) => {
                let mut out = String::from_str("JSON parsing failed: ");
                out.append(msg.as_str());
                out
            },
            CommandError::Validation(msg) => {
                let mut out = String::from_str("Validation error: ");
                out.append(msg.as_str());
                out
            },
        }
    }
}

/// One side of a comparison: without the white space around it, then
/// without the double quotes around that.
pub open spec fn operand(s: Seq<char>) -> Seq<char> {
    unquoted(trimmed(s))
}

/// Whether a condition holds.
///
/// A condition with `==` holds where the operands on both sides of the
/// first `==` are the same text; one without `==` but with `!=` holds
/// where the operands on both sides of the first `!=` differ. Any other
/// condition holds unless it is blank or the word `false`.
pub open spec fn condition_holds(c: Seq<char>) -> bool {
    match find(c, seq!['=', '=']) {
        Some(i) => operand(c.subrange(0, i)) == operand(c.subrange(i + 2, c.len() as int)),
        None => match find(c, seq!['!', '=']) {
            Some(i) => operand(c.subrange(0, i)) != operand(c.subrange(i + 2, c.len() as int)),
            None => trimmed(c).len() > 0 && trimmed(c) != seq!['f', 'a', 'l', 's', 'e'],
        },
    }
}

/// The operand in `[from, to)` of the condition `text`.
fn operand_of(text: &str, v: &Vec<char>, from: usize, to: usize) -> (r: String)
    requires
        v@ == text@,
        from <= to <= v.len(),
    ensures
        r@ == operand(text@.subrange(from as int, to as int)),
{
    let (a, b) = strip_range(v, from, to, Strip::Whitespace);
    let (c, d) = strip_range(v, a, b, Strip::Char('"'));
    piece(text, c, d)
}

/// Whether `condition` holds.
pub fn evaluate_condition(condition: &str) -> (r: bool)
    ensures
        r == condition_holds(condition@),
{
    let v = chars_of(condition);
    let n: usize = v.len();
    let equal: Vec<char> = vec!['=', '='];
    let differ: Vec<char> = vec!['!', '='];
    assert(equal@ =~= seq!['=', '=']);
    assert(differ@ =~= seq!['!', '=']);
    match find_text(&v, 0, &equal) {
        Some(i) => {
            let left = operand_of(condition, &v, 0, i);
            let right = operand_of(condition, &v, i + 2, n);
            same_text(left.as_str(), right.as_str())
        },
        None => match find_text(&v, 0, &differ) {
            Some(i) => {
                let left = operand_of(condition, &v, 0, i);
                let right = operand_of(condition, &v, i + 2, n);
                !same_text(left.as_str(), right.as_str())
            },
            None => {
                assert(v@.subrange(0, n as int) =~= v@);
                let (a, b) = strip_range(&v, 0, n, Strip::Whitespace);
                let word: Vec<char> = vec!['f', 'a', 'l', 's', 'e'];
                assert(word@ =~= seq!['f', 'a', 'l', 's', 'e']);
                a < b && !range_equals(&v, a, b, &word)
            },
        },
    }
}

/// Starts or finishes one command step.
///
/// On `Start` the condition of the step is tested, its command is held
/// against the allowed commands, and its process is built; the answer is the process to launch, or the end of the step
/// where it is skipped or refused. On `Ended` the step is finished from
/// how the process ended.
pub fn execute_command_step(
    step: &CommandStep,
    event: StepEvent,
    env: &Variables,
    variables: &mut Variables,
    work_dir: &str,
    allowed_commands: Option<&Vec<String>>,
    platform: Platform,
) -> (r: StepAction)
    ensures
        match event {
            StepEvent::Start => final(variables)@ == old(variables)@ && begun(
                r,
                *step,
                env@,
                old(variables)@,
                work_dir@,
                allowed_commands,
                platform,
            ),
            StepEvent::Ended(outcome) => r matches StepAction::Done(result) && ended(
                result,
                *step,
                outcome,
                old(variables)@,
                final(variables)@,
            ),
        },
{
    let executor = CommandExecutor::new(step, env, work_dir, allowed_commands, platform);
    executor.execute(event, variables)
}

/// The text of an exit code as a hook reports it.
pub open spec fn exit_code_text(code: Option<i32>) -> Seq<char> {
    match code {
        Some(c) => "Some("@ + signed_decimal(c as int) + ")"@,
        None => "None"@,
    }
}

/// What a hook reports where its step of the given number, counted from
/// 1, left with an exit code other than 0.
pub open spec fn step_failure(phase: Seq<char>, number: nat, result: CommandResult) -> Seq<char> {
    phase + " step "@ + decimal(number) + " failed with exit code "@ + exit_code_text(
        result.exit_code,
    ) + ": "@ + result.stderr@
}

/// What a hook does after one of its steps.
#[derive(Debug)]
pub enum Verdict {
    /// The hook goes on with its next step.
    Continue,
    /// The hook ends with this error; its remaining steps do not run.
    Abort(CommandError),
}

/// What a hook does after a step ended with `result`: it goes on where
/// the step succeeded or ignores errors, and ends with the error
/// otherwise. A step that left with an exit code other than 0 fails the
/// hook as an `ExecutionFailed`.
pub open spec fn judged(
    verdict: Verdict,
    step: CommandStep,
    result: Result<CommandResult, CommandError>,
    phase: Seq<char>,
    number: nat,
) -> bool {
    match result {
        Ok(res) => if !res.success && !step.ignores_error() {
            verdict matches Verdict::Abort(CommandError::ExecutionFailed(msg)) && msg@
                == step_failure(phase, number, res)
        } else {
            verdict is Continue
        },
        Err(e) => if step.ignores_error() {
            verdict is Continue
        } else {
            verdict == Verdict::Abort(e)
        },
    }
}

/// Decides what a hook does after its step of the given number, counted
/// from 1, ended with `result`.
pub fn judge_step(
    step: &CommandStep,
    result: Result<CommandResult, CommandError>,
    phase_name: &str,
    number: usize,
) -> (r: Verdict)
    ensures
        judged(r, *step, result, phase_name@, number as nat),
{
    match result {
        Ok(res) => {
            if !res.success && !step.should_ignore_error() {
                let mut msg = String::from_str(phase_name);
                msg.append(" step ");
                push_decimal(&mut msg, number as u64);
                msg.append(" failed with exit code ");
                match res.exit_code {
                    Some(c) => {
                        msg.append("Some(");
                        push_signed_decimal(&mut msg, c);
                        msg.append(")");
                        assert(msg@ =~= phase_name@ + " step "@ + decimal(number as nat)
                            + " failed with exit code "@ + ("Some("@ + signed_decimal(c as int)
                            + ")"@));
                    },
                    None => {
                        msg.append("None");
                    },
                }
                msg.append(": ");
                msg.append(res.stderr.as_str());
                Verdict::Abort(CommandError::ExecutionFailed(msg))
            } else {
                Verdict::Continue
            }
        },
        Err(e) => {
            if step.should_ignore_error() {
                Verdict::Continue
            } else {
                Verdict::Abort(e)
            }
        },
    }
}

/// Which steps of a hook run.
#[derive(Debug, Clone, Copy, PartialEq, Eq, Structural)]
pub enum Selection {
    /// Every step.
    All,
    /// The steps of an after-hook that run on this outcome of the test:
    /// those for `success` where the test passed, those for `failure`
    /// where it did not, and every other step.
    Outcome(bool),
}

impl Selection {
    /// Whether `step` is among the steps that run.
    pub open spec fn admits(self, step: CommandStep) -> bool {
        match self {
            Selection::All => true,
            Selection::Outcome(passed) => if step.on_condition() == "success"@ {
                passed
            } else if step.on_condition() == "failure"@ {
                !passed
            } else {
                true
            },
        }
    }

    /// Tests whether `step` is among the steps that run.
    pub fn selects(&self, step: &CommandStep) -> (r: bool)
        ensures
            r == self.admits(*step),
    {
        match self {
            Selection::All => true,
            Selection::Outcome(passed) => {
                let on = step.get_on_condition();
                if same_text(on, "success") {
                    *passed
                } else if same_text(on, "failure") {
                    !*passed
                } else {
                    true
                }
            },
        }
    }
}

/// Where a hook stands: the step in progress.
#[derive(Debug, Clone, Copy)]
pub struct HookState {
    /// The index of the step in progress among the steps of the hook.
    pub index: usize,
    /// The number of the step in progress among the steps that run,
    /// counted from 1.
    pub number: usize,
}

/// What is to be done for a hook.
#[derive(Debug)]
pub enum HookAction {
    /// Launch this process, and come back with how it ended.
    Launch(Invocation),
    /// The hook is over.
    Done(Result<(), CommandError>),
}

/// What a hook needs to know of its surroundings.
pub struct HookContext<'a> {
    /// The environment that `${{NAME}}` markers resolve against.
    pub env: &'a Variables,
    /// The base directory of the suite.
    pub work_dir: &'a str,
    /// The commands that may run, where the suite restricts them.
    pub allowed_commands: Option<&'a Vec<String>>,
    /// The kind of system that runs the processes.
    pub platform: Platform,
    /// Which steps run.
    pub selection: Selection,
    /// The name of the hook, for its messages.
    pub phase_name: &'a str,
}

/// Whether `action` is what a hook does from its step `i` on, `ran`
/// steps having run before, and `state` where it stands then.
///
/// Steps that are not selected are passed over. A selected step whose
/// condition does not hold is skipped and counts as a success. A selected step
/// whose command may not run ends the hook with the refusal, unless the
/// step ignores errors. The first selected step that is neither skipped
/// nor refused is launched. A hook without such a step ends well.
pub open spec fn advanced(
    action: HookAction,
    state: HookState,
    steps: Seq<CommandStep>,
    i: int,
    ran: nat,
    context: HookContext,
    vars: Map<Seq<char>, Seq<char>>,
) -> bool
    decreases steps.len() - i,
{
    if i < 0 || i >= steps.len() {
        action == HookAction::Done(Ok(()))
    } else if !context.selection.admits(steps[i]) {
        advanced(action, state, steps, i + 1, ran, context, vars)
    } else if !condition_allows(steps[i], context.env@, vars) {
        advanced(action, state, steps, i + 1, ran + 1, context, vars)
    } else if !command_allowed(steps[i], context.allowed_commands) {
        if steps[i].ignores_error() {
            advanced(action, state, steps, i + 1, ran + 1, context, vars)
        } else {
            action matches HookAction::Done(Err(CommandError::Validation(msg))) && msg@ == refusal(
                steps[i],
            )
        }
    } else {
        &&& action matches HookAction::Launch(inv)
        &&& is_planned(inv, steps[i], context.env@, vars, context.work_dir@, context.platform)
        &&& state.index == i
        &&& state.number == ran + 1
    }
}

/// Whether `action` is what a hook does after the process of its step
/// in progress ended with `outcome`: the step is finished, and the hook
/// goes on behind it, or ends with the error of the step.
pub open spec fn resumed(
    action: HookAction,
    state: HookState,
    steps: Seq<CommandStep>,
    at: HookState,
    outcome: Outcome,
    context: HookContext,
    before: Map<Seq<char>, Seq<char>>,
    after: Map<Seq<char>, Seq<char>>,
) -> bool {
    exists|result: Result<CommandResult, CommandError>, verdict: Verdict|
        #![trigger ended(result, steps[at.index as int], outcome, before, after), judged(verdict, steps[at.index as int], result, context.phase_name@, at.number as nat)]
        {
            &&& ended(result, steps[at.index as int], outcome, before, after)
            &&& judged(verdict, steps[at.index as int], result, context.phase_name@, at.number as nat)
            &&& match verdict {
                Verdict::Continue => advanced(
                    action,
                    state,
                    steps,
                    at.index + 1,
                    at.number as nat,
                    context,
                    after,
                ),
                Verdict::Abort(e) => action == HookAction::Done(Err(e)),
            }
        }
}

/// A hook none of whose steps is selected launches nothing and ends
/// well.
pub proof fn lemma_unselected_steps_do_not_run(
    action: HookAction,
    state: HookState,
    steps: Seq<CommandStep>,
    i: int,
    ran: nat,
    context: HookContext,
    vars: Map<Seq<char>, Seq<char>>,
)
    requires
        advanced(action, state, steps, i, ran, context, vars),
        forall|k: int| 0 <= k < steps.len() ==> !context.selection.admits(#[trigger] steps[k]),
    ensures
        action == HookAction::Done(Ok(())),
    decreases steps.len() - i,
{
    if 0 <= i < steps.len() {
        lemma_unselected_steps_do_not_run(action, state, steps, i + 1, ran, context, vars);
    }
}

/// A selected step whose condition does not hold does not end the hook:
/// the hook goes on behind it as if the step had succeeded.
pub proof fn lemma_skipped_step_passes(
    action: HookAction,
    state: HookState,
    steps: Seq<CommandStep>,
    i: int,
    ran: nat,
    context: HookContext,
    vars: Map<Seq<char>, Seq<char>>,
)
    requires
        0 <= i < steps.len(),
        context.selection.admits(steps[i]),
        !condition_allows(steps[i], context.env@, vars),
    ensures
        advanced(action, state, steps, i, ran, context, vars) == advanced(
            action,
            state,
            steps,
            i + 1,
            ran + 1,
            context,
            vars,
        ),
{
}

/// Goes on with a hook from its step `from` on.
fn advance(
    steps: &Vec<CommandStep>,
    state: &mut HookState,
    from: usize,
    ran: usize,
    context: &HookContext,
    variables: &mut Variables,
) -> (r: HookAction)
    requires
        ran <= from <= steps.len(),
    ensures
        final(variables)@ == old(variables)@,
        advanced(r, *final(state), steps@, from as int, ran as nat, *context, old(variables)@),
        r is Launch ==> from <= final(state).index < steps.len(),
        r is Launch ==> ran < final(state).number <= ran + (final(state).index - from) + 1,
{
    let n: usize = steps.len();
    let mut i: usize = from;
    let mut count: usize = ran;
    while i < n
        invariant
            n == steps.len(),
            from <= i <= n,
            ran <= from,
            ran <= count <= ran + (i - from),
            variables@ == old(variables)@,
            forall|action: HookAction, st: HookState|
                advanced(action, st, steps@, i as int, count as nat, *context, variables@)
                    ==> #[trigger] advanced(
                    action,
                    st,
                    steps@,
                    from as int,
                    ran as nat,
                    *context,
                    variables@,
                ),
        decreases n - i,
    {
        let step = &steps[i];
        if !context.selection.selects(step) {
            i += 1;
            continue ;
        }
        let action = execute_command_step(
            step,
            StepEvent::Start,
            context.env,
            variables,
            context.work_dir,
            context.allowed_commands,
            context.platform,
        );
        match action {
            StepAction::Launch(inv) => {
                state.index = i;
                state.number = count + 1;
                return HookAction::Launch(inv);
            },
            StepAction::Done(result) => {
                match judge_step(step, result, context.phase_name, count + 1) {
                    Verdict::Continue => {},
                    Verdict::Abort(e) => {
                        return HookAction::Done(Err(e));
                    },
                }
            },
        }
        count += 1;
        i += 1;
    }
    HookAction::Done(Ok(()))
}

/// Starts a hook, or goes on with it after the process of its step in
/// progress ended.
///
/// The steps run in order. A step that fails ends the hook with its
/// error, and the steps behind it do not run; where the step ignores
/// errors the hook goes on instead.
pub fn execute_command_steps(
    steps: &Vec<CommandStep>,
    state: &mut HookState,
    event: StepEvent,
    context: &HookContext,
    variables: &mut Variables,
) -> (r: HookAction)
    requires
        event is Ended ==> old(state).index < steps.len(),
        event is Ended ==> 0 < old(state).number <= old(state).index + 1,
    ensures
        match event {
            StepEvent::Start => final(variables)@ == old(variables)@ && advanced(
                r,
                *final(state),
                steps@,
                0,
                0,
                *context,
                old(variables)@,
            ),
            StepEvent::Ended(outcome) => resumed(
                r,
                *final(state),
                steps@,
                *old(state),
                outcome,
                *context,
                old(variables)@,
                final(variables)@,
            ),
        },
        r is Launch ==> final(state).index < steps.len(),
        r is Launch ==> 0 < final(state).number <= final(state).index + 1,
{
    match event {
        StepEvent::Start => advance(steps, state, 0, 0, context, variables),
        StepEvent::Ended(outcome) => {
            let at = *state;
            let step = &steps[at.index];
            let ghost before = variables@;
            let action = execute_command_step(
                step,
                StepEvent::Ended(outcome),
                context.env,
                variables,
                context.work_dir,
                context.allowed_commands,
                context.platform,
            );
            match action {
                StepAction::Done(result) => {
                    let verdict = judge_step(step, result, context.phase_name, at.number);
                    match verdict {
                        Verdict::Continue => {
                            let r = advance(
                                steps,
                                state,
                                at.index + 1,
                                at.number,
                                context,
                                variables,
                            );
                            assert(ended(result, steps@[at.index as int], outcome, before, variables@));
                            assert(judged(
                                verdict,
                                steps@[at.index as int],
                                result,
                                context.phase_name@,
                                at.number as nat,
                            ));
                            r
                        },
                        Verdict::Abort(e) => {
                            assert(ended(result, steps@[at.index as int], outcome, before, variables@));
                            assert(judged(
                                verdict,
                                steps@[at.index as int],
                                result,
                                context.phase_name@,
                                at.number as nat,
                            ));
                            HookAction::Done(Err(e))
                        },
                    }
                },
                StepAction::Launch(inv) => HookAction::Launch(inv),
            }
        },
    }
}

} // verus!
