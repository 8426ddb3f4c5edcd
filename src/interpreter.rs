use vstd::prelude::*;
use crate::instruction::{Instruction, Token};

verus! {

/// A controller operation failed; `reason` is what the input facility reported.
#[derive(Debug, PartialEq, Eq)]
pub struct ControllerError {
    pub reason: String,
}

/// What the driver of a run does next.
#[derive(Debug, PartialEq, Eq)]
pub enum Step {
    /// Block this run for the given number of milliseconds.
    Sleep(u64),
    /// Perform this action on the controller.
    Invoke(Token),
    /// Log that the action kind is not carried out, and go on.
    Warn,
    /// The run is over.
    Finish,
}

/// Where a run stands.
#[derive(Debug, PartialEq, Eq)]
pub enum RunStatus {
    Running,
    Completed,
    /// A controller operation failed; the rest of the macro is not run.
    Failed(ControllerError),
}

/// The interpretation of one macro's code, one instruction at a time. The
/// driver asks [`MacroRun::next_step`] what to do, does it, and reports the
/// result to [`MacroRun::advance`].
#[derive(Debug, PartialEq, Eq)]
pub struct MacroRun {
    /// The position of the instruction in hand.
    pub pc: usize,
    pub status: RunStatus,
}

/// The controller call that an instruction stands for, if any.
pub open spec fn call_of(i: Instruction) -> Seq<Token> {
    match i {
        Instruction::Token(Token::Unsupported) => Seq::empty(),
        Instruction::Token(t) => seq![t],
        Instruction::Wait(_) => Seq::empty(),
    }
}

/// The controller calls that a sequence of instructions stands for, in list order.
pub open spec fn calls_of(code: Seq<Instruction>) -> Seq<Token>
    decreases code.len(),
{
    if code.len() == 0 {
        Seq::empty()
    } else {
        calls_of(code.drop_last()) + call_of(code.last())
    }
}

/// The step that an instruction asks for.
pub open spec fn step_of(i: Instruction) -> Step {
    match i {
        Instruction::Wait(d) => Step::Sleep(d),
        Instruction::Token(Token::Unsupported) => Step::Warn,
        Instruction::Token(t) => Step::Invoke(t),
    }
}

impl MacroRun {
    /// A running or failed run stands at an instruction of `code`; a completed
    /// one stands past the last.
    pub open spec fn wf(&self, code: Seq<Instruction>) -> bool {
        match self.status {
            RunStatus::Running => self.pc < code.len(),
            RunStatus::Completed => self.pc == code.len(),
            RunStatus::Failed(_) => self.pc < code.len(),
        }
    }

    /// The step that comes next.
    pub open spec fn step_spec(&self, code: Seq<Instruction>) -> Step {
        match self.status {
            RunStatus::Running => step_of(code[self.pc as int]),
            _ => Step::Finish,
        }
    }

    /// The controller calls that have been carried out with success so far.
    pub open spec fn performed(&self, code: Seq<Instruction>) -> Seq<Token> {
        calls_of(code.take(self.pc as int))
    }

    /// A run at the start of `code`.
    pub fn new(code: &Vec<Instruction>) -> (r: MacroRun)
        ensures
            r.wf(code@),
            r.pc == 0,
            code@.len() == 0 <==> r.status is Completed,
            code@.len() > 0 <==> r.status is Running,
    {
        if code.len() == 0 {
            MacroRun { pc: 0, status: RunStatus::Completed }
        } else {
            MacroRun { pc: 0, status: RunStatus::Running }
        }
    }

    /// What to do next: the instruction in hand while the run goes on, and
    /// `Finish` once it has completed or failed.
    pub fn next_step(&self, code: &Vec<Instruction>) -> (s: Step)
        requires
            self.wf(code@),
        ensures
            s == self.step_spec(code@),
    {
        match self.status {
            RunStatus::Running => match &code[self.pc] {
                Instruction::Wait(d) => Step::Sleep(*d),
                Instruction::Token(Token::Unsupported) => Step::Warn,
                Instruction::Token(t) => Step::Invoke(t.duplicate()),
            },
            _ => Step::Finish,
        }
    }

    /// Takes in the result of the step in hand: success moves on to the next
    /// instruction, or completes the run after the last one; a failure ends the run.
    pub fn advance(&mut self, code: &Vec<Instruction>, result: Result<(), ControllerError>)
        requires
            old(self).wf(code@),
            old(self).status is Running,
        ensures
            final(self).wf(code@),
            result is Ok ==> final(self).pc == old(self).pc + 1,
            result is Ok ==> (final(self).status is Completed <==> final(self).pc == code@.len()),
            result is Ok ==> (final(self).status is Running <==> final(self).pc < code@.len()),
            result is Ok ==> final(self).performed(code@) == old(self).performed(code@) + call_of(
                code@[old(self).pc as int],
            ),
            result is Err ==> final(self).pc == old(self).pc,
            result is Err ==> final(self).status == RunStatus::Failed(result->Err_0),
    {
        proof {
            let pc = self.pc as int;
            assert(code@.take(pc + 1).drop_last() =~= code@.take(pc));
        }
        let n: usize = code.len();
        match result {
            Ok(()) => {
                self.pc = self.pc + 1;
                if self.pc == n {
                    self.status = RunStatus::Completed;
                }
            },
            Err(e) => {
                self.status = RunStatus::Failed(e);
            },
        }
    }
}

/// A run that completed has carried out every controller call of its macro,
/// in list order, none skipped: exactly `calls_of(code)`.
pub proof fn lemma_completed_run_in_list_order(run: MacroRun, code: Seq<Instruction>)
    requires
        run.wf(code),
        run.status is Completed,
    ensures
        run.performed(code) == calls_of(code),
{
    assert(code.take(run.pc as int) =~= code);
}

/// A run whose controller call failed does nothing more: its next step is
/// `Finish`, and the calls carried out are those before the failed one.
pub proof fn lemma_failed_run_stops(run: MacroRun, code: Seq<Instruction>)
    requires
        run.wf(code),
        run.status is Failed,
    ensures
        run.step_spec(code) == Step::Finish,
        run.performed(code) == calls_of(code.take(run.pc as int)),
{
}

/// Each instruction adds its own call, and only it, after those of the
/// instructions before it: a `Wait` and an unsupported action add none.
pub proof fn lemma_calls_of_step(code: Seq<Instruction>, pc: int)
    requires
        0 <= pc < code.len(),
    ensures
        calls_of(code.take(pc + 1)) == calls_of(code.take(pc)) + call_of(code[pc]),
        code[pc] is Wait ==> calls_of(code.take(pc + 1)) == calls_of(code.take(pc)),
        code[pc] == Instruction::Token(Token::Unsupported) ==> calls_of(code.take(pc + 1))
            == calls_of(code.take(pc)),
{
    assert(code.take(pc + 1).drop_last() =~= code.take(pc));
    assert(calls_of(code.take(pc)) + Seq::<Token>::empty() =~= calls_of(code.take(pc)));
}

/// At a `Wait(d)` the run asks its driver to sleep `d` milliseconds, and that
/// instruction adds no controller call: the call of the next instruction is
/// asked for only once the driver has reported the sleep done.
pub proof fn lemma_wait_precedes_next_call(run: MacroRun, code: Seq<Instruction>, d: u64)
    requires
        run.wf(code),
        run.status is Running,
        code[run.pc as int] == Instruction::Wait(d),
    ensures
        run.step_spec(code) == Step::Sleep(d),
        calls_of(code.take(run.pc + 1)) == calls_of(code.take(run.pc as int)),
{
    lemma_calls_of_step(code, run.pc as int);
}

/// An action kind that is not carried out asks only for a warning, adds no
/// controller call, and leaves the run going on to the next instruction.
pub proof fn lemma_unsupported_is_skipped(run: MacroRun, code: Seq<Instruction>)
    requires
        run.wf(code),
        run.status is Running,
        code[run.pc as int] == Instruction::Token(Token::Unsupported),
    ensures
        run.step_spec(code) == Step::Warn,
        calls_of(code.take(run.pc + 1)) == calls_of(code.take(run.pc as int)),
{
    lemma_calls_of_step(code, run.pc as int);
}

} // verus!
