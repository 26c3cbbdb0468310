use vstd::prelude::*;
use crate::command::{strings_view, BackendCommand, CommandModel};
use crate::config::Settings;
use crate::plan::{
    orphan_plan, orphan_plan_model, orphan_query, orphan_query_model, plan,
    plan_model, plan_wf, DispatchError, Operation, Plan, PlanModel,
};

verus! {

/// What one run of a tool came to.
#[derive(Clone, Copy, Debug, PartialEq, Eq)]
pub struct AttemptOutcome {
    /// The process ran and exited with status zero.
    pub succeeded: bool,
    /// The exit code of a process that ran, where there is one.
    pub exit_signal: Option<i32>,
    /// The outcome is that of a fallback attempt.
    pub attempted_fallback: bool,
}

/// Whether the plan's fallback is owed after these outcomes.
pub open spec fn fallback_due(p: PlanModel, rs: Seq<AttemptOutcome>) -> bool {
    &&& p.fallback is Some
    &&& p.attempts.len() == 1
    &&& rs.len() >= 1
    &&& !rs[0].succeeded
}

/// The command to run next after the outcomes seen so far, or `None` once
/// the plan is done.
pub open spec fn next_command(p: PlanModel, rs: Seq<AttemptOutcome>) -> Option<CommandModel> {
    if rs.len() < p.attempts.len() {
        Some(p.attempts[rs.len() as int])
    } else if rs.len() == p.attempts.len() && fallback_due(p, rs) {
        Some(p.fallback->0)
    } else {
        None
    }
}

pub open spec fn all_succeeded(rs: Seq<AttemptOutcome>) -> bool {
    forall|i: int| 0 <= i < rs.len() ==> #[trigger] rs[i].succeeded
}

/// The exit code of the last failed attempt, if any failed.
pub open spec fn last_failure_signal(rs: Seq<AttemptOutcome>) -> Option<i32>
    decreases rs.len(),
{
    if rs.len() == 0 {
        None
    } else if !rs.last().succeeded {
        rs.last().exit_signal
    } else {
        last_failure_signal(rs.drop_last())
    }
}

/// The outcome of the whole operation: that of the fallback where it ran,
/// else success exactly where every attempt succeeded.
pub open spec fn final_outcome(p: PlanModel, rs: Seq<AttemptOutcome>) -> AttemptOutcome {
    if fallback_due(p, rs) && rs.len() > p.attempts.len() {
        AttemptOutcome {
            succeeded: rs.last().succeeded,
            exit_signal: rs.last().exit_signal,
            attempted_fallback: true,
        }
    } else {
        AttemptOutcome {
            succeeded: all_succeeded(rs),
            exit_signal: last_failure_signal(rs),
            attempted_fallback: false,
        }
    }
}

/// The number of attempts the plan makes after these outcomes.
pub open spec fn attempt_count(p: PlanModel, rs: Seq<AttemptOutcome>) -> nat {
    p.attempts.len() + if fallback_due(p, rs) { 1nat } else { 0nat }
}

/// What the caller is to do next.
#[derive(Debug)]
pub enum Step {
    /// Run the query and hand its output to `record_orphans`.
    QueryOrphans(BackendCommand),
    /// Run the command and hand its outcome to `record_outcome`.
    Run(BackendCommand),
    /// The first attempt failed: run this fallback command and hand its
    /// outcome to `record_outcome`.
    Fallback(BackendCommand),
    /// The operation is over, with this outcome.
    Finished(AttemptOutcome),
}

/// One operation in progress. The caller runs what `next_step` names and
/// reports back, until the step is `Finished`.
#[derive(Debug)]
pub struct Dispatch {
    pub require_confirmation: bool,
    pub awaiting_orphans: bool,
    pub plan: Plan,
    pub results: Vec<AttemptOutcome>,
}

impl AttemptOutcome {
    /// The outcome of a process that ran and ended with this exit code
    /// (`None` where no code was given, as when a signal ended it).
    pub fn exited(code: Option<i32>) -> (r: AttemptOutcome)
        ensures
            r.succeeded == (code == Some(0i32)),
            r.exit_signal == code,
            !r.attempted_fallback,
    {
        let succeeded = match code {
            Some(c) => c == 0,
            None => false,
        };
        AttemptOutcome { succeeded, exit_signal: code, attempted_fallback: false }
    }

    /// The outcome of a process that could not be started at all.
    pub fn not_spawned() -> (r: AttemptOutcome)
        ensures
            !r.succeeded,
            r.exit_signal is None,
            !r.attempted_fallback,
    {
        AttemptOutcome { succeeded: false, exit_signal: None, attempted_fallback: false }
    }
}

impl BackendCommand {
    /// A copy of the command.
    pub fn duplicate(&self) -> (r: BackendCommand)
        ensures
            r@ == self@,
    {
        let mut arguments: Vec<String> = Vec::new();
        let n = self.arguments.len();
        let mut i: usize = 0;
        while i < n
            invariant
                n == self.arguments.len(),
                i <= n,
                strings_view(arguments@) =~= strings_view(self.arguments@.subrange(0, i as int)),
            decreases n - i,
        {
            let ghost before = arguments@;
            arguments.push(self.arguments[i].clone());
            proof {
                assert(strings_view(arguments@) =~= strings_view(before).push(
                    self.arguments@[i as int]@,
                ));
                assert(self.arguments@.subrange(0, i + 1) =~= self.arguments@.subrange(
                    0,
                    i as int,
                ).push(self.arguments@[i as int]));
                assert(strings_view(self.arguments@.subrange(0, i + 1)) =~= strings_view(
                    self.arguments@.subrange(0, i as int),
                ).push(self.arguments@[i as int]@));
            }
            i = i + 1;
        }
        proof {
            assert(self.arguments@.subrange(0, n as int) =~= self.arguments@);
        }
        BackendCommand {
            executable: self.executable.clone(),
            arguments,
            requires_privilege_escalation: self.requires_privilege_escalation,
        }
    }
}

/// Names the packages in the orphan query's output.
pub uninterp spec fn whitespace_words(s: Seq<char>) -> Seq<Seq<char>>;

/// Relies on `str::split_whitespace`: the words of the text, in order; an
/// empty text has none.
#[verifier::external_body]
fn split_words(s: &str) -> (r: Vec<String>)
    ensures
        strings_view(r@) == whitespace_words(s@),
        s@.len() == 0 ==> r@.len() == 0,
{
    s.split_whitespace().map(|w| w.to_owned()).collect()
}

impl Dispatch {
    pub open spec fn wf(&self) -> bool {
        &&& plan_wf(self.plan@)
        &&& self.awaiting_orphans ==> self.plan@.attempts.len() == 0 && self.plan@.fallback is None
            && self.results@.len() == 0
        &&& self.results@.len() <= attempt_count(self.plan@, self.results@)
    }

    /// Starts an operation under the given settings; fails, before any tool
    /// runs, on an empty package name or an unknown first-choice tool.
    pub fn start(op: &Operation, settings: &Settings) -> (r: Result<Dispatch, DispatchError>)
        ensures
            match (r, plan_model(*op, *settings)) {
                (Ok(d), Ok(m)) => {
                    &&& d.wf()
                    &&& d.plan@ == m
                    &&& d.results@.len() == 0
                    &&& d.require_confirmation == settings.confirm
                    &&& d.awaiting_orphans == (*op is RemoveOrphans)
                },
                (Err(e), Err(f)) => e == f,
                _ => false,
            },
    {
        match plan(op, settings) {
            Ok(p) => {
                let awaiting = match op {
                    Operation::RemoveOrphans => true,
                    _ => false,
                };
                Ok(
                    Dispatch {
                        require_confirmation: settings.confirm,
                        awaiting_orphans: awaiting,
                        plan: p,
                        results: Vec::new(),
                    },
                )
            },
            Err(e) => Err(e),
        }
    }

    /// What to do next.
    pub fn next_step(&self) -> (r: Step)
        requires
            self.wf(),
        ensures
            match r {
                Step::QueryOrphans(c) => self.awaiting_orphans && c@ == orphan_query_model(),
                Step::Run(c) => {
                    &&& !self.awaiting_orphans
                    &&& self.results@.len() < self.plan@.attempts.len()
                    &&& next_command(self.plan@, self.results@) == Some(c@)
                },
                Step::Fallback(c) => {
                    &&& !self.awaiting_orphans
                    &&& fallback_due(self.plan@, self.results@)
                    &&& self.results@.len() == self.plan@.attempts.len()
                    &&& next_command(self.plan@, self.results@) == Some(c@)
                },
                Step::Finished(o) => !self.awaiting_orphans && next_command(
                    self.plan@,
                    self.results@,
                ) is None && o == final_outcome(self.plan@, self.results@),
            },
    {
        if self.awaiting_orphans {
            return Step::QueryOrphans(orphan_query());
        }
        let n = self.results.len();
        let ghost rs = self.results@;
        let ghost p = self.plan@;
        if n < self.plan.attempts.len() {
            return Step::Run(self.plan.attempts[n].duplicate());
        }
        let due = match &self.plan.fallback {
            Some(_) => self.plan.attempts.len() == 1 && n >= 1 && !self.results[0].succeeded,
            None => false,
        };
        if due && n == self.plan.attempts.len() {
            match &self.plan.fallback {
                Some(c) => {
                    return Step::Fallback(c.duplicate());
                },
                None => {},
            }
        }
        if due {
            let last = self.results[n - 1];
            return Step::Finished(
                AttemptOutcome {
                    succeeded: last.succeeded,
                    exit_signal: last.exit_signal,
                    attempted_fallback: true,
                },
            );
        }
        let mut ok = true;
        let mut signal: Option<i32> = None;
        let mut i: usize = 0;
        while i < n
            invariant
                n == self.results.len(),
                i <= n,
                ok == all_succeeded(self.results@.subrange(0, i as int)),
                signal == last_failure_signal(self.results@.subrange(0, i as int)),
            decreases n - i,
        {
            let o = self.results[i];
            proof {
                let s = self.results@.subrange(0, i + 1);
                assert(s.drop_last() =~= self.results@.subrange(0, i as int));
                assert(s.last() == o);
            }
            if !o.succeeded {
                ok = false;
                signal = o.exit_signal;
            }
            i = i + 1;
        }
        proof {
            assert(self.results@.subrange(0, n as int) =~= self.results@);
        }
        Step::Finished(AttemptOutcome { succeeded: ok, exit_signal: signal, attempted_fallback: false })
    }

    /// Takes in the output of the orphan query and plans their removal.
    pub fn record_orphans(&mut self, output: &str)
        requires
            old(self).wf(),
            old(self).awaiting_orphans,
        ensures
            final(self).wf(),
            !final(self).awaiting_orphans,
            final(self).results@.len() == 0,
            final(self).require_confirmation == old(self).require_confirmation,
            final(self).plan@ == orphan_plan_model(
                whitespace_words(output@),
                old(self).require_confirmation,
            ),
    {
        let packages = split_words(output);
        self.plan = orphan_plan(&packages, self.require_confirmation);
        self.awaiting_orphans = false;
    }

    /// Takes in the outcome of the command that `next_step` named.
    pub fn record_outcome(&mut self, outcome: AttemptOutcome)
        requires
            old(self).wf(),
            !old(self).awaiting_orphans,
            next_command(old(self).plan@, old(self).results@) is Some,
        ensures
            final(self).wf(),
            !final(self).awaiting_orphans,
            final(self).plan@ == old(self).plan@,
            final(self).require_confirmation == old(self).require_confirmation,
            final(self).results@ == old(self).results@.push(outcome),
    {
        self.results.push(outcome);
    }
}

} // verus!
