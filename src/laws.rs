use vstd::prelude::*;
use crate::command::{auto_confirm_flag, confirm_args, mutating_model, CommandModel, Tool};
use crate::config::{backend_of, Backend, Settings};
use crate::dispatch::{final_outcome, next_command, AttemptOutcome};
use crate::plan::{orphan_plan_model, plan_model, plan_wf, Operation, PlanModel};

verus! {

/// Where a plan declares a fallback and its first attempt fails, the fallback
/// is the next command, nothing runs after it, and the operation's outcome is
/// the fallback's.
pub proof fn fallback_runs_once_after_failure(
    p: PlanModel,
    first: AttemptOutcome,
    second: AttemptOutcome,
)
    requires
        plan_wf(p),
        p.fallback is Some,
        !first.succeeded,
    ensures
        next_command(p, seq![first]) == p.fallback,
        next_command(p, seq![first, second]) is None,
        final_outcome(p, seq![first, second]).succeeded == second.succeeded,
        final_outcome(p, seq![first, second]).attempted_fallback,
{
}

/// Where the first attempt of a plan with a fallback succeeds, the fallback
/// never runs and the operation succeeds.
pub proof fn fallback_skipped_after_success(p: PlanModel, first: AttemptOutcome)
    requires
        plan_wf(p),
        p.fallback is Some,
        first.succeeded,
    ensures
        next_command(p, seq![first]) is None,
        final_outcome(p, seq![first]).succeeded,
        !final_outcome(p, seq![first]).attempted_fallback,
{
}

/// Only installing with the system package manager as first choice declares
/// a fallback, and that fallback installs the same package with the helper.
pub proof fn fallback_only_for_system_install(op: Operation, s: Settings)
    requires
        plan_model(op, s) is Ok,
    ensures
        (plan_model(op, s)->Ok_0.fallback is Some) <==> (op is Install && backend_of(
            s.default_manager@,
        ) == Some(Backend::SystemPM)),
{
}

/// Without a declared fallback, a failed first attempt makes the operation
/// fail, and once the plan's own attempts have run nothing more runs.
pub proof fn failure_without_fallback_is_final(p: PlanModel, rs: Seq<AttemptOutcome>)
    requires
        plan_wf(p),
        p.fallback is None,
        rs.len() == p.attempts.len(),
        rs.len() >= 1,
        !rs[0].succeeded,
    ensures
        next_command(p, rs) is None,
        !final_outcome(p, rs).succeeded,
        !final_outcome(p, rs).attempted_fallback,
{
}

/// Upgrading, installing with the helper as first choice, and the
/// sandboxed-application operations each make exactly one attempt.
pub proof fn single_attempt_operations(op: Operation, s: Settings)
    requires
        plan_model(op, s) is Ok,
        op is Upgrade || op is FlatpakInstall || op is FlatpakUpdate || (op is Install
            && backend_of(s.default_manager@) == Some(Backend::AurHelper)),
    ensures
        plan_model(op, s)->Ok_0.attempts.len() == 1,
        plan_model(op, s)->Ok_0.fallback is None,
{
}

/// An empty list of orphans removes nothing and succeeds; a non-empty one is
/// removed by exactly one command that lists exactly those packages.
pub proof fn orphan_removal(packages: Seq<Seq<char>>, require_confirmation: bool)
    ensures
        packages.len() == 0 ==> {
            let m = orphan_plan_model(packages, require_confirmation);
            &&& m.attempts.len() == 0
            &&& m.fallback is None
            &&& next_command(m, seq![]) is None
            &&& final_outcome(m, seq![]).succeeded
        },
        packages.len() > 0 ==> {
            let m = orphan_plan_model(packages, require_confirmation);
            &&& m.attempts.len() == 1
            &&& m.fallback is None
            &&& m.attempts[0].executable == "pacman"@
            &&& m.attempts[0].arguments == seq!["-Rns"@] + confirm_args(
                Tool::Pacman,
                require_confirmation,
            ) + packages
        },
{
}

/// Cleaning always runs both purges, whatever the first one came to, and
/// succeeds exactly where both succeeded.
pub proof fn clean_needs_both(s: Settings, a: AttemptOutcome, b: AttemptOutcome)
    ensures
        ({
            let m = plan_model(Operation::Clean, s)->Ok_0;
            &&& plan_model(Operation::Clean, s) is Ok
            &&& m.attempts.len() == 2
            &&& next_command(m, seq![a]) == Some(m.attempts[1])
            &&& next_command(m, seq![a, b]) is None
            &&& final_outcome(m, seq![a, b]).succeeded == (a.succeeded && b.succeeded)
        }),
{
}

/// Whether a command carries one of the tools' auto-confirm arguments.
pub open spec fn carries_auto_confirm(c: CommandModel) -> bool {
    c.arguments.contains("--noconfirm"@) || c.arguments.contains("--assumeyes"@)
}

/// Every command that a plan may run: its attempts, then its fallback.
pub open spec fn plan_commands(m: PlanModel) -> Seq<CommandModel> {
    match m.fallback {
        Some(f) => m.attempts.push(f),
        None => m.attempts,
    }
}

pub open spec fn is_flag_word(w: Seq<char>) -> bool {
    w == "--noconfirm"@ || w == "--assumeyes"@
}

/// No package that the operation names is spelled like an auto-confirm argument.
pub open spec fn names_no_flag(op: Operation) -> bool {
    match op {
        Operation::Install(p) => !is_flag_word(p@),
        Operation::FlatpakInstall(p) => !is_flag_word(p@),
        _ => true,
    }
}

proof fn lemma_flag_words()
    ensures
        !is_flag_word("-S"@),
        !is_flag_word("-Syu"@),
        !is_flag_word("--devel"@),
        !is_flag_word("--timeupdate"@),
        !is_flag_word("-Sc"@),
        !is_flag_word("uninstall"@),
        !is_flag_word("--unused"@),
        !is_flag_word("install"@),
        !is_flag_word("update"@),
        !is_flag_word("-Rns"@),
        auto_confirm_flag(Tool::Pacman) == "--noconfirm"@,
        auto_confirm_flag(Tool::Yay) == "--noconfirm"@,
        auto_confirm_flag(Tool::Flatpak) == "--assumeyes"@,
{
    reveal_strlit("-S");
    assert("-S"@.len() == 2);
    reveal_strlit("-Syu");
    assert("-Syu"@.len() == 4);
    reveal_strlit("--devel");
    assert("--devel"@.len() == 7);
    reveal_strlit("--timeupdate");
    assert("--timeupdate"@.len() == 12);
    reveal_strlit("-Sc");
    assert("-Sc"@.len() == 3);
    reveal_strlit("uninstall");
    assert("uninstall"@.len() == 9);
    reveal_strlit("--unused");
    assert("--unused"@.len() == 8);
    reveal_strlit("install");
    assert("install"@.len() == 7);
    reveal_strlit("update");
    assert("update"@.len() == 6);
    reveal_strlit("-Rns");
    assert("-Rns"@.len() == 4);
    reveal_strlit("--noconfirm");
    assert("--noconfirm"@.len() == 11);
    reveal_strlit("--assumeyes");
    assert("--assumeyes"@.len() == 11);
}

proof fn lemma_mutating_flag(
    t: Tool,
    action: Seq<Seq<char>>,
    c: bool,
    operands: Seq<Seq<char>>,
)
    requires
        forall|i: int| 0 <= i < action.len() ==> !is_flag_word(#[trigger] action[i]),
        c ==> forall|i: int| 0 <= i < operands.len() ==> !is_flag_word(#[trigger] operands[i]),
    ensures
        carries_auto_confirm(mutating_model(t, action, c, operands)) == !c,
{
    lemma_flag_words();
    let args = mutating_model(t, action, c, operands).arguments;
    if c {
        assert forall|i: int| 0 <= i < args.len() implies !is_flag_word(#[trigger] args[i]) by {
            if i < action.len() {
                assert(args[i] == action[i]);
            } else {
                assert(args[i] == operands[i - action.len()]);
            }
        }
        assert(!args.contains("--noconfirm"@));
        assert(!args.contains("--assumeyes"@));
    } else {
        assert(args[action.len() as int] == auto_confirm_flag(t));
        assert(is_flag_word(args[action.len() as int]));
    }
}

/// Every command that a plan may run carries the auto-confirm argument where
/// the user does not ask to confirm, and none carries it where they do.
pub proof fn confirmation_flag(op: Operation, s: Settings)
    requires
        plan_model(op, s) is Ok,
        s.confirm ==> names_no_flag(op),
    ensures
        forall|i: int|
            0 <= i < plan_commands(plan_model(op, s)->Ok_0).len() ==> carries_auto_confirm(
                #[trigger] plan_commands(plan_model(op, s)->Ok_0)[i],
            ) == !s.confirm,
{
    lemma_flag_words();
    let c = s.confirm;
    let m = plan_model(op, s)->Ok_0;
    let cmds = plan_commands(m);
    let none: Seq<Seq<char>> = seq![];
    match op {
        Operation::Install(p) => {
            let pk = seq![p@];
            lemma_mutating_flag(Tool::Pacman, seq!["-S"@], c, pk);
            lemma_mutating_flag(Tool::Yay, seq!["-S"@], c, pk);
        },
        Operation::Update => {
            lemma_mutating_flag(Tool::Pacman, seq!["-Syu"@], c, none);
            lemma_mutating_flag(Tool::Flatpak, seq!["update"@], c, none);
        },
        Operation::Upgrade => {
            lemma_mutating_flag(Tool::Yay, seq!["-Syu"@, "--devel"@, "--timeupdate"@], c, none);
        },
        Operation::Clean => {
            lemma_mutating_flag(Tool::Pacman, seq!["-Sc"@], c, none);
            lemma_mutating_flag(Tool::Flatpak, seq!["uninstall"@, "--unused"@], c, none);
        },
        Operation::RemoveOrphans => {},
        Operation::FlatpakInstall(p) => {
            lemma_mutating_flag(Tool::Flatpak, seq!["install"@], c, seq![p@]);
        },
        Operation::FlatpakUpdate => {
            lemma_mutating_flag(Tool::Flatpak, seq!["update"@], c, none);
        },
    }
}

/// The command that removes orphans carries the auto-confirm argument exactly
/// where the user does not ask to confirm.
pub proof fn orphan_confirmation_flag(packages: Seq<Seq<char>>, require_confirmation: bool)
    requires
        packages.len() > 0,
        require_confirmation ==> forall|i: int|
            0 <= i < packages.len() ==> !is_flag_word(#[trigger] packages[i]),
    ensures
        carries_auto_confirm(orphan_plan_model(packages, require_confirmation).attempts[0])
            == !require_confirmation,
{
    lemma_flag_words();
    lemma_mutating_flag(Tool::Pacman, seq!["-Rns"@], require_confirmation, packages);
}

/// The plan never depends on the progress style.
pub proof fn progress_style_does_not_change_plan(op: Operation, s: Settings, t: Settings)
    requires
        s.default_manager@ == t.default_manager@,
        s.confirm == t.confirm,
    ensures
        plan_model(op, s) == plan_model(op, t),
{
}

} // verus!
