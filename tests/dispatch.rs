use zenit::command::{BackendCommand, Tool};
use zenit::config::{Backend, Config, ProgressStyle, Settings};
use zenit::dispatch::{AttemptOutcome, Dispatch, Step};
use zenit::plan::{orphan_plan, orphan_query, plan, DispatchError, Operation};

fn ok() -> AttemptOutcome {
    AttemptOutcome::exited(Some(0))
}

fn failed(code: Option<i32>) -> AttemptOutcome {
    match code {
        Some(c) => AttemptOutcome::exited(Some(c)),
        None => AttemptOutcome::not_spawned(),
    }
}

fn settings(manager: &str, confirm: bool) -> Settings {
    Settings {
        default_manager: manager.to_string(),
        confirm,
        progress_style: "fancy".to_string(),
    }
}

fn args(c: &BackendCommand) -> Vec<&str> {
    c.arguments.iter().map(|a| a.as_str()).collect()
}

/// Runs one operation against a scripted tool: each run takes the next
/// outcome in order, and the orphan query prints `orphans`.
fn drive(
    op: &Operation,
    s: &Settings,
    outcomes: &[AttemptOutcome],
    orphans: &str,
) -> (Vec<BackendCommand>, AttemptOutcome, Dispatch) {
    let mut d = Dispatch::start(op, s).expect("operation starts");
    let mut ran = Vec::new();
    let mut next = 0;
    loop {
        match d.next_step() {
            Step::QueryOrphans(_) => d.record_orphans(orphans),
            Step::Run(c) | Step::Fallback(c) => {
                ran.push(c);
                let o = outcomes[next];
                next += 1;
                d.record_outcome(o);
            }
            Step::Finished(o) => return (ran, o, d),
        }
    }
}

#[test]
fn install_falls_back_to_helper_after_spawn_failure() {
    let s = settings("pacman", false);
    let (ran, out, _) = drive(&Operation::Install("vim".to_string()), &s, &[failed(None), ok()], "");
    assert_eq!(ran.len(), 2);
    assert_eq!(ran[0].executable, "pacman");
    assert!(ran[0].requires_privilege_escalation);
    assert_eq!(args(&ran[0]), vec!["-S", "--noconfirm", "vim"]);
    assert_eq!(ran[1].executable, "yay");
    assert!(!ran[1].requires_privilege_escalation);
    assert_eq!(args(&ran[1]), vec!["-S", "--noconfirm", "vim"]);
    assert!(out.succeeded);
    assert!(out.attempted_fallback);
}

#[test]
fn install_fallback_failure_is_final() {
    let s = settings("pacman", false);
    let (ran, out, _) =
        drive(&Operation::Install("vim".to_string()), &s, &[failed(None), failed(Some(1))], "");
    assert_eq!(ran.len(), 2);
    assert!(!out.succeeded);
    assert_eq!(out.exit_signal, Some(1));
    assert!(out.attempted_fallback);
}

#[test]
fn install_success_skips_fallback() {
    let s = settings("pacman", false);
    let (ran, out, _) = drive(&Operation::Install("vim".to_string()), &s, &[ok()], "");
    assert_eq!(ran.len(), 1);
    assert!(out.succeeded);
    assert!(!out.attempted_fallback);
}

#[test]
fn install_with_helper_makes_one_attempt() {
    let s = settings("yay", false);
    let (ran, out, _) = drive(&Operation::Install("vim".to_string()), &s, &[failed(Some(1))], "");
    assert_eq!(ran.len(), 1);
    assert_eq!(ran[0].executable, "yay");
    assert_eq!(args(&ran[0]), vec!["-S", "--noconfirm", "vim"]);
    assert!(!out.succeeded);
    assert_eq!(out.exit_signal, Some(1));
    assert!(!out.attempted_fallback);
}

#[test]
fn upgrade_has_development_and_time_flags() {
    let s = Settings::default();
    let (ran, out, _) = drive(&Operation::Upgrade, &s, &[ok()], "");
    assert_eq!(ran.len(), 1);
    assert_eq!(ran[0].executable, "yay");
    assert_eq!(args(&ran[0]), vec!["-Syu", "--devel", "--timeupdate", "--noconfirm"]);
    assert!(out.succeeded);
}

#[test]
fn upgrade_failure_is_final() {
    let s = Settings::default();
    let (ran, out, _) = drive(&Operation::Upgrade, &s, &[failed(Some(2))], "");
    assert_eq!(ran.len(), 1);
    assert!(!out.succeeded);
    assert_eq!(out.exit_signal, Some(2));
}

#[test]
fn invalid_progress_style_still_dispatches() {
    let s = Settings {
        default_manager: "pacman".to_string(),
        confirm: false,
        progress_style: "rainbow".to_string(),
    };
    assert_eq!(s.style(), ProgressStyle::Fancy);
    let (ran, out, _) = drive(&Operation::Install("vim".to_string()), &s, &[ok()], "");
    assert_eq!(ran.len(), 1);
    assert_eq!(args(&ran[0]), vec!["-S", "--noconfirm", "vim"]);
    assert!(out.succeeded);
}

#[test]
fn simple_style_is_recognised() {
    let s = Settings {
        default_manager: "pacman".to_string(),
        confirm: false,
        progress_style: "simple".to_string(),
    };
    assert_eq!(s.style(), ProgressStyle::Simple);
}

#[test]
fn defaults() {
    let c = Config::default();
    assert_eq!(c.settings.default_manager, "pacman");
    assert!(!c.settings.confirm);
    assert_eq!(c.settings.progress_style, "fancy");
    assert_eq!(c.settings.primary_backend(), Some(Backend::SystemPM));
    assert_eq!(c.settings.style(), ProgressStyle::Fancy);
}

#[test]
fn unknown_backend_is_refused() {
    let s = settings("apt", false);
    assert_eq!(s.primary_backend(), None);
    let r = Dispatch::start(&Operation::Install("vim".to_string()), &s);
    assert!(matches!(r, Err(DispatchError::UnsupportedBackend)));
}

#[test]
fn unknown_backend_does_not_block_other_operations() {
    let s = settings("apt", false);
    let (ran, out, _) = drive(&Operation::Upgrade, &s, &[ok()], "");
    assert_eq!(ran.len(), 1);
    assert!(out.succeeded);
}

#[test]
fn empty_package_name_is_refused() {
    let s = Settings::default();
    let r = plan(&Operation::Install(String::new()), &s);
    assert!(matches!(r, Err(DispatchError::EmptyPackageName)));
    let r = plan(&Operation::FlatpakInstall(String::new()), &s);
    assert!(matches!(r, Err(DispatchError::EmptyPackageName)));
}

#[test]
fn no_orphans_is_a_successful_no_op() {
    let s = Settings::default();
    let (ran, out, _) = drive(&Operation::RemoveOrphans, &s, &[], "");
    assert!(ran.is_empty());
    assert!(out.succeeded);
}

#[test]
fn orphans_are_removed_in_one_command() {
    let s = Settings::default();
    let (ran, out, _) = drive(&Operation::RemoveOrphans, &s, &[ok()], "libfoo\nlibbar\n");
    assert_eq!(ran.len(), 1);
    assert_eq!(ran[0].executable, "pacman");
    assert!(ran[0].requires_privilege_escalation);
    assert_eq!(args(&ran[0]), vec!["-Rns", "--noconfirm", "libfoo", "libbar"]);
    assert!(out.succeeded);
}

#[test]
fn orphan_removal_failure_is_final() {
    let s = Settings::default();
    let (ran, out, _) = drive(&Operation::RemoveOrphans, &s, &[failed(Some(1))], "libfoo\n");
    assert_eq!(ran.len(), 1);
    assert!(!out.succeeded);
}

#[test]
fn orphan_query_is_read_only() {
    let q = orphan_query();
    assert_eq!(q.executable, "pacman");
    assert_eq!(args(&q), vec!["-Qdtq"]);
    assert!(!q.requires_privilege_escalation);
}

#[test]
fn orphan_plan_of_nothing_is_empty() {
    let p = orphan_plan(&Vec::new(), false);
    assert!(p.attempts.is_empty());
    assert!(p.fallback.is_none());
}

#[test]
fn clean_runs_both_purges_and_needs_both() {
    let s = Settings::default();
    for (a, b, want) in [(true, true, true), (true, false, false), (false, true, false), (false, false, false)] {
        let oa = if a { ok() } else { failed(Some(1)) };
        let ob = if b { ok() } else { failed(Some(3)) };
        let (ran, out, d) = drive(&Operation::Clean, &s, &[oa, ob], "");
        assert_eq!(ran.len(), 2);
        assert_eq!(ran[0].executable, "pacman");
        assert_eq!(args(&ran[0]), vec!["-Sc", "--noconfirm"]);
        assert_eq!(ran[1].executable, "flatpak");
        assert_eq!(args(&ran[1]), vec!["uninstall", "--unused", "--assumeyes"]);
        assert_eq!(out.succeeded, want);
        assert_eq!(d.results, vec![oa, ob]);
    }
}

#[test]
fn update_runs_system_then_flatpak() {
    let s = Settings::default();
    let (ran, out, _) = drive(&Operation::Update, &s, &[failed(Some(1)), ok()], "");
    assert_eq!(ran.len(), 2);
    assert_eq!(ran[0].executable, "pacman");
    assert_eq!(args(&ran[0]), vec!["-Syu", "--noconfirm"]);
    assert_eq!(ran[1].executable, "flatpak");
    assert_eq!(args(&ran[1]), vec!["update", "--assumeyes"]);
    assert!(!out.succeeded);
    assert_eq!(out.exit_signal, Some(1));
}

#[test]
fn flatpak_operations() {
    let s = Settings::default();
    let (ran, out, _) = drive(&Operation::FlatpakInstall("org.gimp.GIMP".to_string()), &s, &[ok()], "");
    assert_eq!(ran.len(), 1);
    assert_eq!(ran[0].executable, "flatpak");
    assert_eq!(args(&ran[0]), vec!["install", "--assumeyes", "org.gimp.GIMP"]);
    assert!(out.succeeded);
    let (ran, _, _) = drive(&Operation::FlatpakUpdate, &s, &[ok()], "");
    assert_eq!(args(&ran[0]), vec!["update", "--assumeyes"]);
}

#[test]
fn confirmation_leaves_prompts_enabled() {
    let s = settings("pacman", true);
    let ops = [
        Operation::Install("vim".to_string()),
        Operation::Update,
        Operation::Upgrade,
        Operation::Clean,
        Operation::FlatpakInstall("org.gimp.GIMP".to_string()),
        Operation::FlatpakUpdate,
    ];
    for op in ops.iter() {
        let p = plan(op, &s).expect("plan");
        let mut all: Vec<&BackendCommand> = p.attempts.iter().collect();
        if let Some(f) = &p.fallback {
            all.push(f);
        }
        for c in all {
            assert!(!c.arguments.iter().any(|a| a == "--noconfirm" || a == "--assumeyes"));
        }
    }
    let (ran, _, _) = drive(&Operation::RemoveOrphans, &s, &[ok()], "libfoo\n");
    assert_eq!(args(&ran[0]), vec!["-Rns", "libfoo"]);
}

#[test]
fn no_confirmation_adds_flag_everywhere() {
    let s = settings("pacman", false);
    let p = plan(&Operation::Install("vim".to_string()), &s).expect("plan");
    assert!(p.attempts[0].arguments.iter().any(|a| a == "--noconfirm"));
    assert!(p.fallback.as_ref().unwrap().arguments.iter().any(|a| a == "--noconfirm"));
}

#[test]
fn tool_names_and_flags() {
    assert_eq!(Tool::Pacman.name(), "pacman");
    assert_eq!(Tool::Yay.name(), "yay");
    assert_eq!(Tool::Flatpak.name(), "flatpak");
    assert_eq!(Tool::Pacman.auto_confirm(), "--noconfirm");
    assert_eq!(Tool::Flatpak.auto_confirm(), "--assumeyes");
}

#[test]
fn duplicate_copies_a_command() {
    let c = orphan_query();
    let d = c.duplicate();
    assert_eq!(d.executable, c.executable);
    assert_eq!(d.arguments, c.arguments);
    assert_eq!(d.requires_privilege_escalation, c.requires_privilege_escalation);
}

#[test]
fn exit_codes_decide_success() {
    let o = AttemptOutcome::exited(Some(0));
    assert!(o.succeeded);
    assert_eq!(o.exit_signal, Some(0));
    let o = AttemptOutcome::exited(Some(127));
    assert!(!o.succeeded);
    assert_eq!(o.exit_signal, Some(127));
    let o = AttemptOutcome::exited(None);
    assert!(!o.succeeded);
    let o = AttemptOutcome::not_spawned();
    assert!(!o.succeeded);
    assert_eq!(o.exit_signal, None);
    assert!(!o.attempted_fallback);
}

#[test]
fn fallback_step_is_marked() {
    let s = settings("pacman", false);
    let mut d = Dispatch::start(&Operation::Install("vim".to_string()), &s).expect("starts");
    assert!(matches!(d.next_step(), Step::Run(_)));
    d.record_outcome(AttemptOutcome::not_spawned());
    match d.next_step() {
        Step::Fallback(c) => assert_eq!(c.executable, "yay"),
        _ => panic!("fallback expected"),
    }
    d.record_outcome(AttemptOutcome::exited(Some(0)));
    match d.next_step() {
        Step::Finished(o) => {
            assert!(o.succeeded);
            assert!(o.attempted_fallback);
        }
        _ => panic!("finished expected"),
    }
}
