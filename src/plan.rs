use vstd::prelude::*;
use crate::command::{
    mutating_command, mutating_model, strings_view, BackendCommand, CommandModel, Tool,
};
use crate::config::{backend_of, Backend, Settings};

verus! {

/// What the user asked for.
#[derive(Clone, Debug)]
pub enum Operation {
    Install(String),
    Update,
    Upgrade,
    Clean,
    RemoveOrphans,
    FlatpakInstall(String),
    FlatpakUpdate,
}

/// Why a request cannot be carried out before any tool is run.
#[derive(Clone, Copy, Debug, PartialEq, Eq, Structural)]
pub enum DispatchError {
    /// An operation on one package was given an empty name.
    EmptyPackageName,
    /// The configured first-choice tool is not one that is known.
    UnsupportedBackend,
}

/// The attempts of one operation: every one of `attempts` runs, in order;
/// `fallback` runs after them only where the first attempt failed.
#[derive(Debug)]
pub struct Plan {
    pub attempts: Vec<BackendCommand>,
    pub fallback: Option<BackendCommand>,
}

pub struct PlanModel {
    pub attempts: Seq<CommandModel>,
    pub fallback: Option<CommandModel>,
}

pub open spec fn commands_view(v: Seq<BackendCommand>) -> Seq<CommandModel> {
    v.map_values(|c: BackendCommand| c@)
}

impl View for Plan {
    type V = PlanModel;

    open spec fn view(&self) -> PlanModel {
        PlanModel {
            attempts: commands_view(self.attempts@),
            fallback: match self.fallback {
                Some(c) => Some(c@),
                None => None,
            },
        }
    }
}

/// A fallback only ever follows a single attempt.
pub open spec fn plan_wf(p: PlanModel) -> bool {
    p.fallback is Some ==> p.attempts.len() == 1
}

pub open spec fn install_model(t: Tool, package: Seq<char>, require_confirmation: bool) -> CommandModel {
    mutating_model(t, seq!["-S"@], require_confirmation, seq![package])
}

pub open spec fn system_update_model(c: bool) -> CommandModel {
    mutating_model(Tool::Pacman, seq!["-Syu"@], c, seq![])
}

pub open spec fn upgrade_model(c: bool) -> CommandModel {
    mutating_model(Tool::Yay, seq!["-Syu"@, "--devel"@, "--timeupdate"@], c, seq![])
}

pub open spec fn cache_purge_model(c: bool) -> CommandModel {
    mutating_model(Tool::Pacman, seq!["-Sc"@], c, seq![])
}

pub open spec fn runtime_purge_model(c: bool) -> CommandModel {
    mutating_model(Tool::Flatpak, seq!["uninstall"@, "--unused"@], c, seq![])
}

pub open spec fn flatpak_install_model(package: Seq<char>, c: bool) -> CommandModel {
    mutating_model(Tool::Flatpak, seq!["install"@], c, seq![package])
}

pub open spec fn flatpak_update_model(c: bool) -> CommandModel {
    mutating_model(Tool::Flatpak, seq!["update"@], c, seq![])
}

pub open spec fn remove_model(packages: Seq<Seq<char>>, c: bool) -> CommandModel {
    mutating_model(Tool::Pacman, seq!["-Rns"@], c, packages)
}

/// The read-only query that lists packages no longer needed by anything.
pub open spec fn orphan_query_model() -> CommandModel {
    CommandModel { executable: "pacman"@, arguments: seq!["-Qdtq"@], privileged: false }
}

pub open spec fn single(c: CommandModel) -> PlanModel {
    PlanModel { attempts: seq![c], fallback: None }
}

/// Removing the orphans found: nothing to do where there are none.
pub open spec fn orphan_plan_model(packages: Seq<Seq<char>>, c: bool) -> PlanModel {
    if packages.len() == 0 {
        PlanModel { attempts: seq![], fallback: None }
    } else {
        single(remove_model(packages, c))
    }
}

/// The plan of an operation under the given settings. For the removal of
/// orphans the plan is only known once the query has answered; it is empty here.
pub open spec fn plan_model(op: Operation, s: Settings) -> Result<PlanModel, DispatchError> {
    let c = s.confirm;
    match op {
        Operation::Install(p) => {
            if p@.len() == 0 {
                Err(DispatchError::EmptyPackageName)
            } else {
                match backend_of(s.default_manager@) {
                    Some(Backend::SystemPM) => Ok(
                        PlanModel {
                            attempts: seq![install_model(Tool::Pacman, p@, c)],
                            fallback: Some(install_model(Tool::Yay, p@, c)),
                        },
                    ),
                    Some(Backend::AurHelper) => Ok(single(install_model(Tool::Yay, p@, c))),
                    None => Err(DispatchError::UnsupportedBackend),
                }
            }
        },
        Operation::Update => Ok(
            PlanModel {
                attempts: seq![system_update_model(c), flatpak_update_model(c)],
                fallback: None,
            },
        ),
        Operation::Upgrade => Ok(single(upgrade_model(c))),
        Operation::Clean => Ok(
            PlanModel {
                attempts: seq![cache_purge_model(c), runtime_purge_model(c)],
                fallback: None,
            },
        ),
        Operation::RemoveOrphans => Ok(PlanModel { attempts: seq![], fallback: None }),
        Operation::FlatpakInstall(p) => {
            if p@.len() == 0 {
                Err(DispatchError::EmptyPackageName)
            } else {
                Ok(single(flatpak_install_model(p@, c)))
            }
        },
        Operation::FlatpakUpdate => Ok(single(flatpak_update_model(c))),
    }
}

fn words1(a: &str) -> (r: Vec<String>)
    ensures
        strings_view(r@) == seq![a@],
{
    let mut r: Vec<String> = Vec::new();
    r.push(a.to_owned());
    proof {
        assert(strings_view(r@) =~= seq![a@]);
    }
    r
}

fn words2(a: &str, b: &str) -> (r: Vec<String>)
    ensures
        strings_view(r@) == seq![a@, b@],
{
    let mut r: Vec<String> = Vec::new();
    r.push(a.to_owned());
    r.push(b.to_owned());
    proof {
        assert(strings_view(r@) =~= seq![a@, b@]);
    }
    r
}

fn words3(a: &str, b: &str, c: &str) -> (r: Vec<String>)
    ensures
        strings_view(r@) == seq![a@, b@, c@],
{
    let mut r: Vec<String> = Vec::new();
    r.push(a.to_owned());
    r.push(b.to_owned());
    r.push(c.to_owned());
    proof {
        assert(strings_view(r@) =~= seq![a@, b@, c@]);
    }
    r
}

fn no_words() -> (r: Vec<String>)
    ensures
        strings_view(r@) == Seq::<Seq<char>>::empty(),
{
    let r: Vec<String> = Vec::new();
    proof {
        assert(strings_view(r@) =~= Seq::<Seq<char>>::empty());
    }
    r
}

fn package_words(package: &String) -> (r: Vec<String>)
    ensures
        strings_view(r@) == seq![package@],
{
    let mut r: Vec<String> = Vec::new();
    r.push(package.clone());
    proof {
        assert(strings_view(r@) =~= seq![package@]);
    }
    r
}

fn plan_of_one(c: BackendCommand) -> (r: Plan)
    ensures
        r@ == single(c@),
{
    let mut attempts: Vec<BackendCommand> = Vec::new();
    attempts.push(c);
    let r = Plan { attempts, fallback: None };
    proof {
        assert(r@.attempts =~= seq![c@]);
    }
    r
}

fn plan_of_two(a: BackendCommand, b: BackendCommand) -> (r: Plan)
    ensures
        r@ == (PlanModel { attempts: seq![a@, b@], fallback: None }),
{
    let mut attempts: Vec<BackendCommand> = Vec::new();
    attempts.push(a);
    attempts.push(b);
    let r = Plan { attempts, fallback: None };
    proof {
        assert(r@.attempts =~= seq![a@, b@]);
    }
    r
}

/// The query command that lists orphaned packages, one name per line.
pub fn orphan_query() -> (r: BackendCommand)
    ensures
        r@ == orphan_query_model(),
{
    let r = BackendCommand {
        executable: "pacman".to_owned(),
        arguments: words1("-Qdtq"),
        requires_privilege_escalation: false,
    };
    r
}

/// The plan that removes the given orphaned packages in one command, or does
/// nothing where the list is empty.
pub fn orphan_plan(packages: &Vec<String>, require_confirmation: bool) -> (r: Plan)
    ensures
        r@ == orphan_plan_model(strings_view(packages@), require_confirmation),
        plan_wf(r@),
{
    if packages.len() == 0 {
        let r = Plan { attempts: Vec::new(), fallback: None };
        proof {
            assert(r@.attempts =~= Seq::<CommandModel>::empty());
        }
        r
    } else {
        plan_of_one(mutating_command(Tool::Pacman, &words1("-Rns"), require_confirmation, packages))
    }
}

/// The plan of an operation: which tools run, with what arguments, and the
/// attempt that follows a failure, if any.
pub fn plan(op: &Operation, settings: &Settings) -> (r: Result<Plan, DispatchError>)
    ensures
        match (r, plan_model(*op, *settings)) {
            (Ok(p), Ok(m)) => p@ == m,
            (Err(e), Err(f)) => e == f,
            _ => false,
        },
        r matches Ok(p) ==> plan_wf(p@),
{
    let c = settings.confirm;
    match op {
        Operation::Install(p) => {
            if p.as_str().is_empty() {
                return Err(DispatchError::EmptyPackageName);
            }
            match settings.primary_backend() {
                Some(Backend::SystemPM) => {
                    let primary = mutating_command(Tool::Pacman, &words1("-S"), c, &package_words(p));
                    let second = mutating_command(Tool::Yay, &words1("-S"), c, &package_words(p));
                    let mut attempts: Vec<BackendCommand> = Vec::new();
                    attempts.push(primary);
                    let r = Plan { attempts, fallback: Some(second) };
                    proof {
                        assert(r@.attempts =~= seq![primary@]);
                    }
                    Ok(r)
                },
                Some(Backend::AurHelper) => Ok(
                    plan_of_one(mutating_command(Tool::Yay, &words1("-S"), c, &package_words(p))),
                ),
                None => Err(DispatchError::UnsupportedBackend),
            }
        },
        Operation::Update => Ok(
            plan_of_two(
                mutating_command(Tool::Pacman, &words1("-Syu"), c, &no_words()),
                mutating_command(Tool::Flatpak, &words1("update"), c, &no_words()),
            ),
        ),
        Operation::Upgrade => Ok(
            plan_of_one(
                mutating_command(Tool::Yay, &words3("-Syu", "--devel", "--timeupdate"), c, &no_words()),
            ),
        ),
        Operation::Clean => Ok(
            plan_of_two(
                mutating_command(Tool::Pacman, &words1("-Sc"), c, &no_words()),
                mutating_command(Tool::Flatpak, &words2("uninstall", "--unused"), c, &no_words()),
            ),
        ),
        Operation::RemoveOrphans => {
            let r = Plan { attempts: Vec::new(), fallback: None };
            proof {
                assert(r@.attempts =~= Seq::<CommandModel>::empty());
            }
            Ok(r)
        },
        Operation::FlatpakInstall(p) => {
            if p.as_str().is_empty() {
                return Err(DispatchError::EmptyPackageName);
            }
            Ok(plan_of_one(mutating_command(Tool::Flatpak, &words1("install"), c, &package_words(p))))
        },
        Operation::FlatpakUpdate => Ok(
            plan_of_one(mutating_command(Tool::Flatpak, &words1("update"), c, &no_words())),
        ),
    }
}

} // verus!
