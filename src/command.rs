use vstd::prelude::*;

verus! {

/// One of the three outside programs that do the actual package work.
#[derive(Clone, Copy, Debug, PartialEq, Eq, Structural)]
pub enum Tool {
    /// The system package manager, run under privilege escalation.
    Pacman,
    /// The user-repository helper.
    Yay,
    /// The sandboxed-application manager.
    Flatpak,
}

pub open spec fn tool_name(t: Tool) -> Seq<char> {
    match t {
        Tool::Pacman => "pacman"@,
        Tool::Yay => "yay"@,
        Tool::Flatpak => "flatpak"@,
    }
}

/// The argument that makes a tool skip its interactive confirmation.
pub open spec fn auto_confirm_flag(t: Tool) -> Seq<char> {
    match t {
        Tool::Flatpak => "--assumeyes"@,
        _ => "--noconfirm"@,
    }
}

/// Whether the tool is run with elevated privileges.
pub open spec fn tool_privileged(t: Tool) -> bool {
    t == Tool::Pacman
}

impl Tool {
    /// The executable's name.
    pub fn name(&self) -> (r: String)
        ensures
            r@ == tool_name(*self),
    {
        match self {
            Tool::Pacman => "pacman".to_owned(),
            Tool::Yay => "yay".to_owned(),
            Tool::Flatpak => "flatpak".to_owned(),
        }
    }

    /// The argument that skips the tool's confirmation prompt.
    pub fn auto_confirm(&self) -> (r: String)
        ensures
            r@ == auto_confirm_flag(*self),
    {
        match self {
            Tool::Flatpak => "--assumeyes".to_owned(),
            _ => "--noconfirm".to_owned(),
        }
    }
}

/// One invocation of an outside tool.
#[derive(Clone, Debug)]
pub struct BackendCommand {
    pub executable: String,
    pub arguments: Vec<String>,
    pub requires_privilege_escalation: bool,
}

/// What a command is, as values: the executable's name, the arguments in
/// order, and whether it runs with elevated privileges.
pub struct CommandModel {
    pub executable: Seq<char>,
    pub arguments: Seq<Seq<char>>,
    pub privileged: bool,
}

/// The views of a list of strings.
pub open spec fn strings_view(v: Seq<String>) -> Seq<Seq<char>> {
    v.map_values(|s: String| s@)
}

impl View for BackendCommand {
    type V = CommandModel;

    open spec fn view(&self) -> CommandModel {
        CommandModel {
            executable: self.executable@,
            arguments: strings_view(self.arguments@),
            privileged: self.requires_privilege_escalation,
        }
    }
}

/// The confirmation arguments that a mutating command of the tool carries.
pub open spec fn confirm_args(t: Tool, require_confirmation: bool) -> Seq<Seq<char>> {
    if require_confirmation {
        seq![]
    } else {
        seq![auto_confirm_flag(t)]
    }
}

/// A command that changes the system: the tool, its action words, the
/// confirmation argument where the user asked for none, then the operands.
pub open spec fn mutating_model(
    t: Tool,
    action: Seq<Seq<char>>,
    require_confirmation: bool,
    operands: Seq<Seq<char>>,
) -> CommandModel {
    CommandModel {
        executable: tool_name(t),
        arguments: action + confirm_args(t, require_confirmation) + operands,
        privileged: tool_privileged(t),
    }
}

/// Appends copies of `src` to `dst`.
fn extend_strings(dst: &mut Vec<String>, src: &Vec<String>)
    ensures
        strings_view(final(dst)@) == strings_view(old(dst)@) + strings_view(src@),
{
    let n = src.len();
    let ghost start = strings_view(dst@);
    let mut i: usize = 0;
    while i < n
        invariant
            n == src.len(),
            i <= n,
            strings_view(dst@) == start + strings_view(src@.subrange(0, i as int)),
        decreases n - i,
    {
        let ghost before = dst@;
        dst.push(src[i].clone());
        proof {
            assert(src@.subrange(0, i + 1) =~= src@.subrange(0, i as int).push(src@[i as int]));
            assert(strings_view(src@.subrange(0, i + 1)) =~= strings_view(
                src@.subrange(0, i as int),
            ).push(src@[i as int]@));
            assert(strings_view(dst@) =~= strings_view(before).push(src@[i as int]@));
        }
        i = i + 1;
    }
    proof {
        assert(src@.subrange(0, n as int) == src@);
    }
}

/// Builds a command that changes the system.
pub fn mutating_command(
    tool: Tool,
    action: &Vec<String>,
    require_confirmation: bool,
    operands: &Vec<String>,
) -> (r: BackendCommand)
    ensures
        r@ == mutating_model(tool, strings_view(action@), require_confirmation, strings_view(operands@)),
{
    let mut arguments: Vec<String> = Vec::new();
    extend_strings(&mut arguments, action);
    if !require_confirmation {
        let flag = tool.auto_confirm();
        let ghost before = arguments@;
        arguments.push(flag);
        proof {
            assert(strings_view(arguments@) =~= strings_view(before).push(flag@));
        }
    }
    extend_strings(&mut arguments, operands);
    let r = BackendCommand {
        executable: tool.name(),
        arguments,
        requires_privilege_escalation: tool == Tool::Pacman,
    };
    proof {
        let m = mutating_model(tool, strings_view(action@), require_confirmation, strings_view(operands@));
        assert(r@.arguments =~= m.arguments);
    }
    r
}

} // verus!
