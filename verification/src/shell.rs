//! Shell integration: the `pp` helper function for each supported shell,
//! and the clipboard programs tried on each platform.

use vstd::prelude::*;
use crate::text::views;

verus! {

/// The shells for which a `pp` helper can be emitted.
#[derive(Debug, Clone, Copy, PartialEq, Eq, Structural)]
pub enum Shell {
    Bash,
    Zsh,
    Fish,
}

/// The helper for bash and zsh, to paste into `~/.bashrc` or `~/.zshrc`.
pub const POSIX_SHELL_INIT: &'static str = "# Add to ~/.bashrc or ~/.zshrc:
#   echo \"fix the auth bug in auth.ts\" | pp
#   pp \"remember: format timestamps as ISO\" --tags ts
#   pp-fix() { pp \"$1\" --tags fix; }

pp() {
    if [ $# -eq 0 ]; then
        # stdin mode
        command pinpoint log --source \"${PP_SOURCE:-shell}\"
    else
        # arg mode: pass the text and any options on to pinpoint
        command pinpoint log \"$@\" --source \"${PP_SOURCE:-shell}\"
    fi
}
";

/// The helper for fish, to paste into `~/.config/fish/config.fish`.
pub const FISH_INIT: &'static str = "# Add to ~/.config/fish/config.fish:
function pp
    if test (count $argv) -eq 0
        command pinpoint log --source \"$PP_SOURCE\"
    else
        command pinpoint log $argv --source \"$PP_SOURCE\"
    end
end
";

/// The helper script for `shell`; bash and zsh share one. With arguments,
/// the helper passes them all on to `pinpoint log`, so options after the
/// text stay options; without any it lets `pinpoint log` read the piped text.
pub fn init_script(shell: Shell) -> (script: &'static str)
    ensures
        script@ == (if shell is Fish { FISH_INIT@ } else { POSIX_SHELL_INIT@ }),
{
    match shell {
        Shell::Fish => FISH_INIT,
        _ => POSIX_SHELL_INIT,
    }
}

/// The platforms whose clipboard programs differ.
#[derive(Debug, Clone, Copy, PartialEq, Eq, Structural)]
pub enum Platform {
    Windows,
    MacOs,
    Other,
}

/// A program that takes text on its standard input and puts it on the
/// clipboard, with its arguments.
#[derive(Debug, Clone, PartialEq, Eq)]
pub struct ClipboardCommand {
    pub program: String,
    pub args: Vec<String>,
}

/// The program name and arguments of `c`, as character sequences.
pub open spec fn command_view(c: ClipboardCommand) -> (Seq<char>, Seq<Seq<char>>) {
    (c.program@, views(c.args@))
}

/// The clipboard programs to try on `platform`, in order: `clip` on
/// Windows, `pbcopy` on macOS, and elsewhere `wl-copy`, then `xclip
/// -selection clipboard`.
pub open spec fn clipboard_plan(platform: Platform) -> Seq<(Seq<char>, Seq<Seq<char>>)> {
    match platform {
        Platform::Windows => seq![("clip"@, Seq::empty())],
        Platform::MacOs => seq![("pbcopy"@, Seq::empty())],
        Platform::Other => seq![("wl-copy"@, Seq::empty()), ("xclip"@, seq!["-selection"@, "clipboard"@])],
    }
}

fn command(program: &str, args: Vec<String>) -> (c: ClipboardCommand)
    ensures
        c.program@ == program@,
        c.args@ == args@,
{
    ClipboardCommand { program: String::from_str(program), args }
}

/// The clipboard programs to try on `platform`, in order.
pub fn clipboard_commands(platform: Platform) -> (cmds: Vec<ClipboardCommand>)
    ensures
        cmds@.map_values(|c: ClipboardCommand| command_view(c)) == clipboard_plan(platform),
{
    let mut cmds: Vec<ClipboardCommand> = Vec::new();
    match platform {
        Platform::Windows => {
            cmds.push(command("clip", Vec::new()));
            assert(views(cmds@[0].args@) =~= Seq::empty());
            assert(cmds@.map_values(|c: ClipboardCommand| command_view(c)) =~= clipboard_plan(platform));
        },
        Platform::MacOs => {
            cmds.push(command("pbcopy", Vec::new()));
            assert(views(cmds@[0].args@) =~= Seq::empty());
            assert(cmds@.map_values(|c: ClipboardCommand| command_view(c)) =~= clipboard_plan(platform));
        },
        Platform::Other => {
            cmds.push(command("wl-copy", Vec::new()));
            let mut args: Vec<String> = Vec::new();
            args.push(String::from_str("-selection"));
            args.push(String::from_str("clipboard"));
            assert(views(args@) =~= seq!["-selection"@, "clipboard"@]);
            cmds.push(command("xclip", args));
            assert(views(cmds@[0].args@) =~= Seq::empty());
            assert(cmds@.map_values(|c: ClipboardCommand| command_view(c)) =~= clipboard_plan(platform));
        },
    }
    cmds
}

} // verus!
