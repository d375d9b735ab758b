//! The command that opens a new terminal in a bookmarked directory.
use vstd::prelude::*;

verus! {

/// A program to start and the arguments to give it.
pub struct LaunchCommand {
    pub program: String,
    pub args: Vec<String>,
}

/// The terminal program: the scripting bridge on macOS, the default
/// terminal emulator elsewhere.
pub open spec fn launch_program(on_macos: bool) -> Seq<char> {
    if on_macos {
        "osascript"@
    } else {
        "x-terminal-emulator"@
    }
}

/// The script the terminal program runs: a change of directory, which on
/// macOS the Terminal application is told to run in a new window.
pub open spec fn launch_script(on_macos: bool, path: Seq<char>) -> Seq<char> {
    if on_macos {
        "tell application \"Terminal\" to do script \"cd "@ + path + "\""@
    } else {
        "cd "@ + path
    }
}

/// The command that opens a terminal in `path`: the program, then `-e`
/// and the script.
pub fn terminal_command(on_macos: bool, path: &str) -> (r: LaunchCommand)
    ensures
        r.program@ == launch_program(on_macos),
        r.args@.len() == 2,
        r.args@[0]@ == "-e"@,
        r.args@[1]@ == launch_script(on_macos, path@),
{
    let program = if on_macos {
        String::from_str("osascript")
    } else {
        String::from_str("x-terminal-emulator")
    };
    let script = if on_macos {
        let mut s = String::from_str("tell application \"Terminal\" to do script \"cd ");
        s.append(path);
        s.append("\"");
        s
    } else {
        let mut s = String::from_str("cd ");
        s.append(path);
        s
    };
    let mut args: Vec<String> = Vec::new();
    args.push(String::from_str("-e"));
    args.push(script);
    LaunchCommand { program, args }
}

} // verus!
