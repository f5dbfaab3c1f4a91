use vstd::prelude::*;

use crate::docker::command_view;
use crate::gpu::{get_arg_string, spec_arg_string, Args};
use crate::text::append_str;

verus! {

/// The text before the card settings in the launch script.
pub open spec fn launch_head() -> Seq<char> {
    "docker exec -it stable-diffusion bash -c \"cd /dockerx/stable-diffusion-webui && source venv/bin/activate && REQS_FILE='requirements.txt' "@
}

/// The text after the card settings in the launch script.
pub open spec fn launch_tail() -> Seq<char> {
    "python launch.py\""@
}

/// The launch script for the card settings: the settings are put right
/// before `python launch.py`, with nothing between them.
pub open spec fn spec_launch_script(arg: Args) -> Seq<char> {
    launch_head() + spec_arg_string(arg) + launch_tail()
}

/// The command that starts the web UI inside its container with the card
/// settings.
pub fn launch_script(arg: Args) -> (r: String)
    ensures
        r@ == spec_launch_script(arg),
{
    let mut r = String::new();
    append_str(
        &mut r,
        "docker exec -it stable-diffusion bash -c \"cd /dockerx/stable-diffusion-webui && source venv/bin/activate && REQS_FILE='requirements.txt' ",
    );
    append_str(&mut r, get_arg_string(arg));
    append_str(&mut r, "python launch.py\"");
    r
}

/// Where the launch script is written, under the user's home.
pub open spec fn spec_launch_script_path(home: Seq<char>) -> Seq<char> {
    home + "/dockerx/sh/sd.sh"@
}

/// The path of the launch script under the given home directory.
pub fn launch_script_path(home: &str) -> (r: String)
    ensures
        r@ == spec_launch_script_path(home@),
{
    let mut r = String::new();
    append_str(&mut r, home);
    append_str(&mut r, "/dockerx/sh/sd.sh");
    r
}

/// The files that make the shortcut, each with where it is copied: the
/// start script, the icon and the desktop entry.
pub open spec fn spec_shortcut_copies(home: Seq<char>) -> Seq<(Seq<char>, Seq<char>)> {
    seq![
        (home + "/dockerx/sh/oneclick_start.sh"@, "/usr/share/stable-diffusion/oneclick_start.sh"@),
        (home + "/dockerx/sh/sd.png"@, "/usr/share/icons/sd.png"@),
        (
            home + "/dockerx/sh/stable-diffusion.desktop"@,
            home + "/.local/share/applications/stable-diffusion.desktop"@,
        ),
    ]
}

fn joined(a: &str, b: &str) -> (r: String)
    ensures
        r@ == a@ + b@,
{
    let mut r = String::new();
    append_str(&mut r, a);
    append_str(&mut r, b);
    r
}

/// The copies, from and to, that install the shortcut for the user whose
/// home is given.
pub fn shortcut_copies(home: &str) -> (r: Vec<(String, String)>)
    ensures
        r@.map_values(|c: (String, String)| (c.0@, c.1@)) == spec_shortcut_copies(home@),
{
    let r = vec![
        (
            joined(home, "/dockerx/sh/oneclick_start.sh"),
            "/usr/share/stable-diffusion/oneclick_start.sh".to_owned(),
        ),
        (joined(home, "/dockerx/sh/sd.png"), "/usr/share/icons/sd.png".to_owned()),
        (
            joined(home, "/dockerx/sh/stable-diffusion.desktop"),
            joined(home, "/.local/share/applications/stable-diffusion.desktop"),
        ),
    ];
    assert(r@.map_values(|c: (String, String)| (c.0@, c.1@)) =~= spec_shortcut_copies(home@));
    r
}

/// The command that gives the user the web UI's files under their home.
pub open spec fn spec_chown_command(user: Seq<char>, home: Seq<char>) -> Seq<Seq<char>> {
    seq!["chown"@, user, "-R"@, home + "/dockerx"@]
}

/// The command line that makes the user own `<home>/dockerx` and all in it.
pub fn chown_command(user: &str, home: &str) -> (r: Vec<String>)
    ensures
        command_view(r) == spec_chown_command(user@, home@),
{
    let r = vec!["chown".to_owned(), user.to_owned(), "-R".to_owned(), joined(home, "/dockerx")];
    assert(command_view(r) =~= spec_chown_command(user@, home@));
    r
}

/// The command that makes the launch script executable.
pub open spec fn spec_chmod_command(path: Seq<char>) -> Seq<Seq<char>> {
    seq!["chmod"@, "+x"@, path]
}

/// The command line that makes the file at `path` executable.
pub fn chmod_command(path: &str) -> (r: Vec<String>)
    ensures
        command_view(r) == spec_chmod_command(path@),
{
    let r = vec!["chmod".to_owned(), "+x".to_owned(), path.to_owned()];
    assert(command_view(r) =~= spec_chmod_command(path@));
    r
}

} // verus!
