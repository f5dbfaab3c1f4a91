use vstd::prelude::*;

use crate::text::{contains_text, str_contains};

verus! {

/// The desktop environment that is running.
#[derive(Clone, Copy, Debug, PartialEq, Eq, Structural)]
pub enum Desktop {
    Gnome,
    KDE,
    Others,
}

/// The desktop that a listing of running processes (`pgrep -l gnome|kde`)
/// shows: a GNOME process name comes first, then a KDE one.
pub open spec fn spec_check_desktop(process_list: Seq<char>) -> Desktop {
    if contains_text(process_list, "gnome-"@) {
        Desktop::Gnome
    } else if contains_text(process_list, "kde-"@) {
        Desktop::KDE
    } else {
        Desktop::Others
    }
}

/// Tells the running desktop from the output of `pgrep -l gnome|kde`.
pub fn check_desktop(process_list: &str) -> (d: Desktop)
    ensures
        d == spec_check_desktop(process_list@),
{
    if str_contains(process_list, "gnome-") {
        Desktop::Gnome
    } else if str_contains(process_list, "kde-") {
        Desktop::KDE
    } else {
        Desktop::Others
    }
}

/// The terminal program and the argument that makes it run a command.
pub open spec fn spec_terminal_prefix(desktop: Desktop) -> (Seq<char>, Seq<char>) {
    match desktop {
        Desktop::Gnome => ("gnome-terminal"@, "--"@),
        Desktop::KDE => ("konsole"@, "--"@),
        Desktop::Others => ("bash"@, "-c"@),
    }
}

/// The terminal in which commands are opened for the given desktop,
/// with the argument that separates it from the command to run.
pub fn terminal_prefix<'a>(desktop: Desktop) -> (r: (&'a str, &'a str))
    ensures
        (r.0@, r.1@) == spec_terminal_prefix(desktop),
{
    match desktop {
        Desktop::Gnome => ("gnome-terminal", "--"),
        Desktop::KDE => ("konsole", "--"),
        Desktop::Others => ("bash", "-c"),
    }
}

} // verus!
