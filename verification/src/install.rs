use vstd::prelude::*;

use crate::checksum::{
    checksum_matches, is_lower_hex_digit, lemma_lower_hex_shape, lower_hex, md5_digest,
};

verus! {

/// How many times a package whose checksum is wrong is downloaded again
/// before the installer gives up.
pub const MAX_REFETCHES: u8 = 3;

/// Where the installation of one package stands.
#[derive(Clone, Copy, Debug, PartialEq, Eq, Structural)]
pub enum InstallPhase {
    /// Nothing done yet.
    Start,
    /// The package is being downloaded because no file was there.
    Fetching,
    /// The file is there; its checksum is to be compared.
    Checking,
    /// A bad file is being removed; `refetches` downloads were made since.
    Discarding { refetches: u8 },
    /// The package is being downloaded again, for the `refetches`-th time.
    Refetching { refetches: u8 },
    /// `dpkg -i` runs on the checked file.
    Installing,
    /// The file is being removed after `dpkg` ran; `installed` tells whether
    /// it succeeded.
    Cleaning { installed: bool },
    /// The package is installed and the file removed.
    Done,
    /// The installation failed; the installer stops.
    Failed,
}

/// What the outside world reports back after an action.
pub enum InstallEvent {
    /// The installation starts; tells whether the file already exists.
    Begin { file_present: bool },
    /// A download finished.
    Fetched,
    /// The file was read; these are its contents.
    FileRead { contents: Vec<u8> },
    /// The file was removed.
    Removed,
    /// `dpkg -i` finished; `ok` tells whether it reported no error.
    Installed { ok: bool },
}

/// What the installer does next.
#[derive(Clone, Copy, Debug, PartialEq, Eq, Structural)]
pub enum InstallAction {
    /// Announce and download the package, which is not there yet.
    Fetch,
    /// Read the file to check its digest.
    ReadFile,
    /// Remove the file, whose checksum is wrong.
    Remove,
    /// Download the package again; `attempt` downloads were made before.
    Refetch { attempt: u8 },
    /// Stop: the file stayed wrong after every download allowed.
    GiveUp,
    /// Announce and run `dpkg -i` on the file.
    Install,
    /// Announce and remove the file after `dpkg` ran.
    Clean,
    /// Nothing more: the package is installed.
    Finish,
    /// Stop: `dpkg` reported an error.
    Abort,
}

/// The phases that a run can be in: the counters never pass the limit.
pub open spec fn phase_valid(phase: InstallPhase) -> bool {
    match phase {
        InstallPhase::Discarding { refetches } => refetches <= MAX_REFETCHES,
        InstallPhase::Refetching { refetches } => 1 <= refetches <= MAX_REFETCHES,
        _ => true,
    }
}

/// The events that can follow the action taken in a phase.
pub open spec fn spec_accepts(phase: InstallPhase, event: &InstallEvent) -> bool {
    match (phase, event) {
        (InstallPhase::Start, InstallEvent::Begin { .. }) => true,
        (InstallPhase::Fetching, InstallEvent::Fetched) => true,
        (InstallPhase::Checking, InstallEvent::FileRead { .. }) => true,
        (InstallPhase::Discarding { .. }, InstallEvent::Removed) => true,
        (InstallPhase::Refetching { .. }, InstallEvent::Fetched) => true,
        (InstallPhase::Installing, InstallEvent::Installed { .. }) => true,
        (InstallPhase::Cleaning { .. }, InstallEvent::Removed) => true,
        _ => false,
    }
}

/// Whether the file's contents have the expected MD5 checksum: their
/// sixteen-byte digest, in lowercase hexadecimal, is the expected text.
pub open spec fn file_checks(contents: Seq<u8>, expected_md5: Seq<char>) -> bool {
    &&& md5_digest(contents).len() == 16
    &&& lower_hex(md5_digest(contents)) == expected_md5
}

/// One step of installing a package: from the phase and the event that the
/// last action gave, the next phase and the action to take.
pub open spec fn spec_install_step(
    phase: InstallPhase,
    event: &InstallEvent,
    expected_md5: Seq<char>,
) -> (InstallPhase, InstallAction) {
    match (phase, event) {
        (InstallPhase::Start, InstallEvent::Begin { file_present }) => if *file_present {
            (InstallPhase::Checking, InstallAction::ReadFile)
        } else {
            (InstallPhase::Fetching, InstallAction::Fetch)
        },
        (InstallPhase::Fetching, InstallEvent::Fetched) => (
            InstallPhase::Checking,
            InstallAction::ReadFile,
        ),
        (InstallPhase::Checking, InstallEvent::FileRead { contents }) => if file_checks(
            contents@,
            expected_md5,
        ) {
            (InstallPhase::Installing, InstallAction::Install)
        } else {
            (InstallPhase::Discarding { refetches: 0 }, InstallAction::Remove)
        },
        (InstallPhase::Discarding { refetches }, InstallEvent::Removed) => if refetches
            >= MAX_REFETCHES {
            (InstallPhase::Failed, InstallAction::GiveUp)
        } else {
            (
                InstallPhase::Refetching { refetches: (refetches + 1) as u8 },
                InstallAction::Refetch { attempt: refetches },
            )
        },
        (InstallPhase::Refetching { refetches }, InstallEvent::Fetched) => (
            InstallPhase::Discarding { refetches },
            InstallAction::Remove,
        ),
        (InstallPhase::Installing, InstallEvent::Installed { ok }) => (
            InstallPhase::Cleaning { installed: *ok },
            InstallAction::Clean,
        ),
        (InstallPhase::Cleaning { installed }, InstallEvent::Removed) => if installed {
            (InstallPhase::Done, InstallAction::Finish)
        } else {
            (InstallPhase::Failed, InstallAction::Abort)
        },
        _ => (phase, InstallAction::Abort),
    }
}

/// Whether the event can follow the action taken in the phase.
pub fn accepts(phase: InstallPhase, event: &InstallEvent) -> (r: bool)
    ensures
        r == spec_accepts(phase, event),
{
    match (phase, event) {
        (InstallPhase::Start, InstallEvent::Begin { .. }) => true,
        (InstallPhase::Fetching, InstallEvent::Fetched) => true,
        (InstallPhase::Checking, InstallEvent::FileRead { .. }) => true,
        (InstallPhase::Discarding { .. }, InstallEvent::Removed) => true,
        (InstallPhase::Refetching { .. }, InstallEvent::Fetched) => true,
        (InstallPhase::Installing, InstallEvent::Installed { .. }) => true,
        (InstallPhase::Cleaning { .. }, InstallEvent::Removed) => true,
        _ => false,
    }
}

/// Installs a package step by step. A missing file is downloaded; the file's
/// MD5 checksum is compared once; when it is wrong, the file is removed and
/// downloaded again up to three times, the first check standing, and then
/// the installer gives up. A file that matched is installed with `dpkg -i`,
/// removed, and the run fails if `dpkg` reported an error.
pub fn install_step(phase: InstallPhase, event: InstallEvent, expected_md5: &str) -> (r: (
    InstallPhase,
    InstallAction,
))
    requires
        spec_accepts(phase, &event),
    ensures
        r == spec_install_step(phase, &event, expected_md5@),
        phase_valid(phase) ==> phase_valid(r.0),
{
    match (phase, event) {
        (InstallPhase::Start, InstallEvent::Begin { file_present }) => if file_present {
            (InstallPhase::Checking, InstallAction::ReadFile)
        } else {
            (InstallPhase::Fetching, InstallAction::Fetch)
        },
        (InstallPhase::Fetching, InstallEvent::Fetched) => (
            InstallPhase::Checking,
            InstallAction::ReadFile,
        ),
        (InstallPhase::Checking, InstallEvent::FileRead { contents }) => {
            if checksum_matches(contents.as_slice(), expected_md5) {
                (InstallPhase::Installing, InstallAction::Install)
            } else {
                (InstallPhase::Discarding { refetches: 0 }, InstallAction::Remove)
            }
        },
        (InstallPhase::Discarding { refetches }, InstallEvent::Removed) => {
            if refetches >= MAX_REFETCHES {
                (InstallPhase::Failed, InstallAction::GiveUp)
            } else {
                (
                    InstallPhase::Refetching { refetches: refetches + 1 },
                    InstallAction::Refetch { attempt: refetches },
                )
            }
        },
        (InstallPhase::Refetching { refetches }, InstallEvent::Fetched) => (
            InstallPhase::Discarding { refetches },
            InstallAction::Remove,
        ),
        (InstallPhase::Installing, InstallEvent::Installed { ok }) => (
            InstallPhase::Cleaning { installed: ok },
            InstallAction::Clean,
        ),
        (InstallPhase::Cleaning { installed }, InstallEvent::Removed) => {
            if installed {
                (InstallPhase::Done, InstallAction::Finish)
            } else {
                (InstallPhase::Failed, InstallAction::Abort)
            }
        },
        (p, _) => (p, InstallAction::Abort),
    }
}


/// How many more steps a run can take from a phase at most.
pub open spec fn steps_left(phase: InstallPhase) -> nat {
    match phase {
        InstallPhase::Start => 11,
        InstallPhase::Fetching => 10,
        InstallPhase::Checking => 9,
        InstallPhase::Discarding { refetches } => (8 - 2 * refetches) as nat,
        InstallPhase::Refetching { refetches } => (9 - 2 * refetches) as nat,
        InstallPhase::Installing => 2,
        InstallPhase::Cleaning { .. } => 1,
        InstallPhase::Done => 0,
        InstallPhase::Failed => 0,
    }
}

/// Every installation ends: each step leads to a phase with fewer steps
/// left, and the final phases, `Done` and `Failed`, accept no event. So a
/// run takes at most eleven steps.
pub proof fn lemma_install_terminates(
    phase: InstallPhase,
    event: &InstallEvent,
    expected_md5: Seq<char>,
)
    requires
        phase_valid(phase),
    ensures
        spec_accepts(phase, event) ==> steps_left(spec_install_step(phase, event, expected_md5).0)
            < steps_left(phase),
        (phase == InstallPhase::Done || phase == InstallPhase::Failed) ==> !spec_accepts(
            phase,
            event,
        ),
        steps_left(phase) <= 11,
{
}

/// `dpkg` is only run on a file whose MD5 checksum matched: the `Install`
/// action comes only from checking a file whose contents have the expected
/// digest, so never when the expected checksum is not thirty-two lowercase
/// hexadecimal digits.
pub proof fn lemma_install_only_checked_file(
    phase: InstallPhase,
    event: &InstallEvent,
    expected_md5: Seq<char>,
)
    requires
        phase_valid(phase),
        spec_accepts(phase, event),
        spec_install_step(phase, event, expected_md5).1 == InstallAction::Install,
    ensures
        phase == InstallPhase::Checking,
        (event matches InstallEvent::FileRead { contents } && file_checks(contents@, expected_md5)),
        expected_md5.len() == 32,
        forall|i: int| 0 <= i < expected_md5.len() ==> is_lower_hex_digit(#[trigger] expected_md5[i]),
{
    if let InstallEvent::FileRead { contents } = event {
        lemma_lower_hex_shape(md5_digest(contents@));
    }
}

/// A bad file is downloaded again at most three times: each new download is
/// numbered below the limit, and giving up comes only after the third one.
pub proof fn lemma_refetches_bounded(
    phase: InstallPhase,
    event: &InstallEvent,
    expected_md5: Seq<char>,
)
    requires
        phase_valid(phase),
        spec_accepts(phase, event),
    ensures
        (spec_install_step(phase, event, expected_md5).1 matches InstallAction::Refetch { attempt }
            ==> attempt < MAX_REFETCHES && phase == (InstallPhase::Discarding { refetches: attempt })),
        (spec_install_step(phase, event, expected_md5).1 == InstallAction::GiveUp ==> phase
            == (InstallPhase::Discarding { refetches: MAX_REFETCHES })),
{
}

} // verus!
