use vstd::prelude::*;

use crate::docker::{check_image, spec_check_image, tags_view};
use crate::gpu::{get_args, get_args_ask, spec_get_args, spec_get_args_ask, Args};
use crate::text::contains_text;

verus! {

/// Where the deployment of the web UI stands.
#[derive(Clone, Copy, Debug, PartialEq, Eq, Structural)]
pub enum SetupPhase {
    /// Looking whether the GPU driver (`rocm-smi`) is there.
    CheckingDriver,
    /// Installing the driver.
    InstallingDriver,
    /// Looking whether Docker runs.
    CheckingDocker,
    /// Installing Docker.
    InstallingDocker,
    /// Listing the local images.
    CheckingImage,
    /// Pulling the web UI's image into a new container.
    PullingImage,
    /// Starting the container that was just created.
    StartingNewContainer,
    /// Copying the web UI's files out of the new container.
    ReleasingFiles,
    /// Starting the container.
    StartingContainer,
    /// Listing the PCI devices to find the card.
    DetectingCard,
    /// Asking the user which card is in the machine.
    AskingCard,
    /// Writing the launch script and the shortcut.
    Configuring,
    /// The run is over: the user reboots, or the web UI is set up.
    Finished,
    /// The run failed.
    Failed,
}

/// What the outside world reports back after an action.
pub enum SetupEvent {
    /// The run starts; tells whether `rocm-smi` could be run.
    Begin { driver_present: bool },
    /// The driver's package was installed and `amdgpu-install` ran; `ok`
    /// tells whether it reported no error.
    DriverInstalled { ok: bool },
    /// `docker images` ran; `ok` tells whether it succeeded.
    DockerChecked { ok: bool },
    /// The Docker packages were installed.
    DockerInstalled,
    /// The local images were listed; these are the tags of each.
    ImagesListed { repo_tags: Vec<Vec<String>> },
    /// The command that pulls the image and creates the container ran.
    ImagePulled,
    /// Starting the container finished; `ok` tells whether it succeeded.
    ContainerStarted { ok: bool },
    /// The web UI's files were copied out of the container.
    FilesReleased,
    /// `lspci` ran; this is its output.
    DevicesListed { devices: String },
    /// The user answered the card menu with this line.
    CardAnswered { answer: String },
    /// The launch script and the shortcut are in place.
    Configured,
}

/// What the deployment does next.
#[derive(Clone, Copy, Debug, PartialEq, Eq, Structural)]
pub enum SetupAction {
    /// Install the driver's package and run `amdgpu-install`.
    InstallDriver,
    /// Ask the user to reboot after installing the driver, and stop.
    RebootAfterDriver,
    /// Stop: the driver could not be installed.
    FailDriver,
    /// Run `docker images`.
    CheckDocker,
    /// Install Docker's packages and the user's group.
    InstallDocker,
    /// Ask the user to reboot after installing Docker, and stop.
    RebootAfterDocker,
    /// List the local images.
    CheckImage,
    /// Pull the image into a new container.
    PullImage,
    /// Start the container that was just created.
    StartNewContainer,
    /// Copy the web UI's files out of the container.
    ReleaseFiles,
    /// Start the container.
    StartContainer,
    /// Stop: the container could not be started.
    FailImage,
    /// Run `lspci`.
    DetectCard,
    /// Ask the user which card is in the machine.
    AskCard,
    /// Write the launch script with these settings and install the shortcut.
    Configure { args: Args },
    /// Tell the user that the web UI is set up, and stop.
    Complete,
}

/// The events that can follow the action taken in a phase.
pub open spec fn setup_accepts(phase: SetupPhase, event: &SetupEvent) -> bool {
    match (phase, event) {
        (SetupPhase::CheckingDriver, SetupEvent::Begin { .. }) => true,
        (SetupPhase::InstallingDriver, SetupEvent::DriverInstalled { .. }) => true,
        (SetupPhase::CheckingDocker, SetupEvent::DockerChecked { .. }) => true,
        (SetupPhase::InstallingDocker, SetupEvent::DockerInstalled) => true,
        (SetupPhase::CheckingImage, SetupEvent::ImagesListed { repo_tags }) => forall|i: int|
            0 <= i < repo_tags@.len() ==> #[trigger] repo_tags@[i]@.len() > 0,
        (SetupPhase::PullingImage, SetupEvent::ImagePulled) => true,
        (SetupPhase::StartingNewContainer, SetupEvent::ContainerStarted { .. }) => true,
        (SetupPhase::ReleasingFiles, SetupEvent::FilesReleased) => true,
        (SetupPhase::StartingContainer, SetupEvent::ContainerStarted { .. }) => true,
        (SetupPhase::DetectingCard, SetupEvent::DevicesListed { .. }) => true,
        (SetupPhase::AskingCard, SetupEvent::CardAnswered { .. }) => true,
        (SetupPhase::Configuring, SetupEvent::Configured) => true,
        _ => false,
    }
}

/// The phase that configures the web UI with the given settings.
pub open spec fn configure(args: Args) -> (SetupPhase, SetupAction) {
    (SetupPhase::Configuring, SetupAction::Configure { args })
}

/// One step of the deployment: from the phase and the event that the last
/// action gave, the next phase and the action to take.
pub open spec fn spec_setup_step(phase: SetupPhase, event: &SetupEvent) -> (SetupPhase, SetupAction) {
    match (phase, event) {
        (SetupPhase::CheckingDriver, SetupEvent::Begin { driver_present }) => if *driver_present {
            (SetupPhase::CheckingDocker, SetupAction::CheckDocker)
        } else {
            (SetupPhase::InstallingDriver, SetupAction::InstallDriver)
        },
        (SetupPhase::InstallingDriver, SetupEvent::DriverInstalled { ok }) => if *ok {
            (SetupPhase::Finished, SetupAction::RebootAfterDriver)
        } else {
            (SetupPhase::Failed, SetupAction::FailDriver)
        },
        (SetupPhase::CheckingDocker, SetupEvent::DockerChecked { ok }) => if *ok {
            (SetupPhase::CheckingImage, SetupAction::CheckImage)
        } else {
            (SetupPhase::InstallingDocker, SetupAction::InstallDocker)
        },
        (SetupPhase::InstallingDocker, SetupEvent::DockerInstalled) => (
            SetupPhase::Finished,
            SetupAction::RebootAfterDocker,
        ),
        (SetupPhase::CheckingImage, SetupEvent::ImagesListed { repo_tags }) => if spec_check_image(
            tags_view(repo_tags@),
        ) {
            (SetupPhase::StartingContainer, SetupAction::StartContainer)
        } else {
            (SetupPhase::PullingImage, SetupAction::PullImage)
        },
        (SetupPhase::PullingImage, SetupEvent::ImagePulled) => (
            SetupPhase::StartingNewContainer,
            SetupAction::StartNewContainer,
        ),
        (SetupPhase::StartingNewContainer, SetupEvent::ContainerStarted { ok }) => if *ok {
            (SetupPhase::ReleasingFiles, SetupAction::ReleaseFiles)
        } else {
            (SetupPhase::Failed, SetupAction::FailImage)
        },
        (SetupPhase::ReleasingFiles, SetupEvent::FilesReleased) => (
            SetupPhase::StartingContainer,
            SetupAction::StartContainer,
        ),
        (SetupPhase::StartingContainer, SetupEvent::ContainerStarted { ok }) => if *ok {
            (SetupPhase::DetectingCard, SetupAction::DetectCard)
        } else {
            (SetupPhase::Failed, SetupAction::FailImage)
        },
        (SetupPhase::DetectingCard, SetupEvent::DevicesListed { devices }) => {
            let args = spec_get_args(devices@);
            if args == Args::Unknown {
                (SetupPhase::AskingCard, SetupAction::AskCard)
            } else {
                configure(args)
            }
        },
        (SetupPhase::AskingCard, SetupEvent::CardAnswered { answer }) => configure(
            spec_get_args_ask(answer@),
        ),
        (SetupPhase::Configuring, SetupEvent::Configured) => (
            SetupPhase::Finished,
            SetupAction::Complete,
        ),
        _ => (SetupPhase::Failed, SetupAction::FailImage),
    }
}

/// Whether every image has at least one tag.
fn every_image_tagged(repo_tags: &Vec<Vec<String>>) -> (r: bool)
    ensures
        r == forall|i: int| 0 <= i < repo_tags@.len() ==> #[trigger] repo_tags@[i]@.len() > 0,
{
    let n = repo_tags.len();
    let mut i: usize = 0;
    while i < n
        invariant
            n == repo_tags@.len(),
            i <= n,
            forall|j: int| 0 <= j < i ==> #[trigger] repo_tags@[j]@.len() > 0,
        decreases n - i,
    {
        if repo_tags[i].len() == 0 {
            assert(repo_tags@[i as int]@.len() == 0);
            return false;
        }
        i = i + 1;
    }
    true
}

/// Whether the event can follow the action taken in the phase.
pub fn setup_accepts_event(phase: SetupPhase, event: &SetupEvent) -> (r: bool)
    ensures
        r == setup_accepts(phase, event),
{
    match (phase, event) {
        (SetupPhase::CheckingDriver, SetupEvent::Begin { .. }) => true,
        (SetupPhase::InstallingDriver, SetupEvent::DriverInstalled { .. }) => true,
        (SetupPhase::CheckingDocker, SetupEvent::DockerChecked { .. }) => true,
        (SetupPhase::InstallingDocker, SetupEvent::DockerInstalled) => true,
        (SetupPhase::CheckingImage, SetupEvent::ImagesListed { repo_tags }) => every_image_tagged(repo_tags),
        (SetupPhase::PullingImage, SetupEvent::ImagePulled) => true,
        (SetupPhase::StartingNewContainer, SetupEvent::ContainerStarted { .. }) => true,
        (SetupPhase::ReleasingFiles, SetupEvent::FilesReleased) => true,
        (SetupPhase::StartingContainer, SetupEvent::ContainerStarted { .. }) => true,
        (SetupPhase::DetectingCard, SetupEvent::DevicesListed { .. }) => true,
        (SetupPhase::AskingCard, SetupEvent::CardAnswered { .. }) => true,
        (SetupPhase::Configuring, SetupEvent::Configured) => true,
        _ => false,
    }
}

/// One step of the deployment. Without the driver, the driver is installed
/// and the user must reboot; without Docker, Docker is installed and the
/// user must reboot; without the image, it is pulled, its container started
/// and its files copied out. Then the container is started, the card is
/// found from `lspci` or, if unknown, asked for, and the launch script is
/// written with the card's settings.
pub fn setup_step(phase: SetupPhase, event: SetupEvent) -> (r: (SetupPhase, SetupAction))
    requires
        setup_accepts(phase, &event),
    ensures
        r == spec_setup_step(phase, &event),
{
    match (phase, event) {
        (SetupPhase::CheckingDriver, SetupEvent::Begin { driver_present }) => if driver_present {
            (SetupPhase::CheckingDocker, SetupAction::CheckDocker)
        } else {
            (SetupPhase::InstallingDriver, SetupAction::InstallDriver)
        },
        (SetupPhase::InstallingDriver, SetupEvent::DriverInstalled { ok }) => if ok {
            (SetupPhase::Finished, SetupAction::RebootAfterDriver)
        } else {
            (SetupPhase::Failed, SetupAction::FailDriver)
        },
        (SetupPhase::CheckingDocker, SetupEvent::DockerChecked { ok }) => if ok {
            (SetupPhase::CheckingImage, SetupAction::CheckImage)
        } else {
            (SetupPhase::InstallingDocker, SetupAction::InstallDocker)
        },
        (SetupPhase::InstallingDocker, SetupEvent::DockerInstalled) => (
            SetupPhase::Finished,
            SetupAction::RebootAfterDocker,
        ),
        (SetupPhase::CheckingImage, SetupEvent::ImagesListed { repo_tags }) => {
            if check_image(&repo_tags) {
                (SetupPhase::StartingContainer, SetupAction::StartContainer)
            } else {
                (SetupPhase::PullingImage, SetupAction::PullImage)
            }
        },
        (SetupPhase::PullingImage, SetupEvent::ImagePulled) => (
            SetupPhase::StartingNewContainer,
            SetupAction::StartNewContainer,
        ),
        (SetupPhase::StartingNewContainer, SetupEvent::ContainerStarted { ok }) => if ok {
            (SetupPhase::ReleasingFiles, SetupAction::ReleaseFiles)
        } else {
            (SetupPhase::Failed, SetupAction::FailImage)
        },
        (SetupPhase::ReleasingFiles, SetupEvent::FilesReleased) => (
            SetupPhase::StartingContainer,
            SetupAction::StartContainer,
        ),
        (SetupPhase::StartingContainer, SetupEvent::ContainerStarted { ok }) => if ok {
            (SetupPhase::DetectingCard, SetupAction::DetectCard)
        } else {
            (SetupPhase::Failed, SetupAction::FailImage)
        },
        (SetupPhase::DetectingCard, SetupEvent::DevicesListed { devices }) => {
            let args = get_args(devices.as_str());
            if args == Args::Unknown {
                (SetupPhase::AskingCard, SetupAction::AskCard)
            } else {
                (SetupPhase::Configuring, SetupAction::Configure { args })
            }
        },
        (SetupPhase::AskingCard, SetupEvent::CardAnswered { answer }) => {
            let args = get_args_ask(answer.as_str());
            (SetupPhase::Configuring, SetupAction::Configure { args })
        },
        (SetupPhase::Configuring, SetupEvent::Configured) => (
            SetupPhase::Finished,
            SetupAction::Complete,
        ),
        _ => (SetupPhase::Failed, SetupAction::FailImage),
    }
}


/// How many more steps a deployment can take from a phase at most.
pub open spec fn setup_steps_left(phase: SetupPhase) -> nat {
    match phase {
        SetupPhase::CheckingDriver => 10,
        SetupPhase::InstallingDriver => 1,
        SetupPhase::CheckingDocker => 9,
        SetupPhase::InstallingDocker => 1,
        SetupPhase::CheckingImage => 8,
        SetupPhase::PullingImage => 7,
        SetupPhase::StartingNewContainer => 6,
        SetupPhase::ReleasingFiles => 5,
        SetupPhase::StartingContainer => 4,
        SetupPhase::DetectingCard => 3,
        SetupPhase::AskingCard => 2,
        SetupPhase::Configuring => 1,
        SetupPhase::Finished => 0,
        SetupPhase::Failed => 0,
    }
}

/// Every deployment ends: each step leads to a phase with fewer steps left,
/// and `Finished` and `Failed` accept no event, so a run takes at most ten
/// steps.
pub proof fn lemma_setup_terminates(phase: SetupPhase, event: &SetupEvent)
    ensures
        setup_accepts(phase, event) ==> setup_steps_left(spec_setup_step(phase, event).0)
            < setup_steps_left(phase),
        (phase == SetupPhase::Finished || phase == SetupPhase::Failed) ==> !setup_accepts(
            phase,
            event,
        ),
{
}

/// The launch script is always written with the settings of a known card:
/// when `lspci` shows no known card, the user's answer decides, and it never
/// leaves the card unknown.
pub proof fn lemma_configured_card_known(phase: SetupPhase, event: &SetupEvent)
    requires
        setup_accepts(phase, event),
    ensures
        (spec_setup_step(phase, event).1 matches SetupAction::Configure { args } ==> args
            != Args::Unknown),
{
}

/// The card found in `lspci`'s listing decides the step: an RX 6800 is
/// configured at once with no settings; an RX 6700, RX 6600 or RX 5000 card
/// with the HSA override; only a listing with none of these names makes the
/// installer ask the user.
pub proof fn lemma_detected_card_configures(devices: String)
    ensures
        ({
            let r = spec_setup_step(SetupPhase::DetectingCard, &SetupEvent::DevicesListed { devices });
            &&& contains_text(devices@, "RX 6800"@) ==> r == (
                SetupPhase::Configuring,
                SetupAction::Configure { args: Args::NoneNeeded },
            )
            &&& !contains_text(devices@, "RX 6800"@) && (contains_text(devices@, "RX 6700"@)
                || contains_text(devices@, "RX 6600"@) || contains_text(devices@, "RX 5"@)) ==> r == (
                SetupPhase::Configuring,
                SetupAction::Configure { args: Args::HsaOverride },
            )
            &&& (r.1 == SetupAction::AskCard) <==> (!contains_text(devices@, "RX 6800"@)
                && !contains_text(devices@, "RX 6700"@) && !contains_text(devices@, "RX 6600"@)
                && !contains_text(devices@, "RX 5"@))
        }),
{
}

/// The card is only looked for once the container has started: `DetectCard`
/// follows only a successful start of the container.
pub proof fn lemma_card_after_container(phase: SetupPhase, event: &SetupEvent)
    requires
        setup_accepts(phase, event),
        spec_setup_step(phase, event).1 == SetupAction::DetectCard,
    ensures
        phase == SetupPhase::StartingContainer,
        (event matches SetupEvent::ContainerStarted { ok } && *ok),
{
}

/// Installing the driver or Docker ends the run: the user has to reboot and
/// start the installer again before anything else is done.
pub proof fn lemma_install_then_reboot(phase: SetupPhase, event: &SetupEvent)
    requires
        setup_accepts(phase, event),
        phase == SetupPhase::InstallingDriver || phase == SetupPhase::InstallingDocker,
    ensures
        spec_setup_step(phase, event).0 == SetupPhase::Finished || spec_setup_step(phase, event).0
            == SetupPhase::Failed,
{
}

} // verus!
