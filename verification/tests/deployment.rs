use diffusion_onekey::command::{command_outcome, driver_install_command, pull_image_command, release_files_command};
use diffusion_onekey::desktop::Desktop;
use diffusion_onekey::docker::{check_image, docker_group_create_command, docker_group_join_commands};
use diffusion_onekey::gpu::Args;
use diffusion_onekey::launch::{chmod_command, chown_command, launch_script, launch_script_path, shortcut_copies};
use diffusion_onekey::setup::{setup_accepts_event, setup_step, SetupAction, SetupEvent, SetupPhase};

fn tags(list: &[&[&str]]) -> Vec<Vec<String>> {
    list.iter().map(|t| t.iter().map(|s| s.to_string()).collect()).collect()
}

#[test]
fn image_found_by_first_tag() {
    assert!(check_image(&tags(&[&["ubuntu:22.04"], &["zrll/stable-diffution:latest", "x:y"]])));
}

#[test]
fn image_not_found_as_second_tag_or_missing() {
    assert!(!check_image(&tags(&[&["x:y", "zrll/stable-diffution:latest"]])));
    assert!(!check_image(&tags(&[])));
    assert!(!check_image(&tags(&[&["zrll/stable-diffusion:latest"]])));
}

#[test]
fn group_commands_for_user() {
    assert_eq!(docker_group_create_command(), vec!["groupadd".to_string(), "docker".to_string(), "-f".to_string()]);
    let c = docker_group_join_commands("alice");
    assert_eq!(c, vec![
        vec!["gpasswd".to_string(), "-a".to_string(), "alice".to_string(), "docker".to_string()],
        vec!["newgrp".to_string(), "docker".to_string()],
    ]);
}

#[test]
fn outcome_from_error_stream() {
    assert_eq!(command_outcome(String::new()), Ok(()));
    assert_eq!(command_outcome("dpkg: error".to_string()), Err("dpkg: error".to_string()));
}

#[test]
fn terminal_commands() {
    assert_eq!(driver_install_command(Desktop::Gnome),
        vec!["gnome-terminal", "--", "amdgpu-install", "--usecase=rocm,hip,graphics", "--opencl=rocr", "-y"]);
    let pull = pull_image_command(Desktop::Others);
    assert_eq!(&pull[..4], &["bash", "-c", "docker", "run"]);
    assert_eq!(pull.last(), Some(&"zrll/stable-diffution"));
    assert_eq!(pull.len(), 17);
    assert_eq!(release_files_command(Desktop::KDE),
        vec!["konsole", "--", "docker", "exec", "-it", "stable-diffusion", "rsync", "-a", "-P", "/sd_backup", "/dockerx"]);
}

#[test]
fn launch_script_text() {
    assert_eq!(launch_script(Args::NoneNeeded),
        "docker exec -it stable-diffusion bash -c \"cd /dockerx/stable-diffusion-webui && source venv/bin/activate && REQS_FILE='requirements.txt' python launch.py\"");
    assert_eq!(launch_script(Args::HsaOverride),
        "docker exec -it stable-diffusion bash -c \"cd /dockerx/stable-diffusion-webui && source venv/bin/activate && REQS_FILE='requirements.txt' HSA_OVERRIDE_GFX_VERSION=10.3.0python launch.py\"");
}

#[test]
fn paths_under_home() {
    assert_eq!(launch_script_path("/home/a"), "/home/a/dockerx/sh/sd.sh");
    let c = shortcut_copies("/home/a");
    assert_eq!(c[0], ("/home/a/dockerx/sh/oneclick_start.sh".to_string(), "/usr/share/stable-diffusion/oneclick_start.sh".to_string()));
    assert_eq!(c[1], ("/home/a/dockerx/sh/sd.png".to_string(), "/usr/share/icons/sd.png".to_string()));
    assert_eq!(c[2], ("/home/a/dockerx/sh/stable-diffusion.desktop".to_string(), "/home/a/.local/share/applications/stable-diffusion.desktop".to_string()));
}

fn go(p: SetupPhase, e: SetupEvent) -> (SetupPhase, SetupAction) {
    assert!(setup_accepts_event(p, &e));
    setup_step(p, e)
}

#[test]
fn missing_driver_installs_it_and_asks_for_reboot() {
    let (p, a) = go(SetupPhase::CheckingDriver, SetupEvent::Begin { driver_present: false });
    assert_eq!(a, SetupAction::InstallDriver);
    let (p, a) = go(p, SetupEvent::DriverInstalled { ok: true });
    assert_eq!((p, a), (SetupPhase::Finished, SetupAction::RebootAfterDriver));
    let (p, a) = go(SetupPhase::InstallingDriver, SetupEvent::DriverInstalled { ok: false });
    assert_eq!((p, a), (SetupPhase::Failed, SetupAction::FailDriver));
}

#[test]
fn missing_docker_installs_it_and_asks_for_reboot() {
    let (p, a) = go(SetupPhase::CheckingDriver, SetupEvent::Begin { driver_present: true });
    assert_eq!(a, SetupAction::CheckDocker);
    let (p, a) = go(p, SetupEvent::DockerChecked { ok: false });
    assert_eq!(a, SetupAction::InstallDocker);
    let (p, a) = go(p, SetupEvent::DockerInstalled);
    assert_eq!((p, a), (SetupPhase::Finished, SetupAction::RebootAfterDocker));
}

#[test]
fn full_run_with_image_pull_and_unknown_card() {
    let mut p = SetupPhase::CheckingDocker;
    let (q, a) = go(p, SetupEvent::DockerChecked { ok: true });
    assert_eq!(a, SetupAction::CheckImage);
    p = q;
    let (q, a) = go(p, SetupEvent::ImagesListed { repo_tags: tags(&[&["other:1"]]) });
    assert_eq!(a, SetupAction::PullImage);
    p = q;
    let (q, a) = go(p, SetupEvent::ImagePulled);
    assert_eq!(a, SetupAction::StartNewContainer);
    p = q;
    let (q, a) = go(p, SetupEvent::ContainerStarted { ok: true });
    assert_eq!(a, SetupAction::ReleaseFiles);
    p = q;
    let (q, a) = go(p, SetupEvent::FilesReleased);
    assert_eq!(a, SetupAction::StartContainer);
    p = q;
    let (q, a) = go(p, SetupEvent::ContainerStarted { ok: true });
    assert_eq!(a, SetupAction::DetectCard);
    p = q;
    let (q, a) = go(p, SetupEvent::DevicesListed { devices: "Intel UHD".to_string() });
    assert_eq!(a, SetupAction::AskCard);
    p = q;
    let (q, a) = go(p, SetupEvent::CardAnswered { answer: "3\n".to_string() });
    assert_eq!(a, SetupAction::Configure { args: Args::ROCMArch });
    p = q;
    let (q, a) = go(p, SetupEvent::Configured);
    assert_eq!((q, a), (SetupPhase::Finished, SetupAction::Complete));
}

#[test]
fn present_image_skips_pull_and_known_card_skips_question() {
    let (p, a) = go(SetupPhase::CheckingImage, SetupEvent::ImagesListed { repo_tags: tags(&[&["zrll/stable-diffution:latest"]]) });
    assert_eq!(a, SetupAction::StartContainer);
    let (p, _) = go(p, SetupEvent::ContainerStarted { ok: true });
    let (_, a) = go(p, SetupEvent::DevicesListed { devices: "Radeon RX 6700 XT".to_string() });
    assert_eq!(a, SetupAction::Configure { args: Args::HsaOverride });
}

#[test]
fn container_failure_stops() {
    let (p, a) = go(SetupPhase::StartingContainer, SetupEvent::ContainerStarted { ok: false });
    assert_eq!((p, a), (SetupPhase::Failed, SetupAction::FailImage));
    let (p, a) = go(SetupPhase::StartingNewContainer, SetupEvent::ContainerStarted { ok: false });
    assert_eq!((p, a), (SetupPhase::Failed, SetupAction::FailImage));
}

#[test]
fn untagged_image_or_wrong_event_refused() {
    assert!(!setup_accepts_event(SetupPhase::CheckingImage, &SetupEvent::ImagesListed { repo_tags: tags(&[&[]]) }));
    assert!(!setup_accepts_event(SetupPhase::Finished, &SetupEvent::Configured));
    assert!(!setup_accepts_event(SetupPhase::CheckingDriver, &SetupEvent::ImagePulled));
}

#[test]
fn owner_and_mode_commands() {
    assert_eq!(chown_command("alice", "/home/alice"),
        vec!["chown".to_string(), "alice".to_string(), "-R".to_string(), "/home/alice/dockerx".to_string()]);
    assert_eq!(chmod_command("/home/alice/dockerx/sh/sd.sh"),
        vec!["chmod".to_string(), "+x".to_string(), "/home/alice/dockerx/sh/sd.sh".to_string()]);
}
