use diffusion_onekey::desktop::{check_desktop, terminal_prefix, Desktop};
use diffusion_onekey::gpu::{get_arg_string, get_args, get_args_ask, Args};

#[test]
fn desktop_gnome_from_process_list() {
    assert_eq!(check_desktop("1234 gnome-shell\n1300 gnome-session-b\n"), Desktop::Gnome);
}

#[test]
fn desktop_kde_from_process_list() {
    assert_eq!(check_desktop("2201 kde-plasma\n"), Desktop::KDE);
}

#[test]
fn desktop_gnome_wins_over_kde() {
    assert_eq!(check_desktop("10 kde-x\n11 gnome-y\n"), Desktop::Gnome);
}

#[test]
fn desktop_others_without_match() {
    assert_eq!(check_desktop(""), Desktop::Others);
    assert_eq!(check_desktop("55 gnome\n56 kdeinit\n"), Desktop::Others);
}

#[test]
fn terminal_prefix_per_desktop() {
    assert_eq!(terminal_prefix(Desktop::Gnome), ("gnome-terminal", "--"));
    assert_eq!(terminal_prefix(Desktop::KDE), ("konsole", "--"));
    assert_eq!(terminal_prefix(Desktop::Others), ("bash", "-c"));
}

#[test]
fn card_rx6800_needs_nothing() {
    let lspci = "03:00.0 VGA compatible controller: AMD [AMD/ATI] Navi 21 [Radeon RX 6800/6800 XT / 6900 XT] (rev c1)";
    assert_eq!(get_args(lspci), Args::NoneNeeded);
}

#[test]
fn card_rx6700_rx6600_rx5000_need_override() {
    assert_eq!(get_args("Navi 22 [Radeon RX 6700/6700 XT]"), Args::HsaOverride);
    assert_eq!(get_args("Navi 23 [Radeon RX 6600/6600 XT]"), Args::HsaOverride);
    assert_eq!(get_args("Navi 10 [Radeon RX 5600 OEM/5600 XT / 5700/5700 XT]"), Args::HsaOverride);
}

#[test]
fn card_unknown_without_match() {
    assert_eq!(get_args("Intel Corporation UHD Graphics 620"), Args::Unknown);
    assert_eq!(get_args(""), Args::Unknown);
}

#[test]
fn card_first_rule_wins() {
    assert_eq!(get_args("RX 5700 and RX 6800"), Args::NoneNeeded);
}

#[test]
fn card_menu_answers() {
    assert_eq!(get_args_ask("2\n"), Args::HsaOverride);
    assert_eq!(get_args_ask("3\n"), Args::ROCMArch);
    assert_eq!(get_args_ask("1\n"), Args::NoneNeeded);
    assert_eq!(get_args_ask(""), Args::NoneNeeded);
    assert_eq!(get_args_ask(" 2"), Args::NoneNeeded);
    assert_eq!(get_args_ask("27"), Args::HsaOverride);
    assert_eq!(get_args_ask("é"), Args::NoneNeeded);
}

#[test]
fn arg_strings() {
    assert_eq!(get_arg_string(Args::HsaOverride), "HSA_OVERRIDE_GFX_VERSION=10.3.0");
    assert_eq!(get_arg_string(Args::ROCMArch), "PYTORCH_ROCM_ARCH=gfx906 HCC_AMDGPU_TARGET=gfx906");
    assert_eq!(get_arg_string(Args::NoneNeeded), "");
    assert_eq!(get_arg_string(Args::Unknown), "HSA_OVERRIDE_GFX_VERSION=10.3.0");
}
