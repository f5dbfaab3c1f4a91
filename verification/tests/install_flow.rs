use diffusion_onekey::checksum::{checksum_matches, digest_matches, to_lower_hex};
use diffusion_onekey::install::{accepts, install_step, InstallAction, InstallEvent, InstallPhase};

const EMPTY_MD5: &str = "d41d8cd98f00b204e9800998ecf8427e";
const ABC_MD5: &str = "900150983cd24fb0d6963f7d28e17f72";

#[test]
fn md5_of_known_inputs() {
    assert!(checksum_matches(b"", EMPTY_MD5));
    assert!(checksum_matches(b"abc", ABC_MD5));
    assert!(!checksum_matches(b"abd", ABC_MD5));
    assert!(!checksum_matches(b"abc", "900150983CD24FB0D6963F7D28E17F72"));
}

#[test]
fn hex_is_lowercase_two_digits_per_byte() {
    let hex: String = to_lower_hex(&[0x00, 0x0f, 0xa0, 0xff]).into_iter().collect();
    assert_eq!(hex, "000fa0ff");
    assert!(to_lower_hex(&[]).is_empty());
}

#[test]
fn digest_compared_as_text() {
    let d = [0x90, 0x01, 0x50, 0x98, 0x3c, 0xd2, 0x4f, 0xb0, 0xd6, 0x96, 0x3f, 0x7d, 0x28, 0xe1, 0x7f, 0x72];
    assert!(digest_matches(&d, ABC_MD5));
    assert!(!digest_matches(&d, "900150983cd24fb0d6963f7d28e17f7"));
    assert!(!digest_matches(&d, ""));
}

fn step(p: InstallPhase, e: InstallEvent, md5: &str) -> (InstallPhase, InstallAction) {
    assert!(accepts(p, &e));
    install_step(p, e, md5)
}

#[test]
fn fresh_download_with_good_checksum_installs() {
    let (p, a) = step(InstallPhase::Start, InstallEvent::Begin { file_present: false }, ABC_MD5);
    assert_eq!(a, InstallAction::Fetch);
    let (p, a) = step(p, InstallEvent::Fetched, ABC_MD5);
    assert_eq!(a, InstallAction::ReadFile);
    let (p, a) = step(p, InstallEvent::FileRead { contents: b"abc".to_vec() }, ABC_MD5);
    assert_eq!(a, InstallAction::Install);
    let (p, a) = step(p, InstallEvent::Installed { ok: true }, ABC_MD5);
    assert_eq!(a, InstallAction::Clean);
    let (p, a) = step(p, InstallEvent::Removed, ABC_MD5);
    assert_eq!((p, a), (InstallPhase::Done, InstallAction::Finish));
}

#[test]
fn present_file_is_not_downloaded() {
    let (p, a) = step(InstallPhase::Start, InstallEvent::Begin { file_present: true }, ABC_MD5);
    assert_eq!((p, a), (InstallPhase::Checking, InstallAction::ReadFile));
}

#[test]
fn bad_checksum_refetches_three_times_then_gives_up() {
    let (mut p, a) = step(InstallPhase::Checking, InstallEvent::FileRead { contents: b"abd".to_vec() }, ABC_MD5);
    assert_eq!(a, InstallAction::Remove);
    let mut actions = vec![a];
    let mut steps = 0;
    loop {
        let event = match actions.last().unwrap() {
            InstallAction::Remove => InstallEvent::Removed,
            InstallAction::Refetch { .. } => InstallEvent::Fetched,
            _ => break,
        };
        let (q, a) = step(p, event, ABC_MD5);
        p = q;
        actions.push(a);
        steps += 1;
        assert!(steps <= 11);
    }
    assert_eq!(actions, vec![
        InstallAction::Remove,
        InstallAction::Refetch { attempt: 0 },
        InstallAction::Remove,
        InstallAction::Refetch { attempt: 1 },
        InstallAction::Remove,
        InstallAction::Refetch { attempt: 2 },
        InstallAction::Remove,
        InstallAction::GiveUp,
    ]);
    assert_eq!(p, InstallPhase::Failed);
}

#[test]
fn failed_dpkg_aborts_after_cleaning() {
    let (p, a) = step(InstallPhase::Installing, InstallEvent::Installed { ok: false }, ABC_MD5);
    assert_eq!((p, a), (InstallPhase::Cleaning { installed: false }, InstallAction::Clean));
    let (p, a) = step(p, InstallEvent::Removed, ABC_MD5);
    assert_eq!((p, a), (InstallPhase::Failed, InstallAction::Abort));
}

#[test]
fn unexpected_events_are_refused() {
    assert!(!accepts(InstallPhase::Start, &InstallEvent::Fetched));
    assert!(!accepts(InstallPhase::Done, &InstallEvent::Removed));
    assert!(!accepts(InstallPhase::Failed, &InstallEvent::Begin { file_present: true }));
    assert!(accepts(InstallPhase::Discarding { refetches: 3 }, &InstallEvent::Removed));
}

#[test]
fn malformed_checksum_never_installs() {
    for bad in ["ab", "900150983CD24FB0D6963F7D28E17F72", "900150983cd24fb0d6963f7d28e17f72 "] {
        let (p, a) = step(InstallPhase::Checking, InstallEvent::FileRead { contents: b"abc".to_vec() }, bad);
        assert_eq!((p, a), (InstallPhase::Discarding { refetches: 0 }, InstallAction::Remove));
    }
}
