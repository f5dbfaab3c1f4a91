use vstd::prelude::*;

use crate::text::{chars_of, contains_text, lemma_contains_extend, str_contains};

verus! {

/// The environment settings that the web UI needs for a family of cards.
#[derive(Clone, Copy, Debug, PartialEq, Eq, Structural)]
pub enum Args {
    HsaOverride,
    ROCMArch,
    NoneNeeded,
    Unknown,
}

/// The settings that a listing of PCI devices (`lspci`) calls for: the
/// first of "RX 6800", "RX 6700", "RX 6600" and "RX 5" that occurs decides.
pub open spec fn spec_get_args(devices: Seq<char>) -> Args {
    if contains_text(devices, "RX 6800"@) {
        Args::NoneNeeded
    } else if contains_text(devices, "RX 6700"@) {
        Args::HsaOverride
    } else if contains_text(devices, "RX 6600"@) {
        Args::HsaOverride
    } else if contains_text(devices, "RX 5"@) {
        Args::HsaOverride
    } else {
        Args::Unknown
    }
}

/// Chooses the settings from the output of `lspci`.
pub fn get_args(devices: &str) -> (a: Args)
    ensures
        a == spec_get_args(devices@),
{
    if str_contains(devices, "RX 6800") {
        Args::NoneNeeded
    } else if str_contains(devices, "RX 6700") {
        Args::HsaOverride
    } else if str_contains(devices, "RX 6600") {
        Args::HsaOverride
    } else if str_contains(devices, "RX 5") {
        Args::HsaOverride
    } else {
        Args::Unknown
    }
}

/// The settings that the user's answer to the card menu selects: only the
/// first character counts, "2" and "3" pick the second and third entries,
/// and anything else, an empty answer too, picks the first.
pub open spec fn spec_get_args_ask(answer: Seq<char>) -> Args {
    if answer.len() > 0 && answer[0] == '2' {
        Args::HsaOverride
    } else if answer.len() > 0 && answer[0] == '3' {
        Args::ROCMArch
    } else {
        Args::NoneNeeded
    }
}

/// Chooses the settings from the line that the user typed at the card menu.
pub fn get_args_ask(answer: &str) -> (a: Args)
    ensures
        a == spec_get_args_ask(answer@),
{
    let chars = chars_of(answer);
    if chars.len() == 0 {
        Args::NoneNeeded
    } else if chars[0] == '2' {
        Args::HsaOverride
    } else if chars[0] == '3' {
        Args::ROCMArch
    } else {
        Args::NoneNeeded
    }
}

/// The environment assignments that the settings stand for.
pub open spec fn spec_arg_string(arg: Args) -> Seq<char> {
    match arg {
        Args::HsaOverride => "HSA_OVERRIDE_GFX_VERSION=10.3.0"@,
        Args::ROCMArch => "PYTORCH_ROCM_ARCH=gfx906 HCC_AMDGPU_TARGET=gfx906"@,
        Args::NoneNeeded => ""@,
        Args::Unknown => "HSA_OVERRIDE_GFX_VERSION=10.3.0"@,
    }
}

/// The environment assignments to put before the launch command.
pub fn get_arg_string(arg: Args) -> (s: &'static str)
    ensures
        s@ == spec_arg_string(arg),
{
    match arg {
        Args::HsaOverride => "HSA_OVERRIDE_GFX_VERSION=10.3.0",
        Args::ROCMArch => "PYTORCH_ROCM_ARCH=gfx906 HCC_AMDGPU_TARGET=gfx906",
        Args::NoneNeeded => "",
        Args::Unknown => "HSA_OVERRIDE_GFX_VERSION=10.3.0",
    }
}

/// Which settings a listing of PCI devices calls for, from the card names
/// in it: an RX 6800 (or the RX 6900 that shares its line) needs none; an
/// RX 6700, an RX 6600 or any card of the RX 5000 series needs the HSA
/// override; a listing with none of these names leaves the card unknown.
pub proof fn lemma_card_settings(devices: Seq<char>)
    ensures
        contains_text(devices, "RX 6800"@) ==> spec_get_args(devices) == Args::NoneNeeded,
        !contains_text(devices, "RX 6800"@) && (contains_text(devices, "RX 6700"@)
            || contains_text(devices, "RX 6600"@) || contains_text(devices, "RX 5"@))
            ==> spec_get_args(devices) == Args::HsaOverride,
        spec_get_args(devices) == Args::Unknown <==> !contains_text(devices, "RX 6800"@)
            && !contains_text(devices, "RX 6700"@) && !contains_text(devices, "RX 6600"@)
            && !contains_text(devices, "RX 5"@),
        spec_get_args(devices) != Args::ROCMArch,
{
}

/// More output never makes a recognised card unknown: once a listing names
/// a supported card, the listing with more lines before or after it still
/// does; and an RX 6800 keeps needing no settings.
pub proof fn lemma_card_found_in_longer_listing(devices: Seq<char>, more: Seq<char>)
    ensures
        spec_get_args(devices) != Args::Unknown ==> spec_get_args(devices + more) != Args::Unknown
            && spec_get_args(more + devices) != Args::Unknown,
        spec_get_args(devices) == Args::NoneNeeded ==> spec_get_args(devices + more)
            == Args::NoneNeeded && spec_get_args(more + devices) == Args::NoneNeeded,
{
    if contains_text(devices, "RX 6800"@) {
        lemma_contains_extend(devices, more, "RX 6800"@);
    }
    if contains_text(devices, "RX 6700"@) {
        lemma_contains_extend(devices, more, "RX 6700"@);
    }
    if contains_text(devices, "RX 6600"@) {
        lemma_contains_extend(devices, more, "RX 6600"@);
    }
    if contains_text(devices, "RX 5"@) {
        lemma_contains_extend(devices, more, "RX 5"@);
    }
}

} // verus!
