use vstd::prelude::*;
use vstd::string::StringSliceAdditionalSpecFns;
use vstd::utf8::is_char_boundary;

verus! {

/// The Ubuntu releases that the installer supports.
#[derive(Clone, Copy, Debug, PartialEq, Eq, Structural)]
pub enum Distribution {
    Ubuntu2004,
    Ubuntu2204,
}

/// Why the contents of `/etc/issue.net` name no supported system.
#[derive(Clone, Copy, Debug, PartialEq, Eq, Structural)]
pub enum DistributionError {
    /// The text does not start with "Ub".
    UnknownDistribution,
    /// An Ubuntu whose version (bytes 7 to 14) is not a supported one.
    UnsupportedVersion,
}

/// The bytes of "Ub" in ASCII.
pub open spec fn ubuntu_tag() -> Seq<u8> {
    seq![85u8, 98u8]
}

/// The bytes of "20.04.5" in ASCII.
pub open spec fn focal_version() -> Seq<u8> {
    seq![50u8, 48u8, 46u8, 48u8, 52u8, 46u8, 53u8]
}

/// The bytes of "22.04.5" in ASCII.
pub open spec fn jammy_version() -> Seq<u8> {
    seq![50u8, 50u8, 46u8, 48u8, 52u8, 46u8, 53u8]
}

/// The inputs that the slicing of the text accepts: the first two bytes,
/// and for an Ubuntu bytes 7 to 14, lie within the text on character
/// boundaries.
pub open spec fn issue_is_sliceable(bytes: Seq<u8>) -> bool {
    &&& bytes.len() >= 2
    &&& is_char_boundary(bytes, 2)
    &&& bytes.subrange(0, 2) == ubuntu_tag() ==> {
        &&& bytes.len() >= 14
        &&& is_char_boundary(bytes, 7)
        &&& is_char_boundary(bytes, 14)
    }
}

/// The system that the contents of `/etc/issue.net` describe, as bytes.
pub open spec fn spec_parse_distribution(bytes: Seq<u8>) -> Result<Distribution, DistributionError> {
    if bytes.subrange(0, 2) != ubuntu_tag() {
        Err(DistributionError::UnknownDistribution)
    } else if bytes.subrange(7, 14) == jammy_version() {
        Ok(Distribution::Ubuntu2204)
    } else if bytes.subrange(7, 14) == focal_version() {
        Ok(Distribution::Ubuntu2004)
    } else {
        Err(DistributionError::UnsupportedVersion)
    }
}

/// Whether `bytes[start..start + expected.len()]` equals `expected`.
fn bytes_equal_at(bytes: &[u8], start: usize, expected: &[u8]) -> (r: bool)
    requires
        start + expected@.len() <= bytes@.len(),
    ensures
        r == (bytes@.subrange(start as int, start + expected@.len()) == expected@),
{
    let n = expected.len();
    let blen = bytes.len();
    let mut j: usize = 0;
    while j < n
        invariant
            n == expected@.len(),
            blen == bytes@.len(),
            start + n <= bytes@.len(),
            j <= n,
            forall|k: int| 0 <= k < j ==> bytes@[start + k] == expected@[k],
        decreases n - j,
    {
        if bytes[start + j] != expected[j] {
            assert(bytes@.subrange(start as int, start + n)[j as int] != expected@[j as int]);
            return false;
        }
        j = j + 1;
    }
    assert(bytes@.subrange(start as int, start + n) =~= expected@);
    true
}

/// Tells the system from the contents of `/etc/issue.net`: the text must
/// start with "Ub", and bytes 7 to 14 hold the Ubuntu version.
pub fn parse_distribution(issue: &str) -> (r: Result<Distribution, DistributionError>)
    requires
        issue_is_sliceable(issue.spec_bytes()),
    ensures
        r == spec_parse_distribution(issue.spec_bytes()),
{
    let bytes = issue.as_bytes();
    let tag: [u8; 2] = [85u8, 98u8];
    let jammy: [u8; 7] = [50u8, 50u8, 46u8, 48u8, 52u8, 46u8, 53u8];
    let focal: [u8; 7] = [50u8, 48u8, 46u8, 48u8, 52u8, 46u8, 53u8];
    assert(tag@ =~= ubuntu_tag());
    assert(jammy@ =~= jammy_version());
    assert(focal@ =~= focal_version());
    if !bytes_equal_at(bytes, 0, &tag) {
        Err(DistributionError::UnknownDistribution)
    } else if bytes_equal_at(bytes, 7, &jammy) {
        Ok(Distribution::Ubuntu2204)
    } else if bytes_equal_at(bytes, 7, &focal) {
        Ok(Distribution::Ubuntu2004)
    } else {
        Err(DistributionError::UnsupportedVersion)
    }
}

} // verus!
