//! Device inspection: the firmware version triple read from a build property,
//! and matching a product name against the build's model, device and maker.

use vstd::prelude::*;

verus! {

/// A firmware version, `major.minor.patch`.
#[derive(Clone, Copy, Debug, PartialEq, Eq, Structural)]
pub struct FirmwareVersion {
    pub major: u32,
    pub minor: u32,
    pub patch: u32,
}

/// The parts that `version_compare` reads out of a version string: `None` when
/// it does not take the string as a version, else one entry per part, holding
/// the number of a numeric part and `None` for a text part.
pub uninterp spec fn parsed_version(s: Seq<char>) -> Option<Seq<Option<i32>>>;

/// Relies on `version_compare::Version::from` to split a version string, and on
/// `Version::parts` to list what it found. Each `Part::Number(n)` is handed out
/// as `Some(n)`, each `Part::Text` as `None`.
#[verifier::external_body]
fn version_parts(s: &str) -> (r: Option<Vec<Option<i32>>>)
    ensures
        r.is_some() == parsed_version(s@).is_some(),
        r.is_some() ==> r.unwrap()@ == parsed_version(s@).unwrap(),
{
    match version_compare::Version::from(s) {
        Some(v) => Some(
            v.parts().iter().map(|p| match p {
                version_compare::Part::Number(n) => Some(*n),
                version_compare::Part::Text(_) => None,
            }).collect(),
        ),
        None => None,
    }
}

/// `v` read as an unsigned 32-bit value (two's complement, as `as u32` does).
pub open spec fn as_unsigned(v: i32) -> u32 {
    if v >= 0 {
        v as u32
    } else {
        (v + 0x1_0000_0000) as u32
    }
}

/// Component `i` of a version: the number of part `i` where that part exists
/// and is numeric, else 0.
pub open spec fn component(parts: Seq<Option<i32>>, i: int) -> u32 {
    if 0 <= i < parts.len() && parts[i].is_some() {
        as_unsigned(parts[i].unwrap())
    } else {
        0
    }
}

/// The version triple made of the first three components.
pub open spec fn triple_of(parts: Seq<Option<i32>>) -> FirmwareVersion {
    FirmwareVersion {
        major: component(parts, 0),
        minor: component(parts, 1),
        patch: component(parts, 2),
    }
}

/// The version of a build property as the firmware lookup reads it: the triple
/// of its parts where it parses, `None` where it does not.
pub open spec fn property_version(s: Seq<char>) -> Option<FirmwareVersion> {
    match parsed_version(s) {
        Some(parts) => Some(triple_of(parts)),
        None => None,
    }
}

/// The firmware version: that of the `ID` property where it parses, else that
/// of the `DISPLAY` property where it parses, else `0.0.0`.
pub open spec fn firmware_of(id: Seq<char>, display: Seq<char>) -> FirmwareVersion {
    match property_version(id) {
        Some(v) => v,
        None => match property_version(display) {
            Some(v) => v,
            None => FirmwareVersion { major: 0, minor: 0, patch: 0 },
        },
    }
}

fn to_unsigned(v: i32) -> (r: u32)
    ensures
        r == as_unsigned(v),
{
    if v >= 0 {
        v as u32
    } else {
        (v as i64 + 0x1_0000_0000i64) as u32
    }
}

fn component_at(parts: &Vec<Option<i32>>, i: usize) -> (r: u32)
    ensures
        r == component(parts@, i as int),
{
    if i < parts.len() {
        match parts[i] {
            Some(n) => to_unsigned(n),
            None => 0,
        }
    } else {
        0
    }
}

/// Builds the version triple out of parsed version parts: parts missing or not
/// numeric count as 0, parts after the third are ignored.
pub fn version_from_parts(parts: &Vec<Option<i32>>) -> (r: FirmwareVersion)
    ensures
        r == triple_of(parts@),
{
    FirmwareVersion {
        major: component_at(parts, 0),
        minor: component_at(parts, 1),
        patch: component_at(parts, 2),
    }
}

/// The version triple of one build property, or `None` where the property is
/// not a version string.
pub fn property_firmware_version(s: &str) -> (r: Option<FirmwareVersion>)
    ensures
        r == property_version(s@),
{
    match version_parts(s) {
        Some(parts) => Some(version_from_parts(&parts)),
        None => None,
    }
}

/// The firmware version from the `ID` build property, falling back on the
/// `DISPLAY` build property, and on `0.0.0` where neither parses.
pub fn get_firmware_version(id: &str, display: &str) -> (r: FirmwareVersion)
    ensures
        r == firmware_of(id@, display@),
{
    match property_firmware_version(id) {
        Some(v) => v,
        None => match property_firmware_version(display) {
            Some(v) => v,
            None => FirmwareVersion { major: 0, minor: 0, patch: 0 },
        },
    }
}

/// What `str::to_lowercase` makes of a string.
pub uninterp spec fn lower_of(s: Seq<char>) -> Seq<char>;

/// Relies on `str::to_lowercase`: the result depends on the characters alone.
#[verifier::external_body]
fn lowercase(s: &str) -> (r: String)
    ensures
        r@ == lower_of(s@),
        s@.len() == 0 ==> r@.len() == 0,
{
    s.to_lowercase()
}

/// `needle` occurs in `hay` starting at position `i`.
pub open spec fn occurs_at(hay: Seq<char>, needle: Seq<char>, i: int) -> bool {
    0 <= i && i + needle.len() <= hay.len() && hay.subrange(i, i + needle.len()) == needle
}

/// `needle` occurs somewhere in `hay` (the empty string occurs everywhere).
pub open spec fn occurs_in(hay: Seq<char>, needle: Seq<char>) -> bool {
    exists|i: int| occurs_at(hay, needle, i)
}

/// The product name `key` matches a build, described by its model, device and
/// manufacturer names, when, ignoring case, it occurs in one of them.
pub open spec fn device_matches(
    key: Seq<char>,
    model: Seq<char>,
    device: Seq<char>,
    manufacturer: Seq<char>,
) -> bool {
    occurs_in(lower_of(model), lower_of(key)) || occurs_in(lower_of(device), lower_of(key))
        || occurs_in(lower_of(manufacturer), lower_of(key))
}

fn matches_at(hay: &str, needle: &str, i: usize) -> (r: bool)
    requires
        i + needle@.len() <= hay@.len(),
    ensures
        r == occurs_at(hay@, needle@, i as int),
{
    let n = needle.unicode_len();
    let h = hay.unicode_len();
    let mut j: usize = 0;
    while j < n
        invariant
            n == needle@.len(),
            h == hay@.len(),
            i + n <= h,
            j <= n,
            forall|k: int| 0 <= k < j ==> hay@[i + k] == needle@[k],
        decreases n - j,
    {
        if hay.get_char(i + j) != needle.get_char(j) {
            assert(hay@.subrange(i as int, i + n)[j as int] != needle@[j as int]);
            return false;
        }
        j = j + 1;
    }
    assert(hay@.subrange(i as int, i + n) =~= needle@);
    true
}

/// Whether `needle` occurs in `hay`, comparing characters exactly.
pub fn contains_str(hay: &str, needle: &str) -> (r: bool)
    ensures
        r == occurs_in(hay@, needle@),
{
    let h = hay.unicode_len();
    let n = needle.unicode_len();
    if n > h {
        assert forall|k: int| !occurs_at(hay@, needle@, k) by {}
        return false;
    }
    let last = h - n;
    let mut i: usize = 0;
    while i < last
        invariant
            h == hay@.len(),
            n == needle@.len(),
            last == h - n,
            i <= last,
            forall|k: int| 0 <= k < i ==> !occurs_at(hay@, needle@, k),
        decreases last - i,
    {
        if matches_at(hay, needle, i) {
            return true;
        }
        i = i + 1;
    }
    if matches_at(hay, needle, last) {
        return true;
    }
    assert forall|k: int| !occurs_at(hay@, needle@, k) by {
        if 0 <= k < i {
        }
    }
    false
}

/// Whether the lower-cased name `key` occurs in one of the lower-cased build
/// names.
pub fn matches_lowered(key: &str, model: &str, device: &str, manufacturer: &str) -> (r: bool)
    ensures
        r == (occurs_in(model@, key@) || occurs_in(device@, key@) || occurs_in(manufacturer@, key@)),
{
    contains_str(model, key) || contains_str(device, key) || contains_str(manufacturer, key)
}

/// Whether the build is that of the product `pname`: its name, ignoring case,
/// occurs in the build's model, device or manufacturer name.
pub fn is_device(pname: &str, model: &str, device: &str, manufacturer: &str) -> (r: bool)
    ensures
        r == device_matches(pname@, model@, device@, manufacturer@),
{
    let key = lowercase(pname);
    let m = lowercase(model);
    let d = lowercase(device);
    let f = lowercase(manufacturer);
    matches_lowered(key.as_str(), m.as_str(), d.as_str(), f.as_str())
}

} // verus!
