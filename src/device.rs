//! Choice of the capture device: the host's default input for a microphone;
//! for loopback capture of system output, the first output device whose name
//! suggests an external or digital output, else the default output device.
use vstd::prelude::*;

verus! {

/// What is to be captured.
#[derive(Clone, Copy, Debug, PartialEq, Eq, Structural)]
pub enum CaptureIntent {
    /// The host's default input device.
    Microphone,
    /// Loopback capture of an output device.
    Loopback,
}

/// The device to open.
#[derive(Clone, Copy, Debug, PartialEq, Eq, Structural)]
pub enum DeviceChoice {
    /// The output device at this position of the enumeration.
    Listed(usize),
    /// The host's default device for the intent (input for a microphone,
    /// output for loopback).
    HostDefault,
}

/// Why no device can be opened.
#[derive(Clone, Copy, Debug, PartialEq, Eq, Structural)]
pub enum DeviceError {
    DeviceNotFound,
}

/// The lower-case form of a text, as `str::to_lowercase` computes it.
pub uninterp spec fn lower_of(s: Seq<char>) -> Seq<char>;

/// Relies on `str::to_lowercase`: the result depends on the characters alone.
#[verifier::external_body]
fn lowercase(s: &str) -> (r: String)
    ensures
        r@ == lower_of(s@),
{
    s.to_lowercase()
}

/// `needle` occurs in `hay` as a run of consecutive characters.
pub open spec fn occurs_in(needle: Seq<char>, hay: Seq<char>) -> bool {
    exists|i: int|
        0 <= i && i + needle.len() <= hay.len() && #[trigger] hay.subrange(i, i + needle.len())
            == needle
}

/// Relies on `str::contains` with a `&str` pattern: true when the pattern
/// matches a sub-slice of the text.
#[verifier::external_body]
fn contains_text(hay: &str, needle: &str) -> (r: bool)
    ensures
        r == occurs_in(needle@, hay@),
{
    hay.contains(needle)
}

/// The name matches a keyword once lower-cased.
pub open spec fn name_matches(name: Seq<char>, keywords: Seq<String>) -> bool {
    exists|k: int| 0 <= k < keywords.len() && occurs_in(#[trigger] keywords[k]@, lower_of(name))
}

/// The device at `i` has a readable name that matches a keyword.
pub open spec fn listed_match(names: Seq<Option<String>>, keywords: Seq<String>, i: int) -> bool {
    match names[i] {
        Option::Some(n) => name_matches(n@, keywords),
        Option::None => false,
    }
}

/// The device at `i` is the first whose name matches.
pub open spec fn first_match(names: Seq<Option<String>>, keywords: Seq<String>, i: int) -> bool {
    0 <= i < names.len() && listed_match(names, keywords, i) && forall|j: int|
        0 <= j < i ==> !#[trigger] listed_match(names, keywords, j)
}

/// The device to open, or `DeviceNotFound`, for the given intent.
pub open spec fn choice_of(
    intent: CaptureIntent,
    names: Seq<Option<String>>,
    keywords: Seq<String>,
    has_default_output: bool,
    has_default_input: bool,
) -> Result<DeviceChoice, DeviceError> {
    match intent {
        CaptureIntent::Microphone => if has_default_input {
            Ok(DeviceChoice::HostDefault)
        } else {
            Err(DeviceError::DeviceNotFound)
        },
        CaptureIntent::Loopback => if exists|i: int| #[trigger]
            first_match(names, keywords, i) {
            let i = choose|i: int| #[trigger] first_match(names, keywords, i);
            Ok(DeviceChoice::Listed(i as usize))
        } else if has_default_output {
            Ok(DeviceChoice::HostDefault)
        } else {
            Err(DeviceError::DeviceNotFound)
        },
    }
}

/// The keywords of names that suggest an external or digital output.
pub fn loopback_keywords() -> (r: Vec<String>)
    ensures
        r@.len() == 3,
        r@[0]@ == "hdmi"@,
        r@[1]@ == "digital"@,
        r@[2]@ == "display"@,
{
    let mut r: Vec<String> = Vec::new();
    r.push(String::from_str("hdmi"));
    r.push(String::from_str("digital"));
    r.push(String::from_str("display"));
    r
}

/// Whether a device name, lower-cased, contains one of the keywords.
pub fn matches_keyword(name: &str, keywords: &Vec<String>) -> (r: bool)
    ensures
        r == name_matches(name@, keywords@),
{
    let lower = lowercase(name);
    let mut k: usize = 0;
    while k < keywords.len()
        invariant
            k <= keywords@.len(),
            lower@ == lower_of(name@),
            forall|j: int| 0 <= j < k ==> !occurs_in(#[trigger] keywords@[j]@, lower_of(name@)),
        decreases keywords@.len() - k,
    {
        if contains_text(lower.as_str(), keywords[k].as_str()) {
            return true;
        }
        k += 1;
    }
    false
}

/// Chooses the capture device. `names` holds the name of each output device
/// in enumeration order (`None` where it could not be read); the flags say
/// whether the host has a default output and a default input device.
pub fn choose_device(
    intent: CaptureIntent,
    names: &Vec<Option<String>>,
    keywords: &Vec<String>,
    has_default_output: bool,
    has_default_input: bool,
) -> (r: Result<DeviceChoice, DeviceError>)
    ensures
        r == choice_of(intent, names@, keywords@, has_default_output, has_default_input),
{
    match intent {
        CaptureIntent::Microphone => {
            if has_default_input {
                Ok(DeviceChoice::HostDefault)
            } else {
                Err(DeviceError::DeviceNotFound)
            }
        },
        CaptureIntent::Loopback => {
            let mut i: usize = 0;
            while i < names.len()
                invariant
                    intent == CaptureIntent::Loopback,
                    i <= names@.len(),
                    forall|j: int| 0 <= j < i ==> !#[trigger] listed_match(names@, keywords@, j),
                decreases names@.len() - i,
            {
                let hit = match &names[i] {
                    Option::Some(n) => matches_keyword(n.as_str(), keywords),
                    Option::None => false,
                };
                if hit {
                    assert(listed_match(names@, keywords@, i as int));
                    assert(first_match(names@, keywords@, i as int));
                    let ghost c = choose|c: int| #[trigger] first_match(names@, keywords@, c);
                    assert(c == i) by {
                        if c < i {
                            assert(!listed_match(names@, keywords@, c));
                        } else if c > i {
                            assert(!listed_match(names@, keywords@, i as int));
                        }
                    }
                    return Ok(DeviceChoice::Listed(i));
                }
                i += 1;
            }
            if has_default_output {
                Ok(DeviceChoice::HostDefault)
            } else {
                Err(DeviceError::DeviceNotFound)
            }
        },
    }
}

} // verus!
