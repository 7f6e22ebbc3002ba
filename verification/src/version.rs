//! The version of the Mosquitto client library.

use vstd::prelude::*;
use crate::decimal::{decimal, decimal_is_usual_text, is_decimal_of, push_decimal, string_push};

verus! {

/// Mosquitto version
pub struct Version {
    major: u32,
    minor: u32,
    revision: u32,
}

/// The numbers of a version: major, minor, revision.
pub struct VersionView {
    pub major: u32,
    pub minor: u32,
    pub revision: u32,
}

impl View for Version {
    type V = VersionView;

    closed spec fn view(&self) -> VersionView {
        VersionView { major: self.major, minor: self.minor, revision: self.revision }
    }
}

/// The text of a version: its major number, its minor number and its revision,
/// in that order, separated by dots.
pub open spec fn version_text(v: VersionView) -> Seq<char> {
    decimal(v.major as nat) + seq!['.'] + decimal(v.minor as nat) + seq!['.'] + decimal(
        v.revision as nat,
    )
}

/// The text of a version holds three fields separated by dots, each the usual
/// decimal text of its number: major first, then minor, then revision.
pub proof fn version_text_shows_major_minor_revision(v: VersionView)
    ensures
        exists|major: Seq<char>, minor: Seq<char>, revision: Seq<char>|
            {
                &&& version_text(v) == major + seq!['.'] + minor + seq!['.'] + revision
                &&& #[trigger] is_decimal_of(major, v.major as nat)
                &&& #[trigger] is_decimal_of(minor, v.minor as nat)
                &&& #[trigger] is_decimal_of(revision, v.revision as nat)
            },
{
    decimal_is_usual_text(v.major as nat);
    decimal_is_usual_text(v.minor as nat);
    decimal_is_usual_text(v.revision as nat);
    assert(version_text(v) == decimal(v.major as nat) + seq!['.'] + decimal(v.minor as nat) + seq!['.']
        + decimal(v.revision as nat));
}

impl Version {
    /// The version that the client library reports through its three numbers,
    /// each taken as an unsigned number of the same width.
    pub fn from_raw(major: i32, minor: i32, revision: i32) -> (v: Version)
        ensures
            v@ == (VersionView { major: major as u32, minor: minor as u32, revision: revision as u32 }),
    {
        Version { major: major as u32, minor: minor as u32, revision: revision as u32 }
    }

    /// The version as text.
    pub fn to_string(&self) -> (text: String)
        ensures
            text@ == version_text(self@),
    {
        let mut text = String::new();
        push_decimal(&mut text, self.major as u64);
        string_push(&mut text, '.');
        push_decimal(&mut text, self.minor as u64);
        string_push(&mut text, '.');
        push_decimal(&mut text, self.revision as u64);
        text
    }
}

} // verus!
