//! The display-facing view of the aggregate status: the five display
//! states an icon is chosen from, stripped of the retained job.

use vstd::prelude::*;

use crate::status::JenkinsStatus;

verus! {

/// The five display states. This is the aggregate status with its payload
/// dropped: a renderer needs only the class, not the offending job.
#[derive(Clone, Copy, Debug, PartialEq, Eq, Structural)]
pub enum TrayStatus {
    Unknown,
    Success,
    Unstable,
    Failure,
    NotBuilt,
}

/// The display state an aggregate status maps onto: the same class, with
/// the retained job dropped.
pub open spec fn spec_tray_of(status: JenkinsStatus) -> TrayStatus {
    match status {
        JenkinsStatus::Success => TrayStatus::Success,
        JenkinsStatus::Unstable(_) => TrayStatus::Unstable,
        JenkinsStatus::Failure(_) => TrayStatus::Failure,
        JenkinsStatus::Unknown => TrayStatus::Unknown,
        JenkinsStatus::NotBuilt => TrayStatus::NotBuilt,
    }
}

impl From<JenkinsStatus> for TrayStatus {
    fn from(status: JenkinsStatus) -> (r: TrayStatus) {
        match status {
            JenkinsStatus::Success => TrayStatus::Success,
            JenkinsStatus::Unstable(_) => TrayStatus::Unstable,
            JenkinsStatus::Failure(_) => TrayStatus::Failure,
            JenkinsStatus::Unknown => TrayStatus::Unknown,
            JenkinsStatus::NotBuilt => TrayStatus::NotBuilt,
        }
    }
}

impl vstd::std_specs::convert::FromSpecImpl<JenkinsStatus> for TrayStatus {
    open spec fn obeys_from_spec() -> bool {
        true
    }

    open spec fn from_spec(status: JenkinsStatus) -> TrayStatus {
        spec_tray_of(status)
    }
}

/// The icon file a display state selects, before any asset-directory
/// lookup: unknown and not-built share the grey icon, the other states
/// have one each.
pub open spec fn spec_icon_name(status: TrayStatus) -> Seq<char> {
    match status {
        TrayStatus::Unknown | TrayStatus::NotBuilt => "grey.png"@,
        TrayStatus::Success => "blue.png"@,
        TrayStatus::Unstable => "yellow.png"@,
        TrayStatus::Failure => "red.png"@,
    }
}

/// What a display state's text reads.
pub open spec fn spec_desc(status: TrayStatus) -> Seq<char> {
    match status {
        TrayStatus::Unknown => "Unknown"@,
        TrayStatus::Success => "Success"@,
        TrayStatus::Unstable => "Unstable"@,
        TrayStatus::Failure => "Failure"@,
        TrayStatus::NotBuilt => "NotBuilt"@,
    }
}

impl TrayStatus {
    /// The file name of the icon this display state selects; looking the
    /// file up in an asset directory is the renderer's concern.
    pub fn icon_name(&self) -> (r: &'static str)
        ensures
            r@ == spec_icon_name(*self),
    {
        match *self {
            TrayStatus::Unknown | TrayStatus::NotBuilt => "grey.png",
            TrayStatus::Success => "blue.png",
            TrayStatus::Unstable => "yellow.png",
            TrayStatus::Failure => "red.png",
        }
    }

    /// The human-readable name of the display state.
    pub fn desc(&self) -> (r: &'static str)
        ensures
            r@ == spec_desc(*self),
    {
        match *self {
            TrayStatus::Unknown => "Unknown",
            TrayStatus::Success => "Success",
            TrayStatus::Unstable => "Unstable",
            TrayStatus::Failure => "Failure",
            TrayStatus::NotBuilt => "NotBuilt",
        }
    }
}

} // verus!
