//! Microphone authorisation status as reported by the platform.

use vstd::prelude::*;

verus! {

/// Authorisation state of the microphone for this application.
#[derive(Debug, Clone, Copy, PartialEq, Eq, Structural)]
pub enum MicrophonePermissionStatus {
    NotDetermined,
    Restricted,
    Denied,
    Authorized,
    Unknown(i32),
}

/// The status that a raw platform authorisation code stands for.
pub open spec fn spec_status_from_raw(v: i32) -> MicrophonePermissionStatus {
    if v == 0 {
        MicrophonePermissionStatus::NotDetermined
    } else if v == 1 {
        MicrophonePermissionStatus::Restricted
    } else if v == 2 {
        MicrophonePermissionStatus::Denied
    } else if v == 3 {
        MicrophonePermissionStatus::Authorized
    } else {
        MicrophonePermissionStatus::Unknown(v)
    }
}

/// Decodes a raw platform authorisation code. Codes outside `0..=3` are kept
/// in `Unknown`.
pub fn status_from_raw(v: i32) -> (status: MicrophonePermissionStatus)
    ensures
        status == spec_status_from_raw(v),
{
    match v {
        0 => MicrophonePermissionStatus::NotDetermined,
        1 => MicrophonePermissionStatus::Restricted,
        2 => MicrophonePermissionStatus::Denied,
        3 => MicrophonePermissionStatus::Authorized,
        other => MicrophonePermissionStatus::Unknown(other),
    }
}

/// Address of the microphone pane of the system privacy settings.
pub const MICROPHONE_SETTINGS_URL: &'static str =
    "x-apple.systempreferences:com.apple.preference.security?Privacy_Microphone";

/// The status that a platform reading stands for. `None` is the reading of
/// a platform that has no authorisation to ask for: access is open there.
pub open spec fn spec_permission_status(reading: Option<i32>) -> MicrophonePermissionStatus {
    match reading {
        Some(raw) => spec_status_from_raw(raw),
        None => MicrophonePermissionStatus::Authorized,
    }
}

/// Status of the microphone permission, from the platform's reading: its raw
/// authorisation code, or `None` where the platform has none.
pub fn microphone_permission_status(reading: Option<i32>) -> (status: MicrophonePermissionStatus)
    ensures
        status == spec_permission_status(reading),
{
    match reading {
        Some(raw) => status_from_raw(raw),
        None => MicrophonePermissionStatus::Authorized,
    }
}

/// Whether the reading means that the microphone may be used.
pub fn has_microphone_permission(reading: Option<i32>) -> (granted: bool)
    ensures
        granted == (spec_permission_status(reading) == MicrophonePermissionStatus::Authorized),
        granted == (reading is None || reading == Some(3i32)),
{
    match microphone_permission_status(reading) {
        MicrophonePermissionStatus::Authorized => true,
        _ => false,
    }
}

/// How the attempt to show the privacy settings went.
#[derive(Debug, Clone, Copy, PartialEq, Eq, Structural)]
pub enum SettingsLaunch {
    /// The platform has no such settings: nothing was launched.
    NotNeeded,
    /// The settings program could not be launched.
    NotLaunched,
    /// The settings program ran and ended, successfully or not.
    Exited(bool),
}

/// Why the privacy settings could not be shown.
#[derive(Debug, Clone, Copy, PartialEq, Eq, Structural)]
pub enum SettingsError {
    /// The settings program could not be launched.
    LaunchFailed,
    /// The settings program reported a failure.
    ExitFailure,
}

impl SettingsError {
    /// The text shown for this error.
    pub open spec fn spec_message(self) -> Seq<char> {
        match self {
            SettingsError::LaunchFailed => "Failed to open System Settings"@,
            SettingsError::ExitFailure => "Failed to open Microphone settings"@,
        }
    }

    /// The text shown for this error.
    pub fn message(&self) -> (text: String)
        ensures
            text@ == self.spec_message(),
    {
        match self {
            SettingsError::LaunchFailed => "Failed to open System Settings".to_owned(),
            SettingsError::ExitFailure => "Failed to open Microphone settings".to_owned(),
        }
    }
}

/// The result that a launch of the privacy settings amounts to.
pub open spec fn spec_settings_result(launch: SettingsLaunch) -> Result<(), SettingsError> {
    match launch {
        SettingsLaunch::NotNeeded => Ok(()),
        SettingsLaunch::NotLaunched => Err(SettingsError::LaunchFailed),
        SettingsLaunch::Exited(success) => if success {
            Ok(())
        } else {
            Err(SettingsError::ExitFailure)
        },
    }
}

/// Judges an attempt to show the microphone privacy settings: it succeeded
/// if nothing had to be launched or the settings program ended well.
pub fn open_microphone_settings(launch: SettingsLaunch) -> (result: Result<(), SettingsError>)
    ensures
        result == spec_settings_result(launch),
{
    match launch {
        SettingsLaunch::NotNeeded => Ok(()),
        SettingsLaunch::NotLaunched => Err(SettingsError::LaunchFailed),
        SettingsLaunch::Exited(success) => {
            if success {
                Ok(())
            } else {
                Err(SettingsError::ExitFailure)
            }
        },
    }
}


} // verus!
