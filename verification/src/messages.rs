//! Message vocabulary for the OwnTracks location-tracker ingest the site
//! also hosts: the payload kinds that carry plain status, beacon, step,
//! card and envelope data. They are kept here as bare data; reading and
//! writing their JSON wire form is the boundary layer's business.

use vstd::prelude::*;

verus! {

/// Published as a last-will message when the app loses its connection.
#[derive(Debug, Clone)]
pub struct LwtMessage {
    /// UNIX epoch timestamp at which the app first connected.
    pub tst: i64,
}

/// Device status report; the platform-specific part is filled by the
/// platform that sent it.
#[derive(Debug, Clone)]
pub struct StatusMessage {
    /// iOS specific elements.
    pub ios: Option<IosStatus>,
    /// Android specific elements.
    pub android: Option<AndroidStatus>,
    /// Random identifier used by consumers to correlate send/return
    /// messages.
    pub _id: Option<String>,
}

/// iOS specific status elements.
#[derive(Debug, Clone)]
pub struct IosStatus {
    /// Altimeter permission, used for steps.
    pub altimeter_authorization_status: Option<String>,
    /// Whether relative altitude is available, used for steps.
    pub altimeter_is_relative_altitude_available: Option<bool>,
    /// Background refresh status.
    pub background_refresh_status: Option<bool>,
    /// Used for the default device id.
    pub device_identifier_for_vendor: Option<String>,
    /// Device model.
    pub device_model: Option<String>,
    /// Device system name.
    pub device_system_name: Option<String>,
    /// Device system version.
    pub device_system_version: Option<String>,
    /// Device user interface idiom.
    pub device_user_interface_idiom: Option<String>,
    /// The current locale on the device.
    pub locale: Option<String>,
    /// Whether the locale uses the metric system.
    pub locale_uses_metric_system: Option<bool>,
    /// Location permission, used for all locations.
    pub location_manager_authorization_status: Option<String>,
    /// Motion-activity permission.
    pub motion_activity_manager_authorization_status: Option<String>,
    /// Whether motion activity is available.
    pub motion_activity_manager_is_activity_available: Option<bool>,
    /// Whether pedometer distance is available.
    pub pedometer_is_distance_available: Option<bool>,
    /// Whether pedometer floor counting is available.
    pub pedometer_is_floor_counting_available: Option<bool>,
    /// Whether pedometer step counting is available.
    pub pedometer_is_step_counting_available: Option<bool>,
    /// Version of the app.
    pub version: Option<String>,
}

/// Android specific status elements.
#[derive(Debug, Clone)]
pub struct AndroidStatus {
    /// Whether the app can hibernate if not used.
    pub hib: Option<i32>,
    /// Whether the app is configured with battery optimizations.
    pub bo: Option<i32>,
    /// App location permissions.
    pub loc: Option<i32>,
    /// Phone power save mode.
    pub ps: Option<i32>,
    /// Whether wifi is on.
    pub wifi: Option<i32>,
}

/// Published when beacon ranging (iOS only) is enabled.
#[derive(Debug, Clone)]
pub struct BeaconMessage {
    /// Name of the seen beacon.
    pub desc: Option<String>,
    /// UUID of the seen beacon.
    pub uuid: Option<String>,
    /// Major number of the seen beacon.
    pub major: Option<i32>,
    /// Minor number of the seen beacon.
    pub minor: Option<i32>,
    /// Timestamp at which the beacon was seen.
    pub tst: i64,
    /// Accuracy of the proximity value, in meters.
    pub acc: Option<i32>,
    /// Received signal strength of the beacon, in decibel.
    pub rssi: Option<i32>,
    /// Relative distance to the beacon.
    pub prox: Option<i32>,
}

/// Step counter data.
#[derive(Debug, Clone)]
pub struct StepsMessage {
    /// Timestamp of the request.
    pub tst: i64,
    /// Steps walked with the device in the specified time period.
    pub steps: i32,
    /// Effective start of the time period.
    pub from: i64,
    /// Effective end of the time period.
    pub to: i64,
}

/// Read by apps to display a name and icon for a user.
#[derive(Debug, Clone)]
pub struct CardMessage {
    /// Tracker id to associate the card with.
    pub tid: String,
    /// Name to identify a user.
    pub name: Option<String>,
    /// Base64 encoded PNG image displayed instead of the tracker id.
    pub face: Option<String>,
}

/// An outgoing message encrypted with a shared symmetric key.
#[derive(Debug, Clone)]
pub struct EncryptedMessage {
    /// Encrypted and Base64 encoded original JSON message.
    pub data: String,
}

} // verus!
