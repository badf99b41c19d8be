//! The options of the current user.

use vstd::prelude::*;

verus! {

/// The options of the current user.
#[derive(Debug)]
pub struct Options {
    /// Whether the user can stream.
    pub streaming: bool,
    /// For how long the user can stream.
    pub streaming_duration: u64,
    /// Whether music can be listened to offline.
    pub offline: bool,
    /// Whether high quality can be switched on.
    pub hq: bool,
    /// Whether advertisements are displayed.
    pub ads_display: bool,
    /// Whether audio advertisements are played.
    pub ads_audio: bool,
    /// Whether the user has linked as many devices as are allowed.
    pub has_too_many_devices: bool,
    /// Whether the user can subscribe to the service.
    pub can_subscribe: bool,
    /// How many tracks of a radio may be skipped; 0 for no limit.
    pub radio_skips: u64,
    /// Whether lossless streaming is available.
    pub lossless: bool,
    /// Whether previews of tracks can be played.
    pub preview: bool,
    /// Whether radios can be streamed.
    pub radio: bool,
}

} // verus!
