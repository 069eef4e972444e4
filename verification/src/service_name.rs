//! Stable identifiers for the local capability services.
//!
//! Each service the registry can own is named by a closed sum: the video
//! services carry their source (monitor or camera) and display index, the
//! remaining capabilities are singletons. Video services are the ones the
//! default-admission rule treats specially: a fresh connection is only
//! auto-subscribed to the primary monitor, never to secondary monitors or
//! cameras.

use vstd::prelude::*;

verus! {

/// Which piece of hardware a video service captures from.
#[derive(Clone, Copy, Debug, PartialEq, Eq, Structural, Hash)]
pub enum VideoSource {
    Monitor,
    Camera,
}

/// The registry key of a service: a stable identifier, unique per service.
#[derive(Clone, Copy, Debug, PartialEq, Eq, Structural, Hash)]
pub enum ServiceName {
    /// A screen or camera capture service for one display index.
    Video { source: VideoSource, index: usize },
    /// The audio capture service.
    Audio,
    /// The clipboard synchronisation service.
    Clipboard,
    /// Cursor-shape mirroring.
    Cursor,
    /// Cursor-position mirroring.
    Pos,
    /// Window-focus mirroring.
    WindowFocus,
    /// The printer bridge.
    Printer,
}

impl ServiceName {
    /// Whether this name belongs to a video (monitor or camera) service.
    pub open spec fn spec_is_video(&self) -> bool {
        self matches ServiceName::Video { .. }
    }

    /// Executable twin of [`Self::spec_is_video`].
    #[verifier::when_used_as_spec(spec_is_video)]
    pub fn is_video(&self) -> (r: bool)
        ensures
            r == self.spec_is_video(),
    {
        matches!(self, ServiceName::Video { .. })
    }
}

/// The name of the monitor service for one display index.
pub open spec fn spec_monitor_name(index: usize) -> ServiceName {
    ServiceName::Video { source: VideoSource::Monitor, index }
}

/// The name of the camera service for one camera index.
pub open spec fn spec_camera_name(index: usize) -> ServiceName {
    ServiceName::Video { source: VideoSource::Camera, index }
}

/// Executable twin of [`spec_monitor_name`].
#[verifier::when_used_as_spec(spec_monitor_name)]
pub fn monitor_name(index: usize) -> (r: ServiceName)
    ensures
        r == spec_monitor_name(index),
{
    ServiceName::Video { source: VideoSource::Monitor, index }
}

/// Executable twin of [`spec_camera_name`].
#[verifier::when_used_as_spec(spec_camera_name)]
pub fn camera_name(index: usize) -> (r: ServiceName)
    ensures
        r == spec_camera_name(index),
{
    ServiceName::Video { source: VideoSource::Camera, index }
}

/// The camera index that default camera admission subscribes to.
pub const PRIMARY_CAMERA_INDEX: usize = 0;

} // verus!
