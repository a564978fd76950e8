//! Static configuration: executable paths, recording root and the
//! per-user room identity.

use vstd::prelude::*;

verus! {

/// Paths to the two external executables; `None` means the bare command
/// name is used.
pub struct PathConfig {
    pub streamlink: Option<String>,
    pub ffmpeg: Option<String>,
}

impl PathConfig {
    /// Path of the stream-puller executable, defaulting to `streamlink`.
    pub fn streamlink(&self) -> (r: &str)
        ensures
            r@ == match self.streamlink {
                Some(ref s) => s@,
                None => "streamlink"@,
            },
    {
        match &self.streamlink {
            Some(s) => s.as_str(),
            None => "streamlink",
        }
    }

    /// Path of the encoder executable, defaulting to `ffmpeg`.
    pub fn ffmpeg(&self) -> (r: &str)
        ensures
            r@ == match self.ffmpeg {
                Some(ref s) => s@,
                None => "ffmpeg"@,
            },
    {
        match &self.ffmpeg {
            Some(s) => s.as_str(),
            None => "ffmpeg",
        }
    }
}

/// Top-level configuration consumed by the orchestrator.
pub struct Config {
    /// Bot API token, consumed by the front-end only.
    pub token: String,
    /// Shared secret that authorizes a new user.
    pub secret: String,
    /// Root directory for recordings; `None` disables recording.
    pub record_root: Option<String>,
    /// Executable paths.
    pub path: PathConfig,
}

/// The room identity a user's sessions are keyed by.
pub struct RoomInfo {
    pub id: i64,
}

impl RoomInfo {
    pub fn new(id: i64) -> (r: RoomInfo)
        ensures
            r.index_spec() == id,
    {
        RoomInfo { id }
    }

    /// The stable integer key of this room.
    pub open spec fn index_spec(&self) -> i64 {
        self.id
    }

    pub fn index(&self) -> (r: i64)
        ensures
            r == self.index_spec(),
    {
        self.id
    }
}

} // verus!
