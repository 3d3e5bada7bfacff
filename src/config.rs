use vstd::prelude::*;

use crate::text::{same_ignoring_ascii_case, same_ignoring_ascii_case_spec, same_text};

verus! {

/// Settings resolved once at startup and handed to the components that need them.
pub struct ServiceConfig {
    /// Calls are transcribed through the media stream (otherwise by classic transcription).
    pub use_media_streams: bool,
    /// A short phrase is played while a reply is prepared.
    pub quick_reply_enabled: bool,
}

/// The media-stream setting: `true` or `false`; anything else, or nothing, means `true`.
pub open spec fn media_streams_setting(value: Option<Seq<char>>) -> bool {
    match value {
        Some(v) => v != "false"@,
        None => true,
    }
}

/// The quick-reply setting: `true` in any case, or `1`; anything else, or nothing, means `false`.
pub open spec fn quick_reply_setting(value: Option<Seq<char>>) -> bool {
    match value {
        Some(v) => same_ignoring_ascii_case_spec(v, "true"@) || v == "1"@,
        None => false,
    }
}

pub open spec fn str_opt(o: Option<&str>) -> Option<Seq<char>> {
    match o {
        Some(s) => Some(s@),
        None => None,
    }
}

impl ServiceConfig {
    /// Resolves the settings from their raw values.
    pub fn from_values(media_streams: Option<&str>, quick_reply: Option<&str>) -> (r: ServiceConfig)
        ensures
            r.use_media_streams == media_streams_setting(str_opt(media_streams)),
            r.quick_reply_enabled == quick_reply_setting(str_opt(quick_reply)),
    {
        let use_media_streams = match media_streams {
            Some(v) => !same_text(v, "false"),
            None => true,
        };
        let quick_reply_enabled = match quick_reply {
            Some(v) => same_ignoring_ascii_case(v, "true") || same_text(v, "1"),
            None => false,
        };
        ServiceConfig { use_media_streams, quick_reply_enabled }
    }
}

/// The number of calls placed since the process started.
pub struct CallCounter {
    total: u64,
}

impl CallCounter {
    pub closed spec fn count(&self) -> u64 {
        self.total
    }

    pub fn new() -> (r: CallCounter)
        ensures
            r.count() == 0,
    {
        CallCounter { total: 0 }
    }

    /// Counts one more call; the count stays at its maximum once reached.
    pub fn record_call(&mut self)
        ensures
            final(self).count() == if old(self).count() < u64::MAX {
                old(self).count() + 1
            } else {
                old(self).count() as int
            },
    {
        if self.total < u64::MAX {
            self.total = self.total + 1;
        }
    }

    pub fn total(&self) -> (r: u64)
        ensures
            r == self.count(),
    {
        self.total
    }
}

} // verus!
