//! A server's settings about its network traffic.
use crate::settings::game_format::{GameFormatView, ServerSettingsGameFormat};
use crate::settings::limit::{limit_of, limit_value, Limit, Range};
use crate::settings::store_format::{GameSettings, StoreView};
use vstd::prelude::*;

verus! {

/// A server's upload settings.
#[derive(Clone, Copy, Debug, PartialEq, Eq, Structural)]
pub struct Upload {
    /// The `max_upload_in_kilobytes_per_second` setting. Defaults to no limit.
    pub max: Limit,
    /// The `max_upload_slots` setting. Defaults to a limit of 5.
    pub slots: Limit,
}

/// A server's message segment size settings.
#[derive(Clone, Copy, Debug, PartialEq, Eq, Structural)]
pub struct SegmentSize {
    /// The `minimum_segment_size` and `maximum_segment_size` settings. Default to 25 and 100.
    pub size: Range,
    /// The `minimum_segment_size_peer_count` and `maximum_segment_size_peer_count` settings.
    /// Default to 20 and 10.
    pub peer_count: Range,
}

/// A server's settings about its network traffic.
#[derive(Clone, Copy, Debug, PartialEq, Eq, Structural)]
pub struct Traffic {
    /// The upload settings.
    pub upload: Upload,
    /// The `minimum_latency_in_ticks` setting. Defaults to 0.
    pub minimum_latency: u64,
    /// The segment size settings.
    pub segment_size: SegmentSize,
}

impl Default for Upload {
    fn default() -> (r: Self)
        ensures
            r == (Upload { max: Limit::Unlimited, slots: Limit::Limited(5) }),
    {
        Upload { max: Limit::Unlimited, slots: Limit::Limited(5) }
    }
}

impl Default for SegmentSize {
    fn default() -> (r: Self)
        ensures
            r == (SegmentSize {
                size: Range { min: 25, max: 100 },
                peer_count: Range { min: 20, max: 10 },
            }),
    {
        SegmentSize { size: Range { min: 25, max: 100 }, peer_count: Range { min: 20, max: 10 } }
    }
}

impl Default for Traffic {
    fn default() -> (r: Self)
        ensures
            r == (Traffic {
                upload: Upload { max: Limit::Unlimited, slots: Limit::Limited(5) },
                minimum_latency: 0,
                segment_size: SegmentSize {
                    size: Range { min: 25, max: 100 },
                    peer_count: Range { min: 20, max: 10 },
                },
            }),
    {
        Traffic { upload: Upload::default(), minimum_latency: 0, segment_size: SegmentSize::default() }
    }
}

/// The traffic settings that a `server-settings.json` structure holds.
pub open spec fn traffic_of_game_format(g: GameFormatView) -> Traffic {
    Traffic {
        upload: Upload {
            max: limit_of(g.max_upload_in_kilobytes_per_second),
            slots: limit_of(g.max_upload_slots),
        },
        minimum_latency: g.minimum_latency_in_ticks,
        segment_size: SegmentSize {
            size: Range { min: g.minimum_segment_size, max: g.maximum_segment_size },
            peer_count: Range {
                min: g.minimum_segment_size_peer_count,
                max: g.maximum_segment_size_peer_count,
            },
        },
    }
}

/// A `server-settings.json` structure with the given traffic settings written into it.
pub open spec fn traffic_into_game_format(t: Traffic, g: GameFormatView) -> GameFormatView {
    GameFormatView {
        max_upload_in_kilobytes_per_second: limit_value(t.upload.max),
        max_upload_slots: limit_value(t.upload.slots),
        minimum_latency_in_ticks: t.minimum_latency,
        minimum_segment_size: t.segment_size.size.min,
        maximum_segment_size: t.segment_size.size.max,
        minimum_segment_size_peer_count: t.segment_size.peer_count.min,
        maximum_segment_size_peer_count: t.segment_size.peer_count.max,
        ..g
    }
}

/// The traffic settings that a stored game's settings hold.
pub open spec fn traffic_of_store_format(s: StoreView) -> Traffic {
    Traffic {
        upload: Upload {
            max: limit_of(s.max_upload_in_kilobytes_per_second as u64),
            slots: limit_of(s.max_upload_slots as u64),
        },
        minimum_latency: s.minimum_latency_in_ticks as u64,
        segment_size: SegmentSize {
            size: Range {
                min: s.minimum_segment_size as u64,
                max: s.maximum_segment_size as u64,
            },
            peer_count: Range {
                min: s.minimum_segment_size_peer_count as u64,
                max: s.maximum_segment_size_peer_count as u64,
            },
        },
    }
}

/// A stored game's settings with the given traffic settings written into them.
pub open spec fn traffic_into_store_format(t: Traffic, s: StoreView) -> StoreView {
    StoreView {
        max_upload_in_kilobytes_per_second: limit_value(t.upload.max) as i64,
        max_upload_slots: limit_value(t.upload.slots) as i64,
        minimum_latency_in_ticks: t.minimum_latency as i64,
        minimum_segment_size: t.segment_size.size.min as i64,
        maximum_segment_size: t.segment_size.size.max as i64,
        minimum_segment_size_peer_count: t.segment_size.peer_count.min as i64,
        maximum_segment_size_peer_count: t.segment_size.peer_count.max as i64,
        ..s
    }
}

impl Traffic {
    /// Returns the traffic settings of a `server-settings.json` structure.
    pub fn from_game_format(game_format: &ServerSettingsGameFormat) -> (r: Self)
        ensures
            r == traffic_of_game_format(game_format@),
    {
        Traffic {
            upload: Upload {
                max: Limit::from_value(game_format.max_upload_in_kilobytes_per_second),
                slots: Limit::from_value(game_format.max_upload_slots),
            },
            minimum_latency: game_format.minimum_latency_in_ticks,
            segment_size: SegmentSize {
                size: Range {
                    min: game_format.minimum_segment_size,
                    max: game_format.maximum_segment_size,
                },
                peer_count: Range {
                    min: game_format.minimum_segment_size_peer_count,
                    max: game_format.maximum_segment_size_peer_count,
                },
            },
        }
    }

    /// Writes these settings into a `server-settings.json` structure.
    pub fn to_game_format(&self, game_format: &mut ServerSettingsGameFormat)
        ensures
            final(game_format)@ == traffic_into_game_format(*self, old(game_format)@),
    {
        game_format.max_upload_in_kilobytes_per_second = self.upload.max.value();
        game_format.max_upload_slots = self.upload.slots.value();
        game_format.minimum_latency_in_ticks = self.minimum_latency;
        game_format.minimum_segment_size = self.segment_size.size.min;
        game_format.maximum_segment_size = self.segment_size.size.max;
        game_format.minimum_segment_size_peer_count = self.segment_size.peer_count.min;
        game_format.maximum_segment_size_peer_count = self.segment_size.peer_count.max;
    }

    /// Returns the traffic settings of a stored game's settings.
    pub fn from_store_format(store_format: &GameSettings) -> (r: Self)
        ensures
            r == traffic_of_store_format(store_format@),
    {
        Traffic {
            upload: Upload {
                max: Limit::from_value(store_format.max_upload_in_kilobytes_per_second as u64),
                slots: Limit::from_value(store_format.max_upload_slots as u64),
            },
            minimum_latency: store_format.minimum_latency_in_ticks as u64,
            segment_size: SegmentSize {
                size: Range {
                    min: store_format.minimum_segment_size as u64,
                    max: store_format.maximum_segment_size as u64,
                },
                peer_count: Range {
                    min: store_format.minimum_segment_size_peer_count as u64,
                    max: store_format.maximum_segment_size_peer_count as u64,
                },
            },
        }
    }

    /// Writes these settings into a stored game's settings.
    pub fn to_store_format(&self, store_format: &mut GameSettings)
        ensures
            final(store_format)@ == traffic_into_store_format(*self, old(store_format)@),
    {
        store_format.max_upload_in_kilobytes_per_second = self.upload.max.value() as i64;
        store_format.max_upload_slots = self.upload.slots.value() as i64;
        store_format.minimum_latency_in_ticks = self.minimum_latency as i64;
        store_format.minimum_segment_size = self.segment_size.size.min as i64;
        store_format.maximum_segment_size = self.segment_size.size.max as i64;
        store_format.minimum_segment_size_peer_count = self.segment_size.peer_count.min as i64;
        store_format.maximum_segment_size_peer_count = self.segment_size.peer_count.max as i64;
    }
}

} // verus!
