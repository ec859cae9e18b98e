//! Read-only snapshots for rendering.
//!
//! On every state change and every tick the engine can hand the display a
//! [`Snapshot`]; the engine itself never renders. The helpers here carry
//! the display arithmetic: clamping a device-reported position into the
//! track's range, and splitting milliseconds into the minute and second
//! fields of a `mm:ss` readout.

use vstd::prelude::*;

use crate::router::CommandRouter;
use crate::state::Status;

verus! {

/// Everything a display needs, as plain values.
pub struct Snapshot {
    pub status: Status,
    /// The playback head in milliseconds, clamped to the total duration.
    pub position: u64,
    /// Total duration in milliseconds; `0` means unknown, and the display
    /// must show a placeholder rather than a zero-length readout.
    pub total_duration: u64,
    /// Output volume, in hundredths of unity gain.
    pub volume: u32,
    pub source_path: Option<String>,
    pub cover: Option<Vec<u8>>,
}

/// Clamp a device-reported position into `[0, total]` for display. A device
/// may report a head beyond the known duration; the clamp is for display
/// only and never feeds back into the engine. An unknown duration (`0`)
/// clamps nothing.
pub open spec fn spec_clamp_position(position_ms: u64, total_ms: u64) -> u64 {
    if total_ms > 0 && position_ms > total_ms {
        total_ms
    } else {
        position_ms
    }
}

/// Executable form of [`spec_clamp_position`].
pub fn clamp_position(position_ms: u64, total_ms: u64) -> (r: u64)
    ensures
        r == spec_clamp_position(position_ms, total_ms),
{
    if total_ms > 0 && position_ms > total_ms {
        total_ms
    } else {
        position_ms
    }
}

/// The minute and second fields of a `mm:ss` readout for a time in
/// milliseconds: whole minutes, and the seconds left over (always below
/// sixty).
pub fn timestamp_parts(ms: u64) -> (r: (u64, u64))
    ensures
        r.0 == ms / 1000 / 60,
        r.1 == ms / 1000 % 60,
        r.1 < 60,
{
    let seconds: u64 = ms / 1000;
    (seconds / 60, seconds % 60)
}

/// An exact copy of a byte vector.
fn clone_bytes(v: &Vec<u8>) -> (r: Vec<u8>)
    ensures
        r@ == v@,
{
    let mut out: Vec<u8> = Vec::new();
    let mut i: usize = 0;
    while i < v.len()
        invariant
            i <= v.len(),
            out@ == v@.subrange(0, i as int),
        decreases v.len() - i,
    {
        out.push(v[i]);
        i = i + 1;
    }
    assert(out@ == v@);
    out
}

impl CommandRouter {
    /// The read-only snapshot of the whole engine, position clamped for
    /// display.
    pub fn snapshot(&self) -> (r: Snapshot)
        ensures
            r.status == self@.status,
            r.position == spec_clamp_position(self@.position, self@.total_duration),
            r.total_duration == self@.total_duration,
            r.volume == self@.volume,
            r.source_path.deep_view() == self@.source_path,
            r.cover.deep_view() == self@.cover,
    {
        let source_path = match &self.state.source_path {
            Some(p) => Some(p.clone()),
            None => None,
        };
        let cover = match &self.state.cover {
            Some(c) => Some(clone_bytes(c)),
            None => None,
        };
        Snapshot {
            status: self.state.status,
            position: clamp_position(self.sink.position_ms, self.state.total_duration),
            total_duration: self.state.total_duration,
            volume: self.state.volume,
            source_path,
            cover,
        }
    }
}

} // verus!
