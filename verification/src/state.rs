//! The flow control state machine: consumption and arrival bookkeeping, the
//! decision of when a window update is due, the next limit to advertise, and
//! the auto-tuning rule that grows the window.

use vstd::prelude::*;

verus! {

/// `a + b`, saturating at `u64::MAX`.
pub open spec fn sat_add_u64(a: u64, b: u64) -> u64 {
    if a + b <= u64::MAX {
        (a + b) as u64
    } else {
        u64::MAX
    }
}

/// The smaller of two `u64` values.
pub open spec fn min_u64(a: u64, b: u64) -> u64 {
    if a <= b {
        a
    } else {
        b
    }
}

/// The larger of two `u64` values.
pub open spec fn max_u64(a: u64, b: u64) -> u64 {
    if a >= b {
        a
    } else {
        b
    }
}

/// A flow control implementation that allows the size of the receive buffer
/// to be auto-tuned.
///
/// The basic idea is to start with a relatively small initial window size,
/// and then grow the window as necessary. For simplicity, auto-tuning may
/// increase the window size, but never decreases it (contrast with congestion
/// control).
///
/// The ideal size of the window is one large enough to encompass the
/// bandwidth delay product (BDP) to the peer. The algorithm compares the
/// interval between successive window updates to the smoothed RTT: if the
/// window is too small to keep up with the BDP there will be a window update
/// each RTT, so a last update within two RTTs of the current one doubles the
/// window, up to `max_window`.
///
/// Timestamps and durations are supplied by the caller as plain counts of a
/// fixed time unit (for example microseconds) on a monotone clock; this state
/// machine never reads a clock itself.
#[derive(Debug)]
pub struct FlowControl {
    /// Number of bytes consumed (cumulative).
    ///
    /// For a stream, this value is the number of bytes consumed by the
    /// application. For a connection, it is the sum of the bytes consumed
    /// over all streams.
    pub read_off: u64,

    /// Largest offset observed as received (cumulative).
    ///
    /// For a stream, this value is the largest offset of data received. For
    /// a connection, it is the sum of the largest offsets over all streams.
    pub recv_off: u64,

    /// The maximum amount of data that the peer is currently allowed to send:
    /// the limit last advertised through `update_max_data`.
    pub max_data: u64,

    /// Receive window, used to compute the next `max_data`.
    pub window: u64,

    /// Maximum receive window: the bound that window auto-tuning never
    /// exceeds.
    pub max_window: u64,

    /// Timestamp of the last advance of `max_data`; `None` before the first
    /// update is committed.
    pub last_updated: Option<u64>,
}

impl FlowControl {
    /// Well-formedness: the window never exceeds the configured maximum, and
    /// the advertised limit never exceeds what the next update would
    /// advertise. Construction establishes this, and every operation except
    /// `ensure_window_lower_bound` with a bound above `max_window` preserves
    /// it (see `laws`).
    pub open spec fn wf(self) -> bool {
        &&& self.window <= self.max_window
        &&& self.max_data <= sat_add_u64(self.read_off, self.window)
    }

    /// The freshly constructed state: counters at zero, the initial window
    /// immediately advertised as the initial limit, no update recorded yet.
    pub open spec fn spec_new(window: u64, max_window: u64) -> FlowControl {
        FlowControl {
            read_off: 0,
            recv_off: 0,
            max_data: window,
            window: window,
            max_window: max_window,
            last_updated: None,
        }
    }

    /// The state after observing `delta` more received bytes.
    pub open spec fn spec_increase_recv_off(self, delta: u64) -> FlowControl {
        FlowControl { recv_off: sat_add_u64(self.recv_off, delta), ..self }
    }

    /// The state after the application consumed `delta` more bytes.
    pub open spec fn spec_increase_read_off(self, delta: u64) -> FlowControl {
        FlowControl { read_off: sat_add_u64(self.read_off, delta), ..self }
    }

    /// Whether a window update is due: true exactly when the remaining
    /// allowance has fallen below half the current window.
    pub open spec fn spec_should_send_max_data(self) -> bool {
        (self.max_data - self.read_off) * 2 < self.window
    }

    /// The limit that an update committed now would advertise.
    pub open spec fn spec_max_data_next(self) -> u64 {
        sat_add_u64(self.read_off, self.window)
    }

    /// The state after committing an update at time `now`.
    pub open spec fn spec_update_max_data(self, now: u64) -> FlowControl {
        FlowControl { max_data: self.spec_max_data_next(), last_updated: Some(now), ..self }
    }

    /// The window after one doubling, capped at `max_window`.
    pub open spec fn spec_grown_window(self) -> u64 {
        if self.window * 2 <= self.max_window {
            (self.window * 2) as u64
        } else {
            self.max_window
        }
    }

    /// The state after an auto-tuning decision at time `now` with smoothed
    /// RTT `srtt`: the window doubles (capped at `max_window`) exactly when
    /// an update has been committed before and it happened less than two
    /// RTTs ago.
    pub open spec fn spec_autotune_window(self, now: u64, srtt: u64) -> FlowControl {
        match self.last_updated {
            Some(last_updated) => {
                if now - last_updated < srtt * 2 {
                    FlowControl { window: self.spec_grown_window(), ..self }
                } else {
                    self
                }
            },
            None => self,
        }
    }

    /// The state after raising the window floor to `min_window`.
    pub open spec fn spec_ensure_window_lower_bound(self, min_window: u64) -> FlowControl {
        FlowControl { window: max_u64(self.window, min_window), ..self }
    }

    /// Create a flow control state with an initial `window` and an immutable
    /// `max_window`. The initial window is immediately the initial limit.
    pub fn new(window: u64, max_window: u64) -> (fc: FlowControl)
        requires
            window <= max_window,
        ensures
            fc == FlowControl::spec_new(window, max_window),
            fc.wf(),
    {
        FlowControl {
            read_off: 0,
            recv_off: 0,
            max_data: window,
            window: window,
            max_window: max_window,
            last_updated: None,
        }
    }

    /// Get the current receive window size.
    pub fn window(&self) -> (w: u64)
        ensures
            w == self.window,
    {
        self.window
    }

    /// Get the current flow control limit.
    pub fn max_data(&self) -> (m: u64)
        ensures
            m == self.max_data,
    {
        self.max_data
    }

    /// Get the largest received offset observed.
    pub fn recv_off(&self) -> (r: u64)
        ensures
            r == self.recv_off,
    {
        self.recv_off
    }

    /// Update the largest received offset observed. The addition saturates
    /// at `u64::MAX`; a peer or application driving a counter that far is
    /// outside protocol limits and is the caller's concern.
    pub fn increase_recv_off(&mut self, delta: u64)
        ensures
            *final(self) == old(self).spec_increase_recv_off(delta),
    {
        self.recv_off = self.recv_off.saturating_add(delta);
    }

    /// Update the number of bytes consumed. The addition saturates at
    /// `u64::MAX`, as in `increase_recv_off`.
    pub fn increase_read_off(&mut self, delta: u64)
        ensures
            *final(self) == old(self).spec_increase_read_off(delta),
    {
        self.read_off = self.read_off.saturating_add(delta);
    }

    /// Check if a MAX_DATA/MAX_STREAM_DATA frame should be sent to the peer:
    /// true if the available window is smaller than half of the current
    /// window. Pure; it may be polled as often as desired.
    ///
    /// By protocol contract the peer never sends past the advertised limit,
    /// so `read_off` at most `max_data` is a caller obligation here.
    pub fn should_send_max_data(&self) -> (r: bool)
        requires
            self.read_off <= self.max_data,
        ensures
            r == self.spec_should_send_max_data(),
    {
        let available: u64 = self.max_data - self.read_off;
        if available > u64::MAX / 2 {
            false
        } else {
            available * 2 < self.window
        }
    }

    /// Get the next `max_data` limit, the value a MAX_DATA/MAX_STREAM_DATA
    /// frame sent now would carry. Pure and side-effect free, so a caller
    /// can inspect the candidate value before committing it.
    pub fn max_data_next(&self) -> (limit: u64)
        ensures
            limit == self.spec_max_data_next(),
    {
        self.read_off.saturating_add(self.window)
    }

    /// Apply the new `max_data` limit, recording `now` as the time of the
    /// update. This is the only operation that changes `max_data`; it must
    /// be called exactly once per window update frame actually sent.
    pub fn update_max_data(&mut self, now: u64)
        ensures
            *final(self) == old(self).spec_update_max_data(now),
    {
        self.max_data = self.max_data_next();
        self.last_updated = Some(now);
    }

    /// Adjust the window size automatically: if an update has been committed
    /// and it was within `2 * srtt` of `now`, double the window, but never
    /// beyond `max_window`. If no update was ever committed, or the last one
    /// is two RTTs or more in the past, the window is left alone.
    ///
    /// Mutating calls must arrive in temporal order, so `now` is at least
    /// the recorded last update time.
    pub fn autotune_window(&mut self, now: u64, srtt: u64)
        requires
            old(self).last_updated matches Some(t) ==> now >= t,
        ensures
            *final(self) == old(self).spec_autotune_window(now, srtt),
    {
        match self.last_updated {
            Some(last_updated) => {
                let elapsed: u64 = now - last_updated;
                let within: bool = if srtt > u64::MAX / 2 {
                    true
                } else {
                    elapsed < srtt * 2
                };
                if within {
                    let grown: u64 = if self.window > u64::MAX / 2 {
                        u64::MAX
                    } else {
                        self.window * 2
                    };
                    self.window = if grown <= self.max_window {
                        grown
                    } else {
                        self.max_window
                    };
                }
            },
            None => {},
        }
    }

    /// Ensure that the lower bound of the window is the given `min_window`:
    /// the window becomes the larger of the two, and never decreases.
    pub fn ensure_window_lower_bound(&mut self, min_window: u64)
        ensures
            *final(self) == old(self).spec_ensure_window_lower_bound(min_window),
            final(self).window >= old(self).window,
    {
        if min_window > self.window {
            self.window = min_window;
        }
    }
}

} // verus!
