//! Capture settings, the stop handle, and the decisions of the capture loop.

use vstd::prelude::*;
use std::sync::Arc;
use std::sync::atomic::{AtomicBool, Ordering};
use std::time::Duration;
use crate::capture::filter::CaptureFilter;
use crate::capture::decode::ProtocolDecoder;
use crate::text::str_to_string;

verus! {

/// Capture configuration.
#[derive(Debug)]
pub struct CaptureConfig {
    /// Device name to capture on.
    pub device: String,
    /// BPF filter.
    pub filter: CaptureFilter,
    /// Promiscuous mode.
    pub promiscuous: bool,
    /// Snapshot length (max bytes per packet).
    pub snaplen: i32,
    /// Buffer size (bytes).
    pub buffer_size: i32,
    /// Read timeout (milliseconds).
    pub timeout_ms: i32,
    /// Maximum packets to capture (0 = unlimited).
    pub max_packets: usize,
    /// Maximum capture duration.
    pub max_duration: Option<Duration>,
}

/// The settings of a default configuration, apart from the device name.
pub open spec fn has_default_settings(c: CaptureConfig) -> bool {
    &&& c.filter@.len() == 0
    &&& c.promiscuous
    &&& c.snaplen == 65535
    &&& c.buffer_size == 1024 * 1024
    &&& c.timeout_ms == 1000
    &&& c.max_packets == 0
    &&& c.max_duration is None
}

impl Default for CaptureConfig {
    fn default() -> (r: Self)
        ensures
            r.device@.len() == 0,
            has_default_settings(r),
    {
        CaptureConfig {
            device: String::new(),
            filter: CaptureFilter::all(),
            promiscuous: true,
            snaplen: 65535,
            buffer_size: 1024 * 1024,
            timeout_ms: 1000,
            max_packets: 0,
            max_duration: None,
        }
    }
}

impl CaptureConfig {
    /// Create config for a specific device.
    pub fn for_device(device: &str) -> (r: Self)
        ensures
            r.device@ == device@,
            has_default_settings(r),
    {
        let mut c = Self::default();
        c.device = str_to_string(device);
        c
    }

    /// Set BPF filter.
    pub fn with_filter(self, filter: CaptureFilter) -> (r: Self)
        ensures
            r.filter@ == filter@,
            r.device == self.device,
            r.promiscuous == self.promiscuous,
            r.snaplen == self.snaplen,
            r.buffer_size == self.buffer_size,
            r.timeout_ms == self.timeout_ms,
            r.max_packets == self.max_packets,
            r.max_duration == self.max_duration,
    {
        let mut c = self;
        c.filter = filter;
        c
    }

    /// Set promiscuous mode.
    pub fn promiscuous(self, enabled: bool) -> (r: Self)
        ensures
            r.promiscuous == enabled,
            r.device == self.device,
            r.filter@ == self.filter@,
            r.snaplen == self.snaplen,
            r.buffer_size == self.buffer_size,
            r.timeout_ms == self.timeout_ms,
            r.max_packets == self.max_packets,
            r.max_duration == self.max_duration,
    {
        let mut c = self;
        c.promiscuous = enabled;
        c
    }

    /// Set max packets.
    pub fn max_packets(self, max: usize) -> (r: Self)
        ensures
            r.max_packets == max,
            r.device == self.device,
            r.filter@ == self.filter@,
            r.promiscuous == self.promiscuous,
            r.snaplen == self.snaplen,
            r.buffer_size == self.buffer_size,
            r.timeout_ms == self.timeout_ms,
            r.max_duration == self.max_duration,
    {
        let mut c = self;
        c.max_packets = max;
        c
    }

    /// Set max duration.
    pub fn max_duration(self, duration: Duration) -> (r: Self)
        ensures
            r.max_duration == Some(duration),
            r.device == self.device,
            r.filter@ == self.filter@,
            r.promiscuous == self.promiscuous,
            r.snaplen == self.snaplen,
            r.buffer_size == self.buffer_size,
            r.timeout_ms == self.timeout_ms,
            r.max_packets == self.max_packets,
    {
        let mut c = self;
        c.max_duration = Some(duration);
        c
    }
}

/// Packet capture handle.
#[derive(Debug)]
pub struct CaptureHandle {
    /// Stop flag.
    stop_flag: Arc<AtomicBool>,
}

impl CaptureHandle {
    /// Create a new handle.
    pub fn new(stop_flag: Arc<AtomicBool>) -> (r: Self)
        ensures
            r.flag() == stop_flag,
    {
        CaptureHandle { stop_flag }
    }

    /// The shared stop flag.
    pub closed spec fn flag(&self) -> Arc<AtomicBool> {
        self.stop_flag
    }

    /// Stop the capture: raises the shared stop flag.
    pub fn stop(&self) {
        self.stop_flag.store(true, Ordering::SeqCst);
    }

    /// Check if stopped: reads the shared stop flag, which another thread may
    /// have raised at any moment.
    pub fn is_stopped(&self) -> bool {
        self.stop_flag.load(Ordering::SeqCst)
    }
}

/// Packet capture manager.
#[derive(Debug)]
pub struct PacketCapture {
    /// Capture settings.
    config: CaptureConfig,
    /// Decoder for captured frames.
    decoder: ProtocolDecoder,
}

impl PacketCapture {
    /// Create a new packet capture.
    pub fn new(config: CaptureConfig) -> (r: Self)
        ensures
            r.settings() == config,
            r.frame_decoder().preview_limit() == 64,
    {
        PacketCapture { config, decoder: ProtocolDecoder::new() }
    }

    /// The capture settings.
    pub closed spec fn settings(&self) -> CaptureConfig {
        self.config
    }

    /// The decoder applied to captured frames.
    pub closed spec fn frame_decoder(&self) -> ProtocolDecoder {
        self.decoder
    }

    /// The capture settings.
    pub fn config(&self) -> (r: &CaptureConfig)
        ensures
            *r == self.settings(),
    {
        &self.config
    }

    /// The decoder applied to captured frames.
    pub fn decoder(&self) -> (r: &ProtocolDecoder)
        ensures
            *r == self.frame_decoder(),
    {
        &self.decoder
    }
}

/// What one read from the capture device produced.
#[derive(Clone, Copy, PartialEq, Eq, Structural, Debug)]
pub enum ReadOutcome {
    /// A packet arrived, and the consumer accepted it.
    Delivered,
    /// A packet arrived, and the consumer refused it (or went away).
    Refused,
    /// The read timed out without a packet.
    TimedOut,
    /// The device reported an error.
    Failed,
}

/// The progress of a capture loop: how many packets were handed on, out of
/// how many allowed (0 = unlimited).
#[derive(Debug)]
pub struct CaptureLoop {
    /// Packets handed on so far.
    pub packet_count: usize,
    /// Packet limit (0 = unlimited).
    pub max_packets: usize,
    /// The loop has finished.
    pub finished: bool,
}

/// The loop has reached its packet limit.
pub open spec fn limit_reached(count: nat, max: nat) -> bool {
    max > 0 && count >= max
}

impl CaptureLoop {
    /// A loop that has handed on no packet yet.
    pub fn new(max_packets: usize) -> (r: Self)
        ensures
            r.packet_count == 0,
            r.max_packets == max_packets,
            !r.finished,
    {
        CaptureLoop { packet_count: 0, max_packets, finished: false }
    }

    /// Decides, before a read, whether the loop ends: on a stop request, at
    /// the packet limit, or once the time limit has passed.
    pub fn check_stop(&mut self, stop_requested: bool, time_limit_passed: bool) -> (stop: bool)
        ensures
            stop == (old(self).finished || stop_requested
                || limit_reached(old(self).packet_count as nat, old(self).max_packets as nat)
                || time_limit_passed),
            final(self).finished == stop,
            final(self).packet_count == old(self).packet_count,
            final(self).max_packets == old(self).max_packets,
    {
        let stop = self.finished || stop_requested
            || (self.max_packets > 0 && self.packet_count >= self.max_packets)
            || time_limit_passed;
        self.finished = stop;
        stop
    }

    /// Records what a read produced: a delivered packet is counted, a
    /// timeout lets the loop go on, a refusal or a device error ends it.
    pub fn record(&mut self, outcome: ReadOutcome) -> (go_on: bool)
        requires
            !old(self).finished,
            !limit_reached(old(self).packet_count as nat, old(self).max_packets as nat),
            old(self).packet_count < usize::MAX,
        ensures
            go_on == (outcome == ReadOutcome::Delivered || outcome == ReadOutcome::TimedOut),
            final(self).finished == !go_on,
            final(self).max_packets == old(self).max_packets,
            final(self).packet_count == old(self).packet_count + (if outcome == ReadOutcome::Delivered { 1int } else { 0int }),
            old(self).max_packets > 0 ==> final(self).packet_count <= final(self).max_packets,
    {
        match outcome {
            ReadOutcome::Delivered => {
                self.packet_count = self.packet_count + 1;
                true
            },
            ReadOutcome::TimedOut => true,
            _ => {
                self.finished = true;
                false
            },
        }
    }
}

} // verus!
