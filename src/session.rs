use vstd::prelude::*;
use crate::command::{AdcReadings, CommandResponse};

verus! {

/// Silence after which a client is disconnected.
pub const HEARTBEAT_TIMEOUT_MS: u64 = 15_000;

/// Period of the streaming timer.
pub const STREAM_TICK_MS: u64 = 50;

/// What the handler of one websocket client remembers.
#[derive(Debug, Clone, Copy, PartialEq, Eq, Structural)]
pub struct ClientSession {
    /// Whether ADC readings are streamed to this client.
    pub streaming: bool,
    /// Timestamp of the last snapshot sent.
    pub last_sent_ts: u64,
    /// When the client last sent a message.
    pub last_heartbeat_ms: u64,
}

impl ClientSession {
    /// A session just opened: not streaming, nothing sent, heard from now.
    pub fn new(now_ms: u64) -> (r: Self)
        ensures
            !r.streaming,
            r.last_sent_ts == 0,
            r.last_heartbeat_ms == now_ms,
    {
        ClientSession { streaming: false, last_sent_ts: 0, last_heartbeat_ms: now_ms }
    }

    /// Any text message from the client counts as a sign of life.
    pub fn heard_from(&mut self, now_ms: u64)
        ensures
            *final(self) == (ClientSession { last_heartbeat_ms: now_ms, ..*old(self) }),
    {
        self.last_heartbeat_ms = now_ms;
    }

    /// When the streaming timer fires: the snapshot to send, if streaming is on and the
    /// snapshot is newer than the last one sent.
    pub fn on_timer(&mut self, readings: &AdcReadings) -> (r: Option<CommandResponse>)
        ensures
            old(self).streaming && readings.timestamp_ms > old(self).last_sent_ts ==> {
                &&& r matches Some(CommandResponse::AdcData { timestamp_ms, valid, adc1, adc2 })
                &&& timestamp_ms == readings.timestamp_ms && valid == readings.valid
                &&& adc1 == readings.adc1 && adc2 == readings.adc2
                &&& *final(self) == (ClientSession {
                    last_sent_ts: readings.timestamp_ms,
                    ..*old(self)
                })
            },
            !(old(self).streaming && readings.timestamp_ms > old(self).last_sent_ts) ==> r is None
                && *final(self) == *old(self),
    {
        if self.streaming && readings.timestamp_ms > self.last_sent_ts {
            self.last_sent_ts = readings.timestamp_ms;
            Some(
                CommandResponse::AdcData {
                    timestamp_ms: readings.timestamp_ms,
                    valid: readings.valid,
                    adc1: readings.adc1,
                    adc2: readings.adc2,
                },
            )
        } else {
            None
        }
    }

    /// Whether the client has been silent for more than `HEARTBEAT_TIMEOUT_MS`.
    pub fn expired(&self, now_ms: u64) -> (r: bool)
        ensures
            r == (now_ms >= self.last_heartbeat_ms && now_ms - self.last_heartbeat_ms
                > HEARTBEAT_TIMEOUT_MS),
    {
        now_ms >= self.last_heartbeat_ms && now_ms - self.last_heartbeat_ms > HEARTBEAT_TIMEOUT_MS
    }
}

} // verus!
