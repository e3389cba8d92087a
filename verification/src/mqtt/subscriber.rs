//! The decisions of the MQTT receive loop: what each event from the broker
//! or from the sample clock does to the live state, and what the loop has to
//! do next.

use vstd::prelude::*;
use vstd::std_specs::iter::IteratorSpec;

use crate::model::{
    same_state, state_after, CurrentState, EnergySample, LoadpointSample, LoadpointState,
};
use crate::mqtt::parser::{apply_message_at, message_effect_of, number_read, parse_message};
use crate::mqtt::subscription_topic;

verus! {

/// The readings taken at one tick of the sample clock.
pub struct SampleBatch<N> {
    pub energy: EnergySample<N>,
    pub loadpoints: Vec<LoadpointSample<N>>,
}

/// `s` is the sample at `now` of loadpoint `lp` stored under `id`.
pub open spec fn loadpoint_sample_of<N>(s: LoadpointSample<N>, id: u32, lp: LoadpointState<N>, now: i64) -> bool {
    &&& s.timestamp == now
    &&& s.loadpoint_id == id
    &&& s.charge_power == lp.charge_power
    &&& s.charged_energy == lp.charged_energy
}

/// `b` is the batch of readings of `state` at `now`: the site readings, and
/// one sample for each loadpoint, in some order.
pub open spec fn batch_of<N>(b: SampleBatch<N>, state: CurrentState<N>, now: i64) -> bool {
    let m = state.loadpoints@;
    &&& b.energy.timestamp == now
    &&& b.energy.grid_power == state.site.grid_power
    &&& b.energy.pv_power == state.site.pv_power
    &&& b.energy.home_power == state.site.home_power
    &&& b.energy.battery_power == state.site.battery_power
    &&& b.energy.battery_soc == state.site.battery_soc
    &&& b.loadpoints@.len() == m.len()
    &&& forall|i: int|
        #![trigger b.loadpoints@[i]]
        0 <= i < b.loadpoints@.len() ==> {
            let s = b.loadpoints@[i];
            m.contains_key(s.loadpoint_id) && loadpoint_sample_of(s, s.loadpoint_id, m[s.loadpoint_id], now)
        }
    &&& forall|k: u32|
        #[trigger] m.contains_key(k) ==> exists|i: int|
            0 <= i < b.loadpoints@.len() && #[trigger] b.loadpoints@[i].loadpoint_id == k
    &&& forall|i: int, j: int|
        0 <= i < j < b.loadpoints@.len() ==> #[trigger] b.loadpoints@[i].loadpoint_id
            != #[trigger] b.loadpoints@[j].loadpoint_id
}

/// The readings to record at `now`: nothing before the first message has
/// arrived, else the batch of the current readings.
pub fn take_sample<N: Copy>(state: &CurrentState<N>, now: i64) -> (r: Option<SampleBatch<N>>)
    ensures
        r is None <==> state.last_updated is None,
        r matches Some(b) ==> batch_of(b, *state, now),
{
    if state.last_updated.is_none() {
        return None;
    }
    let energy = EnergySample {
        timestamp: now,
        grid_power: state.site.grid_power,
        pv_power: state.site.pv_power,
        home_power: state.site.home_power,
        battery_power: state.site.battery_power,
        battery_soc: state.site.battery_soc,
    };
    let ghost m = state.loadpoints@;
    let entries = state.loadpoints.iter();
    let ghost items = entries.remaining();
    let mut samples: Vec<LoadpointSample<N>> = Vec::new();
    for entry in it: entries
        invariant
            m == state.loadpoints@,
            it.seq() == items,
            samples@.len() == it.index(),
            forall|j: int|
                #![trigger samples@[j]]
                0 <= j < samples@.len() ==> loadpoint_sample_of(
                    samples@[j],
                    *it.seq()[j].0,
                    *it.seq()[j].1,
                    now,
                ),
    {
        let (id, lp) = entry;
        samples.push(
            LoadpointSample {
                timestamp: now,
                loadpoint_id: *id,
                charge_power: lp.charge_power,
                charged_energy: lp.charged_energy,
            },
        );
    }
    assert forall|k: u32| #[trigger] m.contains_key(k) implies exists|i: int|
        0 <= i < samples@.len() && #[trigger] samples@[i].loadpoint_id == k by {
        assert(items.contains((&k, &m[k])));
        let j = choose|j: int| 0 <= j < items.len() && items[j] == (&k, &m[k]);
        assert(samples@[j].loadpoint_id == k);
    }
    assert forall|i: int, j: int|
        0 <= i < j < samples@.len() implies #[trigger] samples@[i].loadpoint_id
            != #[trigger] samples@[j].loadpoint_id by {
        if samples@[i].loadpoint_id == samples@[j].loadpoint_id {
            assert(items == state.loadpoints.iter().remaining());
            assert(m[*items[i].0] == *items[i].1);
            assert(m[*items[j].0] == *items[j].1);
            assert(items[i] == items[j]);
        }
    }
    Some(SampleBatch { energy, loadpoints: samples })
}

/// Seconds to wait before polling the broker again after a connection error.
pub const RECONNECT_DELAY_SECS: u64 = 5;

/// An event of the receive loop.
pub enum LoopEvent {
    /// A message that the broker delivered.
    Message { topic: String, payload: Vec<u8> },
    /// The broker accepted the connection (also after a reconnect).
    Connected,
    /// The connection failed or was lost.
    ConnectionError,
    /// Any other event of the connection.
    Other,
    /// The sample clock ticked.
    SampleTick,
}

/// What the receive loop does after an event.
pub enum LoopAction<N> {
    /// Wait for the next event.
    Continue,
    /// Subscribe to this topic filter (at-least-once delivery).
    Subscribe(String),
    /// Wait this many seconds, then poll the broker again.
    Reconnect { delay_secs: u64 },
    /// Hand these readings to the history writer.
    Record(SampleBatch<N>),
}

/// One step of the receive loop at time `now`: a message is applied to the
/// live state (reading numbers with `read_number`); a (re)connection asks
/// for the subscription to every topic below `prefix`; a connection error
/// asks for a pause before the next poll; a tick of the sample clock takes
/// the readings to record, if any message has arrived yet.
pub fn handle_event<N: Copy, F: Fn(&str) -> Option<N>>(
    state: &mut CurrentState<N>,
    prefix: &str,
    event: LoopEvent,
    read_number: F,
    now: i64,
) -> (r: LoopAction<N>)
    requires
        forall|s: &str| call_requires(read_number, (s,)),
    ensures
        match event {
            LoopEvent::Message { topic, payload } => {
                &&& r is Continue
                &&& exists|v: Option<N>|
                    {
                        &&& number_read(read_number, message_effect_of(prefix@, topic@, payload@), v)
                        &&& state_after(
                            *old(state),
                            *final(state),
                            message_effect_of(prefix@, topic@, payload@),
                            v,
                            now,
                        )
                    }
            },
            LoopEvent::Connected => {
                &&& r matches LoopAction::Subscribe(t) && t@ == prefix@ + "/#"@
                &&& same_state(*old(state), *final(state))
            },
            LoopEvent::ConnectionError => {
                &&& r == LoopAction::<N>::Reconnect { delay_secs: RECONNECT_DELAY_SECS }
                &&& same_state(*old(state), *final(state))
            },
            LoopEvent::Other => {
                &&& r is Continue
                &&& same_state(*old(state), *final(state))
            },
            LoopEvent::SampleTick => {
                &&& same_state(*old(state), *final(state))
                &&& (r is Continue <==> old(state).last_updated is None)
                &&& (r is Continue || (r matches LoopAction::Record(b) && batch_of(b, *old(state), now)))
            },
        },
{
    match event {
        LoopEvent::Message { topic, payload } => {
            if parse_message(prefix, topic.as_str(), payload.as_slice()) {
                apply_message_at(state, prefix, topic.as_str(), payload.as_slice(), read_number, now);
            } else {
                assert(number_read(read_number, message_effect_of(prefix@, topic@, payload@), None));
            }
            LoopAction::Continue
        },
        LoopEvent::Connected => LoopAction::Subscribe(subscription_topic(prefix)),
        LoopEvent::ConnectionError => LoopAction::Reconnect { delay_secs: RECONNECT_DELAY_SECS },
        LoopEvent::Other => LoopAction::Continue,
        LoopEvent::SampleTick => match take_sample(state, now) {
            Some(b) => LoopAction::Record(b),
            None => LoopAction::Continue,
        },
    }
}

} // verus!
