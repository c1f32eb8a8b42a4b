//! The decisions of the two control threads, as pure functions.
//!
//! The main loop wakes about once a second, recomputes local time, skips the
//! iteration while the displayed second has not changed, and triggers a
//! weather refresh when the interval has elapsed; the embedding program
//! performs the fetch and hands the outcome back. The listener thread feeds
//! every message-bus event through [`listener_step`] and, on a movement
//! notification, stamps the event log via [`handle_movement_event`].

use vstd::prelude::*;

use crate::clock::{to_local, to_local_spec, LocalTime, MAX_EPOCH_SECS};
use crate::event_log::{push_spec, EventLog};
use crate::textfmt::{format_time, spec_time_str};
use crate::weather::{should_refresh_spec, WeatherCache, WeatherRecord};

verus! {

/// The message-bus topic whose payload `"1"` signals detected movement.
pub const MOVEMENT_TOPIC: &'static str = "Bewegung";

/// What one main-loop wake-up decided.
pub struct TickPlan {
    /// The local civil time of this instant.
    pub local: LocalTime,
    /// The displayed second has not changed: sleep briefly and try again,
    /// without rendering or refreshing.
    pub skip: bool,
    /// A weather fetch is due this iteration.
    pub refresh_weather: bool,
}

/// Decides one main-loop wake-up at `now_epoch_seconds`, given when weather
/// was last fetched and which second was last rendered.
pub fn plan_tick(
    now_epoch_seconds: u64,
    last_fetch_epoch_seconds: u64,
    last_rendered_second: u32,
) -> (r: TickPlan)
    requires
        now_epoch_seconds <= MAX_EPOCH_SECS as u64,
    ensures
        r.local == to_local_spec(now_epoch_seconds as int),
        r.skip == (r.local.second == last_rendered_second),
        r.refresh_weather == (!r.skip && should_refresh_spec(
            now_epoch_seconds as int,
            last_fetch_epoch_seconds as int,
        )),
{
    let local = to_local(now_epoch_seconds as i64);
    let skip = local.second == last_rendered_second;
    let refresh_weather = !skip && WeatherCache::should_refresh(
        now_epoch_seconds,
        last_fetch_epoch_seconds,
    );
    TickPlan { local, skip, refresh_weather }
}

/// Applies the outcome of a weather fetch: on success the cache is replaced
/// wholesale, the fetch instant recorded and a full redraw requested; on
/// failure (`None`) cache and fetch instant are left unchanged — the next
/// interval boundary retries.
pub fn apply_fetch_result(
    cache: &mut WeatherCache,
    last_fetch_epoch_seconds: &mut u64,
    fetched: Option<WeatherRecord>,
    now_epoch_seconds: u64,
) -> (redraw: bool)
    ensures
        match fetched {
            Option::Some(rec) => final(cache)@ == Option::Some(rec@)
                && *final(last_fetch_epoch_seconds) == now_epoch_seconds && redraw,
            Option::None => final(cache)@ == old(cache)@ && *final(last_fetch_epoch_seconds)
                == *old(last_fetch_epoch_seconds) && !redraw,
        },
{
    match fetched {
        Some(rec) => {
            cache.set(rec);
            *last_fetch_epoch_seconds = now_epoch_seconds;
            true
        },
        None => false,
    }
}

/// An event delivered by the message-bus connection, reduced to what the
/// listener reacts to.
#[derive(Debug, PartialEq)]
pub enum MqttEvent {
    Connected,
    BeforeConnect,
    Subscribed,
    Received { topic: Option<String>, data: Vec<u8> },
    Disconnected,
    Error,
    Other,
}

/// The subscription flag after seeing `event`: set by a confirmed
/// subscription, cleared by a (re)connect or a disconnect, kept otherwise.
pub open spec fn next_subscribed_spec(subscribed: bool, event: MqttEvent) -> bool {
    match event {
        MqttEvent::Connected => false,
        MqttEvent::Subscribed => true,
        MqttEvent::Disconnected => false,
        _ => subscribed,
    }
}

/// Whether `event` is a movement notification: a message on the movement
/// topic with payload `"1"`, seen while the subscription is confirmed.
pub open spec fn is_movement_spec(subscribed: bool, event: MqttEvent) -> bool {
    match event {
        MqttEvent::Received { topic, data } => match topic {
            Option::Some(t) => subscribed && t@ == "Bewegung"@ && data@ == seq![49u8],
            Option::None => false,
        },
        _ => false,
    }
}

fn payload_is_one(data: &Vec<u8>) -> (r: bool)
    ensures
        r == (data@ == seq![49u8]),
{
    let r = data.len() == 1 && data[0] == 49;
    proof {
        if r {
            assert(data@ =~= seq![49u8]);
        }
    }
    r
}

/// One step of the listener thread's state machine: yields the new
/// subscription flag and whether the event was a movement notification.
pub fn listener_step(subscribed: bool, event: &MqttEvent) -> (r: (bool, bool))
    ensures
        r.0 == next_subscribed_spec(subscribed, *event),
        r.1 == is_movement_spec(subscribed, *event),
{
    match event {
        MqttEvent::Connected => (false, false),
        MqttEvent::Subscribed => (true, false),
        MqttEvent::Disconnected => (false, false),
        MqttEvent::Received { topic, data } => {
            let movement = match topic {
                Some(t) => {
                    let target = String::from_str("Bewegung");
                    subscribed && *t == target && payload_is_one(data)
                },
                None => false,
            };
            (subscribed, movement)
        },
        _ => (subscribed, false),
    }
}

/// Stamps a detected movement: the current instant, converted to local time
/// and formatted, is pushed onto the event log (evicting the oldest entry
/// when full).
pub fn handle_movement_event(movement_events: &mut EventLog, utc_epoch_seconds: i64)
    requires
        0 <= utc_epoch_seconds <= MAX_EPOCH_SECS,
    ensures
        final(movement_events)@ == push_spec(
            old(movement_events)@,
            ({
                let lt = to_local_spec(utc_epoch_seconds as int);
                spec_time_str(lt.hour as nat, lt.minute as nat, lt.second as nat)
            }),
        ),
{
    let lt = to_local(utc_epoch_seconds);
    let formatted_time = format_time(lt.hour, lt.minute, lt.second);
    movement_events.push(formatted_time);
}

} // verus!
