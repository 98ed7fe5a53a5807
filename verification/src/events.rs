//! Raw gesture-phase events, as plain fixed-point values.
//!
//! An event source (a libinput backend, a test) produces a sequential stream
//! of begin/update/end events per physical gesture kind; the classifier in
//! `crate::gestures` consumes them one by one.

use vstd::prelude::*;

use crate::gestures::{
    spec_listener_outcome, spec_listener_step, GestureOutcome, GestureType, Listener,
};

verus! {

/// Bound on every fixed-point value carried by a single raw event
/// (milli-units; one thousand million is one million whole units).
pub const EVENT_DELTA_LIMIT: i64 = 1_000_000_000;

/// One raw gesture-phase event. Deltas and angles are in milli-units and
/// milli-degrees; `scale` is an absolute pinch scale in milli-scale
/// (1000 is a scale of one). End events carry the cancellation flag.
#[derive(Clone, Copy, Debug, PartialEq, Eq, Structural)]
pub enum GestureEvent {
    SwipeBegin { fingers: i32 },
    SwipeUpdate { dx: i64, dy: i64 },
    SwipeEnd { cancelled: bool },
    PinchBegin { scale: i64 },
    PinchUpdate { dx: i64, dy: i64, angle: i64, scale: i64 },
    PinchEnd { cancelled: bool },
}

impl GestureEvent {
    /// Every fixed-point field of the event lies within `EVENT_DELTA_LIMIT`.
    pub open spec fn wf(self) -> bool {
        match self {
            GestureEvent::SwipeBegin { .. } => true,
            GestureEvent::SwipeUpdate { dx, dy } => {
                -EVENT_DELTA_LIMIT <= dx <= EVENT_DELTA_LIMIT
                    && -EVENT_DELTA_LIMIT <= dy <= EVENT_DELTA_LIMIT
            },
            GestureEvent::SwipeEnd { .. } => true,
            GestureEvent::PinchBegin { scale } => {
                -EVENT_DELTA_LIMIT <= scale <= EVENT_DELTA_LIMIT
            },
            GestureEvent::PinchUpdate { dx, dy, angle, scale } => {
                -EVENT_DELTA_LIMIT <= dx <= EVENT_DELTA_LIMIT
                    && -EVENT_DELTA_LIMIT <= dy <= EVENT_DELTA_LIMIT
                    && -EVENT_DELTA_LIMIT <= angle <= EVENT_DELTA_LIMIT
                    && -EVENT_DELTA_LIMIT <= scale <= EVENT_DELTA_LIMIT
            },
            GestureEvent::PinchEnd { .. } => true,
        }
    }
}

/// What a raw value becomes once held to the per-event bound.
pub open spec fn spec_clamp_event(v: i64) -> i64 {
    if v > EVENT_DELTA_LIMIT {
        EVENT_DELTA_LIMIT
    } else if v < -EVENT_DELTA_LIMIT {
        (-EVENT_DELTA_LIMIT) as i64
    } else {
        v
    }
}

/// Holds a raw fixed-point value to the per-event bound, so that any
/// telemetry reading can be made into a well-formed event.
pub fn clamp_event_value(v: i64) -> (r: i64)
    ensures
        r == spec_clamp_event(v),
        -EVENT_DELTA_LIMIT <= r <= EVENT_DELTA_LIMIT,
{
    if v > EVENT_DELTA_LIMIT {
        EVENT_DELTA_LIMIT
    } else if v < -EVENT_DELTA_LIMIT {
        -EVENT_DELTA_LIMIT
    } else {
        v
    }
}

/// The listener state after a whole batch of raw events, fed in order.
pub open spec fn spec_run_state(l: Listener, events: Seq<GestureEvent>) -> Listener
    decreases events.len(),
{
    if events.len() == 0 {
        l
    } else {
        spec_run_state(spec_listener_step(l, events[0]), events.drop_first())
    }
}

/// The gestures a whole batch of raw events emits, in order.
pub open spec fn spec_run_emissions(l: Listener, events: Seq<GestureEvent>) -> Seq<GestureType>
    decreases events.len(),
{
    if events.len() == 0 {
        Seq::<GestureType>::empty()
    } else {
        let rest = spec_run_emissions(spec_listener_step(l, events[0]), events.drop_first());
        match spec_listener_outcome(l, events[0]) {
            GestureOutcome::Emitted(t) => seq![t] + rest,
            _ => rest,
        }
    }
}

/// Source of the raw event stream. Polling the device is a caller's
/// affair; this type holds the part of listening that computes: feeding a
/// batch of polled events through a listener and collecting the emitted
/// gestures.
pub struct EventSource;

impl EventSource {
    /// Feeds a batch of raw events through the listener, in order, and
    /// returns the emitted gestures, in order.
    pub fn process(listener: &mut Listener, events: &Vec<GestureEvent>) -> (r: Vec<GestureType>)
        requires
            old(listener).wf(),
            forall|i: int| 0 <= i < events@.len() ==> (#[trigger] events@[i]).wf(),
        ensures
            *final(listener) == spec_run_state(*old(listener), events@),
            r@ == spec_run_emissions(*old(listener), events@),
            final(listener).wf(),
    {
        let mut emitted: Vec<GestureType> = Vec::new();
        let ghost l0 = *listener;
        let mut i: usize = 0;
        proof {
            assert(events@.skip(0) =~= events@);
            assert(emitted@ + spec_run_emissions(*listener, events@) =~= spec_run_emissions(
                *listener,
                events@,
            ));
        }
        while i < events.len()
            invariant
                0 <= i <= events@.len(),
                listener.wf(),
                forall|j: int| 0 <= j < events@.len() ==> (#[trigger] events@[j]).wf(),
                spec_run_state(l0, events@) == spec_run_state(*listener, events@.skip(i as int)),
                spec_run_emissions(l0, events@) == emitted@ + spec_run_emissions(
                    *listener,
                    events@.skip(i as int),
                ),
            decreases events@.len() - i,
        {
            let ghost pre = *listener;
            let outcome = listener.event(&events[i]);
            proof {
                assert(events@.skip(i as int)[0] == events@[i as int]);
                assert(events@.skip(i as int).drop_first() =~= events@.skip(i as int + 1));
            }
            match outcome {
                GestureOutcome::Emitted(t) => {
                    emitted.push(t);
                    proof {
                        assert(emitted@ + spec_run_emissions(*listener, events@.skip(i as int + 1))
                            =~= emitted@.drop_last() + (seq![t] + spec_run_emissions(
                            *listener,
                            events@.skip(i as int + 1),
                        )));
                    }
                },
                _ => (),
            }
            i = i + 1;
        }
        proof {
            assert(events@.skip(events@.len() as int) =~= Seq::<GestureEvent>::empty());
            assert(emitted@ + Seq::<GestureType>::empty() =~= emitted@);
        }
        emitted
    }
}

} // verus!
