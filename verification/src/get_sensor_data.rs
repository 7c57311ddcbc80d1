//! The temperature read side: the predicate one long-poll request evaluates
//! against the store, and the terminal responses it maps its outcome to.
//!
//! The server evaluates [`sensor_data_check`] once per polling attempt,
//! holding the store's lock only for the check itself, and feeds the event
//! to the coordinator in [`crate::long_poll`].

use crate::long_poll::{run_from, PollEvent, PollOutcome};
use crate::server_context::ServerState;
use vstd::prelude::*;

verus! {

/// The payload a satisfied temperature poll returns: a consistent
/// `(revision, value)` snapshot of the temperature cell.
#[derive(Clone, Copy, Debug, PartialEq, Eq, Structural)]
pub struct UpdateResponse {
    pub revision_num: i32,
    pub temperature: i32,
}

/// What one temperature check reports, as a function of the store and the
/// caller's last known revision: the snapshot when the cell holds a newer
/// revision, "not yet" when it does not, and "unavailable" when no
/// temperature has ever been reported.
pub open spec fn sensor_data_event(state: ServerState, last_known_revision_num: i32) -> PollEvent<
    UpdateResponse,
> {
    match state.fan_temperature {
        Option::Some(t) => if t.spec_revision() > last_known_revision_num {
            PollEvent::Ready(
                UpdateResponse { revision_num: t.spec_revision(), temperature: t.spec_value() },
            )
        } else {
            PollEvent::NotYet
        },
        Option::None => PollEvent::Unavailable,
    }
}

/// One polling attempt's check of the temperature against the caller's last
/// known revision. Ready exactly when a temperature is present at a newer
/// revision; Unavailable exactly when none was ever reported.
pub fn sensor_data_check(state: &ServerState, last_known_revision_num: i32) -> (e: PollEvent<
    UpdateResponse,
>)
    ensures
        e == sensor_data_event(*state, last_known_revision_num),
{
    match &state.fan_temperature {
        Some(t) => {
            let revision_num = t.revision_num();
            if revision_num > last_known_revision_num {
                PollEvent::Ready(UpdateResponse { revision_num, temperature: t.value() })
            } else {
                PollEvent::NotYet
            }
        },
        None => PollEvent::Unavailable,
    }
}

/// Fast path for the temperature poll: when the store already holds a newer
/// revision than the caller's at the time of the first check, the poll
/// finishes on attempt 1 with that snapshot, without waiting any interval.
pub proof fn lemma_sensor_data_fast_path(
    state: ServerState,
    last_known_revision_num: i32,
    events: Seq<PollEvent<UpdateResponse>>,
)
    requires
        events.len() > 0,
        events[0] == sensor_data_event(state, last_known_revision_num),
        state.fan_temperature matches Some(t) && t.spec_revision() > last_known_revision_num,
    ensures
        run_from(0, events) == (
            1int,
            Some(
                PollOutcome::Updated(
                    (UpdateResponse {
                        revision_num: state.fan_temperature.unwrap().spec_revision(),
                        temperature: state.fan_temperature.unwrap().spec_value(),
                    }),
                ),
            ),
        ),
{
}

/// Absence is distinct from staleness: when no temperature has ever been
/// reported, the very first check ends the poll as Unavailable — the caller
/// is told at once, not after the window.
pub proof fn lemma_sensor_data_absence_immediate(
    state: ServerState,
    last_known_revision_num: i32,
    events: Seq<PollEvent<UpdateResponse>>,
)
    requires
        events.len() > 0,
        events[0] == sensor_data_event(state, last_known_revision_num),
        state.fan_temperature is None,
    ensures
        run_from(0, events) == (1int, Some(PollOutcome::<UpdateResponse>::Unavailable)),
{
}

/// The response the temperature endpoint sends, shaped for the transport
/// layer to serialize: an HTTP status code and, for an update, the snapshot.
pub enum EndpointResponse {
    /// 200 with the updated snapshot as the body.
    Update(UpdateResponse),
    /// 200 with an empty body: the window elapsed with no update.
    Empty,
    /// An error status with a message body.
    Error(u16, &'static str),
}

/// Maps a finished poll to the response the endpoint sends: an update as it
/// is, exhaustion as a benign empty success, and absence as 503 with the
/// message the server reports when no fan sensor has ever checked in.
pub fn endpoint_response_of(outcome: PollOutcome<UpdateResponse>) -> (r: EndpointResponse)
    ensures
        (match outcome {
            PollOutcome::Updated(u) => r == EndpointResponse::Update(u),
            PollOutcome::Exhausted => r == EndpointResponse::Empty,
            PollOutcome::Unavailable => r == (EndpointResponse::Error(
                503,
                "No fan connected to server.",
            )),
        }),
{
    match outcome {
        PollOutcome::Updated(u) => EndpointResponse::Update(u),
        PollOutcome::Exhausted => EndpointResponse::Empty,
        PollOutcome::Unavailable => EndpointResponse::Error(503, "No fan connected to server."),
    }
}

} // verus!
