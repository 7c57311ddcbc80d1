//! The settings read side: the predicate a settings long-poll evaluates
//! against the store. The settings cell exists from process start, so this
//! poll can report an update or "not yet", never an absence.

use crate::long_poll::{run_from, PollEvent, PollOutcome};
use crate::server_context::{FanOverride, ServerState};
use vstd::prelude::*;

verus! {

/// The payload a satisfied settings poll returns: a consistent snapshot of
/// the whole settings record and its revision.
#[derive(Clone, Copy, Debug, PartialEq, Eq, Structural)]
pub struct UpdateResponse {
    pub revision_num: i32,
    pub fan_activation_temp: i32,
    pub fan_override: FanOverride,
}

/// What one settings check reports, as a function of the store and the
/// caller's last known revision: the snapshot when the settings revision is
/// newer, "not yet" otherwise. Never unavailable.
pub open spec fn settings_event(state: ServerState, last_known_revision_num: i32) -> PollEvent<
    UpdateResponse,
> {
    if state.settings.spec_revision() > last_known_revision_num {
        PollEvent::Ready(
            UpdateResponse {
                revision_num: state.settings.spec_revision(),
                fan_activation_temp: state.settings.spec_fan_activation_temp(),
                fan_override: state.settings.spec_fan_override(),
            },
        )
    } else {
        PollEvent::NotYet
    }
}

/// One polling attempt's check of the settings against the caller's last
/// known revision. Ready exactly when the settings revision is newer.
pub fn settings_check(state: &ServerState, last_known_revision_num: i32) -> (e: PollEvent<
    UpdateResponse,
>)
    ensures
        e == settings_event(*state, last_known_revision_num),
        e !is Unavailable,
{
    let revision_num = state.settings.revision_num();
    if revision_num > last_known_revision_num {
        PollEvent::Ready(UpdateResponse {
            revision_num,
            fan_activation_temp: state.settings.fan_activation_temp(),
            fan_override: state.settings.fan_override(),
        })
    } else {
        PollEvent::NotYet
    }
}

/// Fast path for the settings poll: when the settings revision is already
/// newer than the caller's at the first check, the poll finishes on attempt
/// 1 with the current record, without waiting any interval.
pub proof fn lemma_settings_fast_path(
    state: ServerState,
    last_known_revision_num: i32,
    events: Seq<PollEvent<UpdateResponse>>,
)
    requires
        events.len() > 0,
        events[0] == settings_event(state, last_known_revision_num),
        state.settings.spec_revision() > last_known_revision_num,
    ensures
        run_from(0, events) == (
            1int,
            Some(
                PollOutcome::Updated(
                    (UpdateResponse {
                        revision_num: state.settings.spec_revision(),
                        fan_activation_temp: state.settings.spec_fan_activation_temp(),
                        fan_override: state.settings.spec_fan_override(),
                    }),
                ),
            ),
        ),
{
}

} // verus!
