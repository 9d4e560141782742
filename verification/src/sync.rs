use vstd::prelude::*;

use crate::presence::send_activity_update;
use crate::presence::Client;
use crate::state::{apply_mutation, ActivityPayload, ActivityState, Mutation};

verus! {

/// The update a sync tick issues from a payload and the dirty flag it found:
/// exactly one, carrying the payload as of the tick, when the payload was
/// mutated since the previous tick; none otherwise.
pub open spec fn tick_update(p: ActivityPayload, dirty: bool) -> Option<ActivityPayload> {
    if dirty {
        Some(p)
    } else {
        None
    }
}

/// The payload and dirty flag a sync tick leaves behind. The flag is cleared
/// and the payload kept — whether or not the update call failed: a failed
/// update is reported, not retried, and must not disturb the next tick.
pub open spec fn tick_post(p: ActivityPayload, update_failed: bool) -> (ActivityPayload, bool) {
    (p, false)
}

/// The payload and dirty flag after one mutating access.
pub open spec fn mutate_step(p: ActivityPayload, dirty: bool, m: Mutation) -> (
    ActivityPayload,
    bool,
) {
    (apply_mutation(p, m), true)
}

/// The payload and dirty flag after a whole run of mutating accesses, applied
/// in order.
pub open spec fn mutate_run(p: ActivityPayload, dirty: bool, ms: Seq<Mutation>) -> (
    ActivityPayload,
    bool,
)
    decreases ms.len(),
{
    if ms.len() == 0 {
        (p, dirty)
    } else {
        mutate_run(apply_mutation(p, ms[0]), true, ms.skip(1))
    }
}

/// The payload alone after a whole run of mutating accesses, applied in order.
pub open spec fn apply_mutations(p: ActivityPayload, ms: Seq<Mutation>) -> ActivityPayload
    decreases ms.len(),
{
    if ms.len() == 0 {
        p
    } else {
        apply_mutations(apply_mutation(p, ms[0]), ms.skip(1))
    }
}

/// What one sync tick did.
#[derive(Clone, Debug, PartialEq, Eq)]
pub enum SyncOutcome {
    /// The payload was not mutated since the last tick; no update call was
    /// made.
    NoChange,
    /// Exactly one update call was made and the external client accepted it.
    Updated,
    /// Exactly one update call was made and failed; the report text is
    /// carried here. The failure is not retried and does not disturb the
    /// state: only a new mutation makes the next tick call again.
    UpdateFailed(String),
}

/// Consumes the pending change, if any: exactly one update snapshot — the
/// payload as of this tick — when the payload was mutated since the last
/// tick, and none otherwise. Either way the dirty flag is cleared and the
/// payload kept.
pub fn pending_update(activity: &mut ActivityState) -> (update: Option<ActivityPayload>)
    ensures
        update == tick_update(old(activity).payload(), old(activity).dirty()),
        final(activity).payload() == old(activity).payload(),
        !final(activity).dirty(),
        final(activity).events() == old(activity).events(),
{
    if activity.take_dirty() {
        Some(activity.payload_ref().snapshot())
    } else {
        None
    }
}

/// The per-tick sync routine. When the payload was mutated since the last
/// tick — however many times — it hands the external client exactly one
/// update carrying the payload as of this tick; otherwise it hands it
/// nothing, and the client is untouched. A failed call is reported in the
/// outcome and goes no further: the state this tick leaves behind does not
/// depend on the call's result, so the next tick's dirty check is
/// undisturbed, and a failed update is retried only if the payload is
/// mutated again.
pub fn check_activity_changed(activity: &mut ActivityState, client: &mut Client) -> (outcome:
    SyncOutcome)
    ensures
        (final(activity).payload(), final(activity).dirty()) == tick_post(
            old(activity).payload(),
            outcome is UpdateFailed,
        ),
        final(activity).events() == old(activity).events(),
        (outcome is NoChange) <==> !old(activity).dirty(),
        old(activity).dirty() ==> final(client).updates() == old(client).updates().push(
            old(activity).payload(),
        ),
        !old(activity).dirty() ==> *final(client) == *old(client),
        final(client).registered() == old(client).registered(),
        final(client).started() == old(client).started(),
{
    match pending_update(activity) {
        None => SyncOutcome::NoChange,
        Some(update) => match send_activity_update(client, &update) {
            Ok(()) => SyncOutcome::Updated,
            Err(msg) => SyncOutcome::UpdateFailed(msg),
        },
    }
}

/// Law (dirty-coalescing): any run of one or more mutations between two
/// consecutive sync ticks leaves the state dirty with the folded payload, so
/// the next tick issues exactly one update, and that update carries the
/// payload as of the tick — never an intermediate payload — after which the
/// state is clean again.
pub proof fn lemma_dirty_coalescing(p: ActivityPayload, dirty: bool, ms: Seq<Mutation>)
    requires
        ms.len() >= 1,
    ensures
        mutate_run(p, dirty, ms) == (apply_mutations(p, ms), true),
        tick_update(apply_mutations(p, ms), true) == Some(apply_mutations(p, ms)),
        tick_post(apply_mutations(p, ms), false).1 == false,
    decreases ms.len(),
{
    if ms.len() == 1 {
        assert(ms.skip(1).len() == 0);
    } else {
        lemma_dirty_coalescing(apply_mutation(p, ms[0]), true, ms.skip(1));
    }
    assert(mutate_run(p, dirty, ms) == mutate_run(apply_mutation(p, ms[0]), true, ms.skip(1)));
    assert(apply_mutations(p, ms) == apply_mutations(apply_mutation(p, ms[0]), ms.skip(1)));
}

/// Law (no-change-no-call): whatever a tick did — update sent, update failed,
/// or nothing — the state it leaves is clean, so a second tick with no
/// mutation in between issues zero update calls.
pub proof fn lemma_no_change_no_call(p: ActivityPayload, update_failed: bool)
    ensures
        tick_update(tick_post(p, update_failed).0, tick_post(p, update_failed).1) is None,
{
}

/// Law (update failure isolation): a tick whose update call failed leaves
/// exactly the state a successful tick leaves, and every later run of
/// mutations and every later tick behaves the same from it.
pub proof fn lemma_update_failure_isolation(p: ActivityPayload, ms: Seq<Mutation>)
    ensures
        tick_post(p, true) == tick_post(p, false),
        mutate_run(tick_post(p, true).0, tick_post(p, true).1, ms) == mutate_run(
            tick_post(p, false).0,
            tick_post(p, false).1,
            ms,
        ),
{
}

/// Law (field omission): the update a tick issues for a payload with only
/// `details` populated sets `details` to that value and leaves `state`,
/// `instance` and `timestamps` unpopulated — absent from the wire call, never
/// explicitly cleared.
pub proof fn lemma_field_omission(p: ActivityPayload)
    requires
        p.details is Some,
        p.state is None,
        p.instance is None,
        p.timestamps is None,
    ensures
        ({
            let u = tick_update(p, true);
            &&& u matches Some(sent)
            &&& sent.details == p.details
            &&& sent.state is None
            &&& sent.instance is None
            &&& sent.timestamps is None
        }),
{
}

} // verus!
