//! What holds of every device and every request, proved over the model.

use crate::action::Action;
use crate::duty::{
    active_count, is_prefix_active, lemma_active_count_bound, lemma_active_slots, max_active_index,
};
use crate::error::DeviceError;
use crate::model::{is_placeholder_list, offers, DeviceView};
use vstd::prelude::*;

verus! {

/// Of a table that can be installed, the last active index is the number of
/// active slots less one, the slots up to it are active and those after it
/// are not, so that no active slot follows an inactive one.
pub proof fn lemma_last_active_index(table: Seq<Option<u32>>)
    requires
        table.len() <= usize::MAX,
        max_active_index(table) is Ok,
    ensures
        max_active_index(table)->Ok_0 == active_count(table) - 1,
        max_active_index(table)->Ok_0 < table.len(),
        forall|i: int|
            0 <= i < table.len() ==> (#[trigger] table[i] is Some <==> i <= max_active_index(
                table,
            )->Ok_0),
        is_prefix_active(table),
{
    lemma_active_count_bound(table);
    assert forall|i: int| 0 <= i < table.len() implies (#[trigger] table[i] is Some <==> i
        <= max_active_index(table)->Ok_0) by {
        lemma_active_slots(table, i);
    }
}

/// A list of placeholders offers an action exactly if it holds the
/// representative of the action's kind.
pub proof fn lemma_offers_representative(list: Seq<Action>, action: Action)
    requires
        is_placeholder_list(list),
    ensures
        offers(list, action) <==> list.contains(action.representative()),
{
    if offers(list, action) {
        let i = choose|i: int| 0 <= i < list.len() && (#[trigger] list[i]).same_kind(action);
        assert(list[i] == action.representative());
    }
    if list.contains(action.representative()) {
        let i = choose|i: int| 0 <= i < list.len() && list[i] == action.representative();
        assert(list[i].same_kind(action));
    }
}

/// A device meets its invariant exactly if it has no defect: `from_parts`
/// accepts the parts of every device that meets the invariant, gives that
/// device back, and refuses all other parts.
pub proof fn lemma_no_defect(device: DeviceView)
    ensures
        device.wf() <==> device.defect() is None,
{
}

/// A request, accepted or not, keeps the invariant: whatever the action and
/// its step, the target stays within the active slots.
pub proof fn lemma_request_keeps_invariant(device: DeviceView, action: Action)
    requires
        device.wf(),
    ensures
        device.requested(action).wf(),
        device.requested(action).target <= device.max_duty_cycle_index,
{
}

/// An accepted request records the action as it was requested and marks the
/// device as changed; it leaves alone everything but the action, the target,
/// the direction and that mark. A refused request changes nothing.
pub proof fn lemma_request_frame(device: DeviceView, action: Action)
    ensures
        device.outcome(action) is Ok ==> device.requested(action).action == action
            && device.requested(action).updated,
        device.outcome(action) is Err ==> device.requested(action) == device,
        device.requested(action) == (DeviceView {
            action: device.requested(action).action,
            target: device.requested(action).target,
            reversed: device.requested(action).reversed,
            updated: device.requested(action).updated,
            ..device
        }),
{
}

/// `On` selects the default target, `Off` selects slot 0, and both mark the
/// device as changed, on a device that offers them.
pub proof fn lemma_on_and_off(device: DeviceView)
    ensures
        offers(device.available_actions, Action::On) ==> {
            &&& device.outcome(Action::On) is Ok
            &&& device.requested(Action::On).target == device.default_target
            &&& device.requested(Action::On).updated
        },
        offers(device.available_actions, Action::Off) ==> {
            &&& device.outcome(Action::Off) is Ok
            &&& device.requested(Action::Off).target == 0
            &&& device.requested(Action::Off).updated
        },
{
}

/// Repeated `Up` without a step climbs one slot at a time and stops at the
/// last active slot: after `count` requests the target is the smaller of
/// `target + count` and the last active index.
pub proof fn lemma_up_saturates(device: DeviceView, count: nat)
    requires
        device.wf(),
        offers(device.available_actions, Action::Up(None)),
    ensures
        device.requested_times(Action::Up(None), count).wf(),
        device.requested_times(Action::Up(None), count).available_actions
            == device.available_actions,
        device.requested_times(Action::Up(None), count).max_duty_cycle_index
            == device.max_duty_cycle_index,
        device.requested_times(Action::Up(None), count).target == if device.target + count
            < device.max_duty_cycle_index {
            device.target + count
        } else {
            device.max_duty_cycle_index
        },
    decreases count,
{
    if count > 0 {
        lemma_up_saturates(device, (count - 1) as nat);
    }
}

/// Repeated `Down` without a step descends one slot at a time and stops at
/// slot 0: after `count` requests the target is `target - count`, or 0 where
/// that would be negative.
pub proof fn lemma_down_saturates(device: DeviceView, count: nat)
    requires
        device.wf(),
        offers(device.available_actions, Action::Down(None)),
    ensures
        device.requested_times(Action::Down(None), count).wf(),
        device.requested_times(Action::Down(None), count).available_actions
            == device.available_actions,
        device.requested_times(Action::Down(None), count).target == if count < device.target {
            device.target - count
        } else {
            0
        },
    decreases count,
{
    if count > 0 {
        lemma_down_saturates(device, (count - 1) as nat);
    }
}

/// A `SetAbsolute` beyond the last active slot is refused with
/// `DeviceError::Range` by a device that offers the kind, and the device
/// stays as it was.
pub proof fn lemma_set_beyond_range(device: DeviceView, index: usize)
    requires
        offers(device.available_actions, Action::SetAbsolute(index)),
        index > device.max_duty_cycle_index,
    ensures
        device.outcome(Action::SetAbsolute(index)) == Err::<(), DeviceError>(DeviceError::Range),
        device.requested(Action::SetAbsolute(index)) == device,
{
}

/// A device that does not offer an action refuses it with
/// `DeviceError::NotAvailable` and stays as it was.
pub proof fn lemma_not_offered(device: DeviceView, action: Action)
    requires
        !offers(device.available_actions, action),
    ensures
        device.outcome(action) == Err::<(), DeviceError>(DeviceError::NotAvailable),
        device.requested(action) == device,
{
}

/// After an accepted request the device owes the hardware an update, and the
/// reading is the intensity of the selected slot, which is active, scaled by
/// `scale` percent. Taking the reading clears the debt; a second reading
/// finds nothing owed and gives the same value.
pub proof fn lemma_reading_after_request(device: DeviceView, action: Action, scale: u32)
    requires
        device.wf(),
        device.outcome(action) is Ok,
    ensures
        ({
            let changed = device.requested(action);
            let read = changed.acknowledged();
            &&& changed.updated
            &&& changed.duty_cycles[changed.target as int] is Some
            &&& changed.reading(scale) == changed.duty_cycles[changed.target as int]->0 * scale
                / 100
            &&& !read.updated
            &&& read.wf()
            &&& read.reading(scale) == changed.reading(scale)
            &&& read.acknowledged() == read
        }),
{
    let changed = device.requested(action);
    lemma_active_count_bound(changed.duty_cycles);
    lemma_active_slots(changed.duty_cycles, changed.target as int);
}

/// A reading with a scale of at most 100 percent is no larger than the
/// selected intensity.
pub proof fn lemma_reading_bound(device: DeviceView, scale: u32)
    requires
        scale <= 100,
    ensures
        0 <= device.reading(scale) <= device.level(),
{
    let level = device.level() as int;
    assert(level * scale <= level * 100) by (nonlinear_arith)
        requires
            0 <= level,
            0 <= scale <= 100,
    ;
    assert(0 <= level * scale) by (nonlinear_arith)
        requires
            0 <= level,
            0 <= scale,
    ;
}

} // verus!
