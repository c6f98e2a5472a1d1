//! The mathematical model of a device, over which the contracts are stated.

use crate::action::Action;
use crate::duty::{
    active_count, is_prefix_active, is_valid_table, lemma_active_count_bound, lemma_active_slots,
};
use crate::error::DeviceError;
use crate::group::DeviceGroup;
use uuid::Uuid;
use vstd::prelude::*;

verus! {

/// Whether every entry of a list of available actions is the representative
/// of its kind.
pub open spec fn is_placeholder_list(list: Seq<Action>) -> bool {
    forall|i: int| 0 <= i < list.len() ==> (#[trigger] list[i]).representative() == list[i]
}

/// Whether a list of available actions permits `action`: it holds an entry
/// of the same kind. For the kinds that carry nothing this is the action
/// itself.
pub open spec fn offers(list: Seq<Action>, action: Action) -> bool {
    exists|i: int| 0 <= i < list.len() && (#[trigger] list[i]).same_kind(action)
}

/// The number of steps that an `Up` or a `Down` moves.
pub open spec fn step_amount(step: Option<usize>) -> nat {
    match step {
        Some(amount) => amount as nat,
        None => 1,
    }
}

/// The duty-cycle table of a new device.
pub open spec fn default_table() -> Seq<Option<u32>> {
    seq![
        Some(0u32),
        Some(2u32),
        Some(4u32),
        Some(8u32),
        Some(16u32),
        Some(32u32),
        Some(64u32),
        Some(96u32),
    ]
}

/// The actions that a new device offers.
pub open spec fn default_actions() -> Seq<Action> {
    seq![
        Action::On,
        Action::Off,
        Action::Up(None),
        Action::Down(None),
        Action::Min,
        Action::Max,
        Action::SetAbsolute(0),
    ]
}

/// A device as a mathematical value.
pub struct DeviceView {
    pub uuid: Uuid,
    pub name: Seq<char>,
    pub action: Action,
    pub available_actions: Seq<Action>,
    pub default_target: nat,
    pub duty_cycles: Seq<Option<u32>>,
    pub max_duty_cycle_index: nat,
    pub target: nat,
    pub freq_hz: u32,
    pub device_group: Option<DeviceGroup>,
    pub reversed: bool,
    pub updated: bool,
}

impl DeviceView {
    /// A new device: switched off, with the default table and actions, and
    /// owing the hardware a first update.
    pub open spec fn initial(uuid: Uuid, name: Seq<char>) -> DeviceView {
        DeviceView {
            uuid,
            name,
            action: Action::Off,
            available_actions: default_actions(),
            default_target: 3,
            duty_cycles: default_table(),
            max_duty_cycle_index: 7,
            target: 0,
            freq_hz: 100,
            device_group: None,
            reversed: false,
            updated: true,
        }
    }

    /// What is wrong with the device, if anything. Defects are looked for in
    /// this order: an available action that carries a payload; a malformed
    /// table, or a last active index that is not the table's; a target or a
    /// default target beyond the last active index.
    pub open spec fn defect(self) -> Option<DeviceError> {
        if !is_placeholder_list(self.available_actions) {
            Some(DeviceError::Payload)
        } else if self.duty_cycles.len() != 8 || !is_valid_table(self.duty_cycles)
            || self.max_duty_cycle_index != active_count(self.duty_cycles) - 1 {
            Some(DeviceError::Invariant)
        } else if self.default_target > self.max_duty_cycle_index || self.target
            > self.max_duty_cycle_index {
            Some(DeviceError::Range)
        } else {
            None
        }
    }

    /// The invariant of a device: its table has eight slots, the active ones
    /// first and at least one; `max_duty_cycle_index` is the index of the
    /// last active slot; neither target lies beyond it; and the available
    /// actions carry placeholders only.
    pub open spec fn wf(self) -> bool {
        &&& self.duty_cycles.len() == 8
        &&& is_valid_table(self.duty_cycles)
        &&& self.max_duty_cycle_index == active_count(self.duty_cycles) - 1
        &&& self.default_target <= self.max_duty_cycle_index
        &&& self.target <= self.max_duty_cycle_index
        &&& is_placeholder_list(self.available_actions)
    }

    /// Whether the device accepts `action`, and why not: it must offer the
    /// action, and a `SetAbsolute` must stay within the active slots.
    pub open spec fn outcome(self, action: Action) -> Result<(), DeviceError> {
        if !offers(self.available_actions, action) {
            Err(DeviceError::NotAvailable)
        } else if action matches Action::SetAbsolute(index) && index > self.max_duty_cycle_index {
            Err(DeviceError::Range)
        } else {
            Ok(())
        }
    }

    /// The target that an accepted `action` selects.
    pub open spec fn next_target(self, action: Action) -> nat {
        let top = self.max_duty_cycle_index;
        match action {
            Action::On => self.default_target,
            Action::Off => 0,
            Action::Up(step) => if self.target + step_amount(step) < top {
                self.target + step_amount(step)
            } else {
                top
            },
            Action::Down(step) => if step_amount(step) < self.target {
                (self.target - step_amount(step)) as nat
            } else {
                0
            },
            Action::Min => if top < 1 {
                top
            } else {
                1
            },
            Action::Max => top,
            Action::Reverse => self.target,
            Action::SetAbsolute(index) => index as nat,
        }
    }

    /// The device after it has taken an accepted `action`.
    pub open spec fn after(self, action: Action) -> DeviceView {
        DeviceView {
            action,
            target: self.next_target(action),
            reversed: if action is Reverse {
                !self.reversed
            } else {
                self.reversed
            },
            updated: true,
            ..self
        }
    }

    /// The device after a request for `action`: changed if the request is
    /// accepted, as it was if not.
    pub open spec fn requested(self, action: Action) -> DeviceView {
        if self.outcome(action) is Ok {
            self.after(action)
        } else {
            self
        }
    }

    /// The device after `count` requests for `action` in a row.
    pub open spec fn requested_times(self, action: Action, count: nat) -> DeviceView
        decreases count,
    {
        if count == 0 {
            self
        } else {
            self.requested_times(action, (count - 1) as nat).requested(action)
        }
    }

    /// The intensity of the slot that the target selects.
    pub open spec fn level(self) -> u32 {
        self.duty_cycles[self.target as int]->0
    }

    /// The duty cycle to program: the selected intensity scaled by
    /// `scale` percent, rounded down.
    pub open spec fn reading(self, scale: u32) -> int {
        self.level() * scale / 100
    }

    /// The device after the hardware has taken its reading.
    pub open spec fn acknowledged(self) -> DeviceView {
        DeviceView { updated: false, ..self }
    }
}

/// The default table is valid, and its last active slot is the last slot.
pub proof fn lemma_default_table()
    ensures
        is_valid_table(default_table()),
        active_count(default_table()) == 8,
{
    let table = default_table();
    assert(is_prefix_active(table));
    lemma_active_slots(table, 7);
    lemma_active_count_bound(table);
}

} // verus!
