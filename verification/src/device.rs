//! A device: what it is, what it can do, which duty cycle it selects, and how
//! a requested action changes that.

use crate::action::Action;
use crate::duty::{active_count, lemma_active_count_bound, lemma_active_slots, max_active_index};
use crate::error::DeviceError;
use crate::group::DeviceGroup;
use crate::model::{
    default_actions, default_table, is_placeholder_list, lemma_default_table, offers, DeviceView,
};
use uuid::Uuid;
use vstd::prelude::*;

verus! {

/// Represents a device on a node.
///
/// It is assumed to control a PWM based device. The available duty cycles
/// are stored in `duty_cycles`, each the percent of the time that the device
/// will be on; `target` says which of them is selected. Actions control the
/// selection.
///
/// The setter functions validate against what is installed when they are
/// called, so some valid sets of properties are refused if they are assigned
/// in the wrong order.
#[derive(Debug, Clone, PartialEq, Eq, Hash)]
pub struct Device {
    /// Unique identifier for the device.
    pub uuid: Uuid,
    /// A human-readable name for the device, unique on the network.
    pub name: String,
    /// What the device is about to do or last did.
    pub action: Action,
    /// What the device can do, each kind by its representative.
    available_actions: Vec<Action>,
    /// The target that the `On` action selects.
    default_target: usize,
    /// The duty cycles that can be targeted by the device.
    duty_cycles: [Option<u32>; 8],
    /// The index of the last active duty cycle.
    max_duty_cycle_index: usize,
    /// The index of the duty cycle that is selected.
    target: usize,
    /// The frequency that the PWM will operate at in Hz.
    #[allow(non_snake_case)]
    pub freq_Hz: u32,
    /// The group by which the device is addressed with others, if any.
    pub device_group: Option<DeviceGroup>,
    /// The direction of a reversible device.
    pub reversed: bool,
    /// Whether the state has changed since the hardware last read it.
    updated: bool,
}

impl View for Device {
    type V = DeviceView;

    closed spec fn view(&self) -> DeviceView {
        DeviceView {
            uuid: self.uuid,
            name: self.name@,
            action: self.action,
            available_actions: self.available_actions@,
            default_target: self.default_target as nat,
            duty_cycles: self.duty_cycles@,
            max_duty_cycle_index: self.max_duty_cycle_index as nat,
            target: self.target as nat,
            freq_hz: self.freq_Hz,
            device_group: self.device_group,
            reversed: self.reversed,
            updated: self.updated,
        }
    }
}

/// `level` scaled by `scale` percent, rounded down.
fn scaled(level: u32, scale: u32) -> (part: u32)
    requires
        level * scale / 100 <= u32::MAX,
    ensures
        part == level * scale / 100,
{
    proof {
        assert(level * scale <= 0xffff_ffff * 0xffff_ffff) by (nonlinear_arith)
            requires
                level <= 0xffff_ffff,
                scale <= 0xffff_ffff,
        ;
    }
    let product: u64 = (level as u64) * (scale as u64);
    (product / 100) as u32
}

/// Whether `available` holds an entry of the kind of `action`.
fn is_offered(available: &Vec<Action>, action: &Action) -> (found: bool)
    ensures
        found == offers(available@, *action),
{
    let mut i: usize = 0;
    while i < available.len()
        invariant
            i <= available.len(),
            forall|k: int| 0 <= k < i ==> !(#[trigger] available@[k]).same_kind(*action),
        decreases available.len() - i,
    {
        if available[i].same_variant(action) {
            return true;
        }
        i += 1;
    }
    false
}

/// Whether every entry of `list` is the representative of its kind.
fn holds_placeholders(list: &Vec<Action>) -> (clean: bool)
    ensures
        clean == is_placeholder_list(list@),
{
    let mut i: usize = 0;
    while i < list.len()
        invariant
            i <= list.len(),
            forall|k: int| 0 <= k < i ==> (#[trigger] list@[k]).representative() == list@[k],
        decreases list.len() - i,
    {
        match list[i] {
            Action::Up(Some(_)) => {
                return false;
            },
            Action::Down(Some(_)) => {
                return false;
            },
            Action::SetAbsolute(v) => {
                if v != 0 {
                    return false;
                }
            },
            _ => {},
        }
        i += 1;
    }
    true
}

impl Device {
    /// Whether the device meets its invariant.
    pub open spec fn wf(&self) -> bool {
        self@.wf()
    }

    /// Constructs a new `Device` with the given `uuid` and `name`. All other
    /// properties are filled with defaults and can be changed with the
    /// setter functions.
    pub fn build(uuid: Uuid, name: String) -> (built: Result<Self, DeviceError>)
        ensures
            built is Ok,
            built->Ok_0@ == DeviceView::initial(uuid, name@),
            built->Ok_0.wf(),
    {
        let duty_cycles = [
            Some(0),
            Some(2),
            Some(4),
            Some(8),
            Some(16),
            Some(32),
            Some(64),
            Some(96),
        ];
        proof {
            assert(duty_cycles@ =~= default_table());
            lemma_default_table();
        }
        let max_duty_cycle_index = Self::get_max_duty_cycle_index(&duty_cycles)?;
        let available_actions = vec![
            Action::On,
            Action::Off,
            Action::Up(None),
            Action::Down(None),
            Action::Min,
            Action::Max,
            Action::SetAbsolute(0),
        ];
        proof {
            assert(available_actions@ =~= default_actions());
        }
        Ok(
            Self {
                uuid,
                name,
                action: Action::Off,
                available_actions,
                default_target: 3,
                duty_cycles,
                max_duty_cycle_index,
                target: 0,
                freq_Hz: 100,
                device_group: None,
                reversed: false,
                updated: true,
            },
        )
    }

    /// Sets what the device is about to do or last did.
    pub fn action(self, action: Action) -> (built: Result<Self, DeviceError>)
        ensures
            built is Ok,
            built->Ok_0@ == (DeviceView { action, ..self@ }),
            self.wf() && built is Ok ==> built->Ok_0.wf(),
    {
        let mut device = self;
        device.action = action;
        Ok(device)
    }

    /// Sets what the device can do. Every entry must be the representative
    /// of its kind: `Up` and `Down` without a step, `SetAbsolute` with
    /// index 0.
    pub fn available_actions(self, available_actions: Vec<Action>) -> (built: Result<
        Self,
        DeviceError,
    >)
        ensures
            if is_placeholder_list(available_actions@) {
                built is Ok && built->Ok_0@ == (DeviceView {
                    available_actions: available_actions@,
                    ..self@
                })
            } else {
                built == Err::<Self, DeviceError>(DeviceError::Payload)
            },
            self.wf() && built is Ok ==> built->Ok_0.wf(),
    {
        if !holds_placeholders(&available_actions) {
            return Err(DeviceError::Payload);
        }
        let mut device = self;
        device.available_actions = available_actions;
        Ok(device)
    }

    /// What the device can do.
    pub fn get_available_actions(&self) -> (list: &Vec<Action>)
        ensures
            list@ == self@.available_actions,
    {
        &self.available_actions
    }

    /// Sets the target that `On` selects. It must not lie beyond the last
    /// active slot of the installed table.
    pub fn default_target(self, default_target: usize) -> (built: Result<Self, DeviceError>)
        ensures
            if default_target <= self@.max_duty_cycle_index {
                built is Ok && built->Ok_0@ == (DeviceView {
                    default_target: default_target as nat,
                    ..self@
                })
            } else {
                built == Err::<Self, DeviceError>(DeviceError::Range)
            },
            self.wf() && built is Ok ==> built->Ok_0.wf(),
    {
        if default_target > self.max_duty_cycle_index {
            return Err(DeviceError::Range);
        }
        let mut device = self;
        device.default_target = default_target;
        Ok(device)
    }

    /// The target that `On` selects.
    pub fn get_default_target(&self) -> (index: usize)
        ensures
            index == self@.default_target,
    {
        self.default_target
    }

    /// Installs a duty-cycle table. Its active slots must come first, there
    /// must be at least one, and neither the target nor the default target
    /// that are installed may lie beyond the last of them.
    pub fn duty_cycles(self, duty_cycles: [Option<u32>; 8]) -> (built: Result<
        Self,
        DeviceError,
    >)
        ensures
            match max_active_index(duty_cycles@) {
                Err(error) => built == Err::<Self, DeviceError>(error),
                Ok(last) => if self@.default_target > last || self@.target > last {
                    built == Err::<Self, DeviceError>(DeviceError::Range)
                } else {
                    built is Ok && built->Ok_0@ == (DeviceView {
                        duty_cycles: duty_cycles@,
                        max_duty_cycle_index: last as nat,
                        ..self@
                    })
                },
            },
            self.wf() && built is Ok ==> built->Ok_0.wf(),
    {
        proof {
            lemma_active_count_bound(duty_cycles@);
        }
        let max_duty_cycle_index = Device::get_max_duty_cycle_index(&duty_cycles)?;
        if self.default_target > max_duty_cycle_index || self.target > max_duty_cycle_index {
            return Err(DeviceError::Range);
        }
        let mut device = self;
        device.duty_cycles = duty_cycles;
        device.max_duty_cycle_index = max_duty_cycle_index;
        Ok(device)
    }

    /// The installed duty-cycle table.
    pub fn get_duty_cycles(&self) -> (table: &[Option<u32>; 8])
        ensures
            table@ == self@.duty_cycles,
    {
        &self.duty_cycles
    }

    /// The index of the last active slot of the installed table.
    pub fn max_duty_cycle_index(&self) -> (index: usize)
        ensures
            index == self@.max_duty_cycle_index,
    {
        self.max_duty_cycle_index
    }

    /// Selects a duty cycle. The index must not lie beyond the last active
    /// slot of the installed table.
    pub fn target(self, target: usize) -> (built: Result<Self, DeviceError>)
        ensures
            if target <= self@.max_duty_cycle_index {
                built is Ok && built->Ok_0@ == (DeviceView { target: target as nat, ..self@ })
            } else {
                built == Err::<Self, DeviceError>(DeviceError::Range)
            },
            self.wf() && built is Ok ==> built->Ok_0.wf(),
    {
        if target > self.max_duty_cycle_index {
            return Err(DeviceError::Range);
        }
        let mut device = self;
        device.target = target;
        Ok(device)
    }

    /// The index of the selected duty cycle.
    pub fn get_target(&self) -> (index: usize)
        ensures
            index == self@.target,
    {
        self.target
    }

    /// Sets the frequency of the PWM in Hz.
    #[allow(non_snake_case)]
    pub fn freq_Hz(self, freq: u32) -> (built: Result<Self, DeviceError>)
        ensures
            built is Ok,
            built->Ok_0@ == (DeviceView { freq_hz: freq, ..self@ }),
            self.wf() && built is Ok ==> built->Ok_0.wf(),
    {
        let mut device = self;
        device.freq_Hz = freq;
        Ok(device)
    }

    /// Sets the group by which the device is addressed with others.
    pub fn device_group(self, device_group: Option<DeviceGroup>) -> (built: Result<
        Self,
        DeviceError,
    >)
        ensures
            built is Ok,
            built->Ok_0@ == (DeviceView { device_group, ..self@ }),
            self.wf() && built is Ok ==> built->Ok_0.wf(),
    {
        let mut device = self;
        device.device_group = device_group;
        Ok(device)
    }

    /// Puts a device together from its parts, as they come out of storage.
    /// The parts must meet the invariant of a device; the first defect found
    /// is the error.
    #[allow(non_snake_case)]
    pub fn from_parts(
        uuid: Uuid,
        name: String,
        action: Action,
        available_actions: Vec<Action>,
        default_target: usize,
        duty_cycles: [Option<u32>; 8],
        max_duty_cycle_index: usize,
        target: usize,
        freq_Hz: u32,
        device_group: Option<DeviceGroup>,
        reversed: bool,
        updated: bool,
    ) -> (built: Result<Self, DeviceError>)
        ensures
            ({
                let parts = DeviceView {
                    uuid,
                    name: name@,
                    action,
                    available_actions: available_actions@,
                    default_target: default_target as nat,
                    duty_cycles: duty_cycles@,
                    max_duty_cycle_index: max_duty_cycle_index as nat,
                    target: target as nat,
                    freq_hz: freq_Hz,
                    device_group,
                    reversed,
                    updated,
                };
                match parts.defect() {
                    Some(error) => built == Err::<Self, DeviceError>(error),
                    None => built is Ok && built->Ok_0@ == parts && built->Ok_0.wf(),
                }
            }),
    {
        if !holds_placeholders(&available_actions) {
            return Err(DeviceError::Payload);
        }
        proof {
            lemma_active_count_bound(duty_cycles@);
        }
        let last = Device::get_max_duty_cycle_index(&duty_cycles)?;
        if last != max_duty_cycle_index {
            return Err(DeviceError::Invariant);
        }
        if default_target > max_duty_cycle_index || target > max_duty_cycle_index {
            return Err(DeviceError::Range);
        }
        Ok(
            Self {
                uuid,
                name,
                action,
                available_actions,
                default_target,
                duty_cycles,
                max_duty_cycle_index,
                target,
                freq_Hz,
                device_group,
                reversed,
                updated,
            },
        )
    }

    /// Asks the device to take `action`.
    ///
    /// The device must offer the action: for `Up`, `Down` and `SetAbsolute`
    /// an entry of that kind, for the others the action itself. A
    /// `SetAbsolute` beyond the last active slot is refused. A refused
    /// request leaves the device as it was. An accepted one selects the new
    /// target, records the action as requested and marks the device as
    /// changed.
    pub fn take_action(&mut self, action: Action) -> (taken: Result<(), DeviceError>)
        ensures
            taken == old(self)@.outcome(action),
            final(self)@ == old(self)@.requested(action),
            old(self).wf() ==> final(self).wf(),
    {
        if !is_offered(&self.available_actions, &action) {
            return Err(DeviceError::NotAvailable);
        }
        let top = self.max_duty_cycle_index;
        match action {
            Action::On => {
                self.target = self.default_target;
            },
            Action::Off => {
                self.target = 0;
            },
            Action::Up(v) => {
                let amount = match v {
                    Some(a) => a,
                    None => 1,
                };
                let room = if self.target < top {
                    top - self.target
                } else {
                    0
                };
                self.target = if amount < room {
                    self.target + amount
                } else {
                    top
                };
            },
            Action::Down(v) => {
                let amount = match v {
                    Some(a) => a,
                    None => 1,
                };
                self.target = if amount < self.target {
                    self.target - amount
                } else {
                    0
                };
            },
            Action::Min => {
                self.target = if top < 1 {
                    top
                } else {
                    1
                };
            },
            Action::Max => {
                self.target = top;
            },
            Action::Reverse => {
                self.reversed = !self.reversed;
            },
            Action::SetAbsolute(v) => {
                if v > top {
                    return Err(DeviceError::Range);
                }
                self.target = v;
            },
        }
        self.action = action;
        self.updated = true;
        Ok(())
    }

    /// Whether the state has changed since the hardware last read it.
    pub fn needs_hardware_duty_cycle_update(&self) -> (owed: bool)
        ensures
            owed == self@.updated,
    {
        self.updated
    }

    /// Gets the duty cycle to program and marks the device as read.
    ///
    /// The duty cycle is the selected intensity scaled by `max_duty_cycle`
    /// percent and rounded down. It must fit the result, which it does for
    /// every scale up to 100.
    pub fn get_and_update_duty_cycle(&mut self, max_duty_cycle: &u32) -> (duty_cycle: u32)
        requires
            old(self).wf(),
            old(self)@.reading(*max_duty_cycle) <= u32::MAX,
        ensures
            duty_cycle == old(self)@.reading(*max_duty_cycle),
            final(self)@ == old(self)@.acknowledged(),
            final(self).wf(),
    {
        proof {
            lemma_active_count_bound(self.duty_cycles@);
            lemma_active_slots(self.duty_cycles@, self.target as int);
        }
        let ds = self.duty_cycles[self.target].unwrap();
        self.updated = false;
        scaled(ds, *max_duty_cycle)
    }

    /// The index of the last active slot of `duty_cycles`, or
    /// `DeviceError::Invariant` if an active slot follows an inactive one or
    /// no slot is active.
    pub fn get_max_duty_cycle_index(duty_cycles: &[Option<u32>; 8]) -> (index: Result<
        usize,
        DeviceError,
    >)
        ensures
            index == max_active_index(duty_cycles@),
    {
        let mut some_count: usize = 0;
        let mut found_none = false;
        let mut i: usize = 0;
        while i < 8
            invariant
                i <= 8,
                some_count == active_count(duty_cycles@.take(i as int)),
                some_count <= i,
                found_none <==> exists|k: int| 0 <= k < i && duty_cycles@[k] is None,
                forall|a: int, b: int|
                    0 <= a < b < i && duty_cycles@[a] is None ==> duty_cycles@[b] is None,
            decreases 8 - i,
        {
            proof {
                assert(duty_cycles@.take(i + 1).drop_last() =~= duty_cycles@.take(i as int));
            }
            if duty_cycles[i].is_some() {
                some_count += 1;
                if found_none {
                    return Err(DeviceError::Invariant);
                }
            } else {
                found_none = true;
            }
            i += 1;
        }
        proof {
            assert(duty_cycles@.take(8) =~= duty_cycles@);
        }
        if some_count == 0 {
            Err(DeviceError::Invariant)
        } else {
            Ok(some_count - 1)
        }
    }
}

} // verus!
