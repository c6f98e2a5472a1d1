//! The groups by which devices are addressed together.

use vstd::prelude::*;

verus! {

/// The identifier of the group of lights.
pub const LIGHTS_ID: u128 = 0xf1d34301c91642a88c7c274828177649;

/// The identifier of the group of fans.
pub const FANS_ID: u128 = 0x3d39295fb06842ecabeed69e0d65c105;

/// A group of devices that can be addressed together. The transitions of a
/// device never look at its group.
#[derive(Debug, Copy, Clone, PartialEq, Eq, Hash, Structural)]
pub enum DeviceGroup {
    Light,
    Fan,
}

/// One row of the table of groups: a group with its name and its identifier.
#[derive(Debug)]
pub struct DeviceSynonyms {
    pub device_group: DeviceGroup,
    pub name: &'static str,
    pub uuid_number: u128,
}

impl DeviceGroup {
    /// The name under which the group is addressed.
    pub open spec fn name(self) -> Seq<char> {
        match self {
            DeviceGroup::Light => "lights"@,
            DeviceGroup::Fan => "fans"@,
        }
    }

    /// The identifier under which the group is addressed, as a number.
    pub open spec fn number(self) -> u128 {
        match self {
            DeviceGroup::Light => LIGHTS_ID,
            DeviceGroup::Fan => FANS_ID,
        }
    }
}

/// The table of groups: the lights first, then the fans, each with its own
/// name and identifier.
pub fn device_groups() -> (table: [DeviceSynonyms; 2])
    ensures
        table[0].device_group == DeviceGroup::Light,
        table[1].device_group == DeviceGroup::Fan,
        forall|i: int|
            #![trigger table[i]]
            0 <= i < 2 ==> {
                &&& table[i].name@ == table[i].device_group.name()
                &&& table[i].uuid_number == table[i].device_group.number()
            },
{
    [
        DeviceSynonyms { device_group: DeviceGroup::Light, name: "lights", uuid_number: LIGHTS_ID },
        DeviceSynonyms { device_group: DeviceGroup::Fan, name: "fans", uuid_number: FANS_ID },
    ]
}

/// Names and identifiers are unique among the groups: two groups with the
/// same name, or with the same identifier, are the same group.
pub proof fn lemma_groups_differ(a: DeviceGroup, b: DeviceGroup)
    ensures
        a.name() == b.name() <==> a == b,
        a.number() == b.number() <==> a == b,
{
    reveal_strlit("lights");
    reveal_strlit("fans");
    assert(DeviceGroup::Light.name().len() != DeviceGroup::Fan.name().len());
}

} // verus!
