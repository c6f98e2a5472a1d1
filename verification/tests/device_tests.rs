use device::Action::{Down, Max, Min, Off, On, Reverse, SetAbsolute, Up};
use device::{Action, Device, DeviceGroup};
use uuid::Uuid;

#[test]
fn device_new() {
    let device = Device::build(Uuid::from_u128(0x12345), "name".to_string()).unwrap();
    assert_eq!(device.uuid, Uuid::from_u128(0x12345));
    assert_eq!(device.name, String::from("name"));
    assert_eq!(device.action, Action::Off);
    assert_eq!(
        *device.get_available_actions(),
        Vec::from([
            Action::On,
            Action::Off,
            Action::Up(None),
            Action::Down(None),
            Action::Min,
            Action::Max,
            Action::SetAbsolute(0)
        ])
    );
    assert_eq!(device.get_default_target(), 3);
    assert_eq!(
        *device.get_duty_cycles(),
        [
            Some(0),
            Some(2),
            Some(4),
            Some(8),
            Some(16),
            Some(32),
            Some(64),
            Some(96)
        ]
    );
    assert_eq!(device.max_duty_cycle_index(), 7);
    assert_eq!(device.get_target(), 0);
    assert_eq!(device.freq_Hz, 100);
    assert_eq!(device.device_group, None);
    assert_eq!(device.reversed, false);
    assert_eq!(device.needs_hardware_duty_cycle_update(), true);
}

#[test]
fn device_action() {
    let device = Device::build(Uuid::from_u128(0x12345), "name".to_string())
        .unwrap()
        .action(Action::SetAbsolute(4))
        .unwrap();
    assert_eq!(device.action, Action::SetAbsolute(4));
}

#[test]
fn device_available_actions() {
    let device = Device::build(Uuid::from_u128(0x12345), "name".to_string())
        .unwrap()
        .available_actions(vec![Action::On, Action::Up(None), Action::SetAbsolute(0)])
        .unwrap();
    assert_eq!(
        *device.get_available_actions(),
        vec![Action::On, Action::Up(None), Action::SetAbsolute(0)]
    );
}

#[test]
fn device_available_actions_panic_up() {
    let device = Device::build(Uuid::from_u128(0x12345), "name".to_string())
        .unwrap()
        .available_actions(vec![Action::On, Action::Up(Some(0))]);
    assert!(device.is_err());
}

#[test]
fn device_available_actions_panic_down() {
    let device = Device::build(Uuid::from_u128(0x12345), "name".to_string())
        .unwrap()
        .available_actions(vec![Action::On, Action::Down(Some(0))]);
    assert!(device.is_err());
}

#[test]
fn device_available_actions_panic_set() {
    let device = Device::build(Uuid::from_u128(0x12345), "name".to_string())
        .unwrap()
        .available_actions(vec![Action::On, Action::SetAbsolute(1)]);
    assert!(device.is_err());
}

#[test]
fn device_get_available_actions() {
    let device = Device::build(Uuid::from_u128(0x12345), "name".to_string())
        .unwrap()
        .available_actions(vec![Action::On, Action::SetAbsolute(0)])
        .unwrap();

    assert_eq!(
        device.get_available_actions(),
        &vec![Action::On, Action::SetAbsolute(0)]
    );
}

#[test]
fn device_default_target() {
    let device = Device::build(Uuid::from_u128(0x12345), "name".to_string())
        .unwrap()
        .default_target(5)
        .unwrap();
    assert_eq!(device.get_default_target(), 5);
}

#[test]
fn device_default_target_panic() {
    let device = Device::build(Uuid::from_u128(0x12345), "name".to_string())
        .unwrap()
        .duty_cycles([Some(0), Some(1), Some(3), Some(4), None, None, None, None])
        .unwrap()
        .default_target(5);
    assert!(device.is_err());
}

#[test]
fn device_get_default_target() {
    let device = Device::build(Uuid::from_u128(0x12345), "name".to_string())
        .unwrap()
        .default_target(5)
        .unwrap();

    assert_eq!(device.get_default_target(), 5);
}

#[test]
fn device_duty_cycles() {
    let device = Device::build(Uuid::from_u128(0x12345), "name".to_string())
        .unwrap()
        .duty_cycles([Some(0), Some(1), Some(3), Some(4), None, None, None, None])
        .unwrap();
    assert_eq!(device.max_duty_cycle_index(), 3);
}

#[test]
fn device_duty_cycles_default_target_panic() {
    let device = Device::build(Uuid::from_u128(0x12345), "name".to_string())
        .unwrap()
        .duty_cycles([Some(0), Some(1), None, None, None, None, None, None]);
    assert!(device.is_err());
}

#[test]
fn device_duty_cycles_target_panic() {
    let device = Device::build(Uuid::from_u128(0x12345), "name".to_string())
        .unwrap()
        .target(6)
        .unwrap()
        .duty_cycles([Some(0), Some(1), Some(3), Some(4), None, None, None, None]);
    assert!(device.is_err());
}

#[test]
fn device_get_duty_cycles() {
    let device = Device::build(Uuid::from_u128(0x12345), "name".to_string())
        .unwrap()
        .duty_cycles([Some(0), Some(1), Some(3), Some(4), None, None, None, None])
        .unwrap();
    assert_eq!(
        device.get_duty_cycles(),
        &[Some(0), Some(1), Some(3), Some(4), None, None, None, None]
    );
}

#[test]
fn device_target() {
    let device = Device::build(Uuid::from_u128(0x12345), "name".to_string())
        .unwrap()
        .duty_cycles([Some(0), Some(1), Some(3), Some(4), None, None, None, None])
        .unwrap()
        .target(2)
        .unwrap();
    assert_eq!(device.get_target(), 2);
}

#[test]
fn device_target_panic() {
    let device = Device::build(Uuid::from_u128(0x12345), "name".to_string())
        .unwrap()
        .duty_cycles([Some(0), Some(1), Some(3), Some(4), None, None, None, None])
        .unwrap()
        .target(6);
    assert!(device.is_err());
}

#[test]
fn device_freq_hz() {
    let device = Device::build(Uuid::from_u128(0x12345), "name".to_string())
        .unwrap()
        .freq_Hz(88)
        .unwrap();
    assert_eq!(device.freq_Hz, 88);
}

#[test]
fn device_device_group_some() {
    let device = Device::build(Uuid::from_u128(0x12345), "name".to_string())
        .unwrap()
        .device_group(Some(DeviceGroup::Light))
        .unwrap();
    assert_eq!(device.device_group, Some(DeviceGroup::Light));
}

#[test]
fn device_device_group_none() {
    let device = Device::build(Uuid::from_u128(0x12345), "name".to_string())
        .unwrap()
        .device_group(None)
        .unwrap();
    assert_eq!(device.device_group, None);
}

#[test]
fn device_take_action_action_missing() {
    let mut device = Device::build(
        Uuid::from_u128(0xf1d34301c91642a88c7c274828177649),
        String::from("Device1"),
    )
    .unwrap()
    .available_actions(vec![])
    .unwrap()
    .target(2)
    .unwrap();

    let err = device.take_action(On);

    assert!(err.is_err());
}

#[test]
fn device_take_action_on() {
    let mut device = Device::build(
        Uuid::from_u128(0xf1d34301c91642a88c7c274828177649),
        String::from("Device1"),
    )
    .unwrap()
    .target(2)
    .unwrap();

    let _ = device.take_action(On);

    assert_eq!(device.get_target(), 3);
    assert_eq!(device.get_and_update_duty_cycle(&255), 8 * 255 / 100);
    assert_eq!(device.action, On);
}

#[test]
fn device_take_action_off() {
    let mut device = Device::build(
        Uuid::from_u128(0xf1d34301c91642a88c7c274828177649),
        String::from("Device1"),
    )
    .unwrap()
    .target(2)
    .unwrap()
    .action(On)
    .unwrap();

    let _ = device.take_action(Off);

    assert_eq!(device.get_target(), 0);
    assert_eq!(device.get_and_update_duty_cycle(&255), 0);
    assert_eq!(device.action, Off);
}

#[test]
fn device_take_action_up_none() {
    let mut device = Device::build(
        Uuid::from_u128(0xf1d34301c91642a88c7c274828177649),
        String::from("Device1"),
    )
    .unwrap()
    .target(2)
    .unwrap();

    let _ = device.take_action(Up(None));

    assert_eq!(device.get_target(), 3);
    assert_eq!(device.get_and_update_duty_cycle(&255), 8 * 255 / 100);
    assert_eq!(device.action, Up(None));
}

#[test]
fn device_take_action_up_some() {
    let mut device = Device::build(
        Uuid::from_u128(0xf1d34301c91642a88c7c274828177649),
        String::from("Device1"),
    )
    .unwrap()
    .target(2)
    .unwrap();

    let _ = device.take_action(Up(Some(2)));

    assert_eq!(device.get_target(), 4);
    assert_eq!(device.get_and_update_duty_cycle(&255), 16 * 255 / 100);
    assert_eq!(device.action, Up(Some(2)));
}

#[test]
fn device_take_action_up_already_max() {
    let mut device = Device::build(
        Uuid::from_u128(0xf1d34301c91642a88c7c274828177649),
        String::from("Device1"),
    )
    .unwrap()
    .target(7)
    .unwrap();

    let _ = device.take_action(Up(None));

    assert_eq!(device.get_target(), 7);
    assert_eq!(device.get_and_update_duty_cycle(&255), 96 * 255 / 100);
    assert_eq!(device.action, Up(None));
}

#[test]
fn device_take_action_down_none() {
    let mut device = Device::build(
        Uuid::from_u128(0xf1d34301c91642a88c7c274828177649),
        String::from("Device1"),
    )
    .unwrap()
    .target(2)
    .unwrap();

    let _ = device.take_action(Down(None));

    assert_eq!(device.get_target(), 1);
    assert_eq!(device.get_and_update_duty_cycle(&255), 2 * 255 / 100);
    assert_eq!(device.action, Down(None));
}

#[test]
fn device_take_action_down_some() {
    let mut device = Device::build(
        Uuid::from_u128(0xf1d34301c91642a88c7c274828177649),
        String::from("Device1"),
    )
    .unwrap()
    .target(2)
    .unwrap();

    let _ = device.take_action(Down(Some(2)));

    assert_eq!(device.get_target(), 0);
    assert_eq!(device.get_and_update_duty_cycle(&255), 0);
    assert_eq!(device.action, Down(Some(2)));
}

#[test]
fn device_take_action_down_already_off() {
    let mut device = Device::build(
        Uuid::from_u128(0xf1d34301c91642a88c7c274828177649),
        String::from("Device1"),
    )
    .unwrap()
    .target(0)
    .unwrap();

    let _ = device.take_action(Down(None));

    assert_eq!(device.get_target(), 0);
    assert_eq!(device.get_and_update_duty_cycle(&255), 0);
    assert_eq!(device.action, Down(None));
}

#[test]
fn device_take_action_min() {
    let mut device = Device::build(
        Uuid::from_u128(0xf1d34301c91642a88c7c274828177649),
        String::from("Device1"),
    )
    .unwrap()
    .target(5)
    .unwrap();

    let _ = device.take_action(Min);

    assert_eq!(device.get_target(), 1);
    assert_eq!(device.get_and_update_duty_cycle(&255), 2 * 255 / 100);
    assert_eq!(device.action, Min);
}

#[test]
fn device_take_action_max() {
    let mut device = Device::build(
        Uuid::from_u128(0xf1d34301c91642a88c7c274828177649),
        String::from("Device1"),
    )
    .unwrap()
    .target(5)
    .unwrap();

    let _ = device.take_action(Max);

    assert_eq!(device.get_target(), 7);
    assert_eq!(device.get_and_update_duty_cycle(&255), 96 * 255 / 100);
    assert_eq!(device.action, Max);
}

#[test]
fn device_take_action_reverse() {
    let mut device = Device::build(
        Uuid::from_u128(0xf1d34301c91642a88c7c274828177649),
        String::from("Device1"),
    )
    .unwrap()
    .available_actions(vec![On, Off, Reverse])
    .unwrap();

    let _ = device.take_action(Reverse);
    device.reversed = !device.reversed;
    assert!(!device.reversed);
    assert_eq!(device.action, Reverse);
}

#[test]
fn device_take_action_set() {
    let mut device = Device::build(
        Uuid::from_u128(0xf1d34301c91642a88c7c274828177649),
        String::from("Device1"),
    )
    .unwrap();

    let _ = device.take_action(SetAbsolute(3));
    assert_eq!(device.get_target(), 3);
    assert_eq!(device.get_and_update_duty_cycle(&255), 8 * 255 / 100);
    assert_eq!(device.action, SetAbsolute(3));

    let mut device = Device::build(
        Uuid::from_u128(0xf1d34301c91642a88c7c274828177649),
        String::from("Device1"),
    )
    .unwrap()
    .duty_cycles([Some(0), Some(1), Some(3), Some(4), None, None, None, None])
    .unwrap();

    let output = device.take_action(SetAbsolute(5));
    assert!(output.is_err());
}

#[test]
fn device_take_action_get_and_update_duty_cycle() {
    let mut device = Device::build(
        Uuid::from_u128(0xf1d34301c91642a88c7c274828177649),
        String::from("Device1"),
    )
    .unwrap()
    .target(3)
    .unwrap();

    assert_eq!(device.get_and_update_duty_cycle(&255), 8 * 255 / 100);
}

#[test]
fn device_needs_hardware_duty_cycle_update() {
    let mut device = Device::build(
        Uuid::from_u128(0xf1d34301c91642a88c7c274828177649),
        String::from("Device1"),
    )
    .unwrap()
    .target(3)
    .unwrap();

    assert!(device.needs_hardware_duty_cycle_update());

    device.get_and_update_duty_cycle(&255);

    assert!(!device.needs_hardware_duty_cycle_update());

    let _ = device.take_action(On);

    assert!(device.needs_hardware_duty_cycle_update());
}

