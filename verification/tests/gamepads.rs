use ftctui::ftc_proto::gamepad_packet::GamepadPacketData;
use ftctui::ftc_proto::gamepad_packet::{BUTTON_A, BUTTON_BACK, BUTTON_DPAD_DOWN, BUTTON_DPAD_UP, BUTTON_X};
use ftctui::input::{
    button_names, dpad_names, update_gamepads, ConnectedGamepad, Gamepad, GamepadReading,
    PressedButtons,
};

fn reading(id: usize, buttons: PressedButtons) -> GamepadReading {
    GamepadReading {
        id,
        buttons,
        left_stick_x: 0.25f32.to_bits(),
        left_stick_y: 0.5f32.to_bits(),
        right_stick_x: 0,
        right_stick_y: (-1.0f32).to_bits(),
    }
}

fn connected(id: usize, buttons: PressedButtons) -> ConnectedGamepad {
    ConnectedGamepad { reading: reading(id, buttons), has_mapping: true, name: String::from("Pad") }
}

fn start_and(f: fn(&mut PressedButtons)) -> PressedButtons {
    let mut b = PressedButtons { start: true, ..Default::default() };
    f(&mut b);
    b
}

#[test]
fn readings_become_packets() {
    let buttons = PressedButtons {
        south: true,
        dpad_up: true,
        left_trigger: true,
        right_trigger_2: true,
        ..Default::default()
    };
    let g = Gamepad::map_to_gamepad_packet_data(&reading(3, buttons), 2, 1234);
    assert_eq!(g.gamepad_id, 3);
    assert_eq!(g.user, 2);
    assert_eq!(g.timestamp, 1234);
    assert_eq!(f32::from_bits(g.left_stick_x), 0.25);
    // Up is negative on the wire.
    assert_eq!(f32::from_bits(g.left_stick_y), -0.5);
    assert_eq!(f32::from_bits(g.right_stick_y), 1.0);
    assert_eq!(f32::from_bits(g.left_trigger), 0.0);
    assert_eq!(f32::from_bits(g.right_trigger), 1.0);
    assert_eq!(g.button_flags, 256 | 4096 | 2);
    let rest = GamepadPacketData::default_for_user(2);
    assert_eq!(g.gamepad_type, rest.gamepad_type);
    assert_eq!(g.touchpad_finger_1_x, 0);
}

#[test]
fn all_button_flags() {
    let all = PressedButtons {
        left_thumb: true,
        right_thumb: true,
        dpad_up: true,
        dpad_down: true,
        dpad_left: true,
        dpad_right: true,
        south: true,
        east: true,
        west: true,
        north: true,
        mode: true,
        start: true,
        select: true,
        left_trigger: true,
        right_trigger: true,
        left_trigger_2: false,
        right_trigger_2: false,
    };
    let g = Gamepad::map_to_gamepad_packet_data(&reading(0, all), 1, 0);
    assert_eq!(g.button_flags, 0x7fff);
}

#[test]
fn start_and_a_binds_driver_one_start_and_b_driver_two() {
    let mut one = None;
    let mut two = None;
    let pads = vec![
        connected(7, start_and(|b| b.south = true)),
        connected(8, start_and(|b| b.east = true)),
        connected(9, PressedButtons::default()),
    ];
    update_gamepads(&mut one, &mut two, &pads, 50);
    assert_eq!(one.unwrap().id, 7);
    assert_eq!(one.unwrap().last_state.user, 1);
    assert_eq!(one.unwrap().last_state.timestamp, 50);
    assert_eq!(two.unwrap().id, 8);
    assert_eq!(two.unwrap().last_state.user, 2);
}

#[test]
fn binding_to_one_driver_takes_it_from_the_other() {
    let mut one = None;
    let mut two = Some(Gamepad { id: 7, last_state: GamepadPacketData::default_for_user(2) });
    let pads = vec![connected(7, start_and(|b| b.south = true))];
    update_gamepads(&mut one, &mut two, &pads, 1);
    assert_eq!(one.unwrap().id, 7);
    assert!(two.is_none());
}

#[test]
fn start_and_x_unbinds() {
    let mut one = Some(Gamepad { id: 4, last_state: GamepadPacketData::default_for_user(1) });
    let mut two = None;
    let pads = vec![connected(4, start_and(|b| b.west = true))];
    update_gamepads(&mut one, &mut two, &pads, 1);
    assert!(one.is_none());
    assert!(two.is_none());
}

#[test]
fn disconnected_controllers_are_unbound() {
    let mut one = Some(Gamepad { id: 4, last_state: GamepadPacketData::default_for_user(1) });
    let mut two = Some(Gamepad { id: 5, last_state: GamepadPacketData::default_for_user(2) });
    let pads = vec![connected(5, PressedButtons::default())];
    update_gamepads(&mut one, &mut two, &pads, 9);
    assert!(one.is_none());
    let two = two.unwrap();
    assert_eq!(two.id, 5);
    assert_eq!(two.last_state.timestamp, 9);
    assert_eq!(f32::from_bits(two.last_state.left_stick_y), -0.5);
}

#[test]
fn keyboards_and_unmapped_devices_are_not_bound() {
    let mut one = None;
    let mut two = None;
    let mut keyboard = connected(1, start_and(|b| b.south = true));
    keyboard.name = String::from("Framework Laptop 16 Keyboard Module - ANSI");
    let mut unmapped = connected(2, start_and(|b| b.east = true));
    unmapped.has_mapping = false;
    update_gamepads(&mut one, &mut two, &vec![keyboard, unmapped], 0);
    assert!(one.is_none());
    assert!(two.is_none());
}

#[test]
fn held_buttons_are_named_in_display_order() {
    assert_eq!(dpad_names(BUTTON_DPAD_DOWN | BUTTON_DPAD_UP), vec!["up", "down"]);
    assert_eq!(dpad_names(BUTTON_A), Vec::<&str>::new());
    assert_eq!(button_names(BUTTON_BACK | BUTTON_X | BUTTON_A), vec!["a", "x", "back"]);
    assert_eq!(button_names(0), Vec::<&str>::new());
}
