use nes::input_device::joypad::{Joypad, JoypadButton};
use nes::input_device::{new_device, NESDevice, NESDeviceType};

#[test]
fn test_strobe_mode() {
    let mut joypad: Joypad = new_device(NESDeviceType::Joypad);

    joypad.write(1);
    joypad.set_button_pressed_status(JoypadButton::from_bits_truncate(JoypadButton::BUTTON_A), true);
    for _x in 0..10 {
        assert_eq!(joypad.read(), 1);
    }
}

#[test]
fn test_strobe_mode_on_off() {
    let mut joypad: Joypad = new_device(NESDeviceType::Joypad);

    joypad.write(0);
    joypad.set_button_pressed_status(JoypadButton::from_bits_truncate(JoypadButton::RIGHT), true);
    joypad.set_button_pressed_status(JoypadButton::from_bits_truncate(JoypadButton::LEFT), true);
    joypad.set_button_pressed_status(JoypadButton::from_bits_truncate(JoypadButton::SELECT), true);
    joypad.set_button_pressed_status(JoypadButton::from_bits_truncate(JoypadButton::BUTTON_B), true);

    for _ in 0..=1 {
        assert_eq!(joypad.read(), 0);
        assert_eq!(joypad.read(), 1);
        assert_eq!(joypad.read(), 1);
        assert_eq!(joypad.read(), 0);
        assert_eq!(joypad.read(), 0);
        assert_eq!(joypad.read(), 0);
        assert_eq!(joypad.read(), 1);
        assert_eq!(joypad.read(), 1);

        for _x in 0..10 {
            assert_eq!(joypad.read(), 1);
        }
        joypad.write(1);
        joypad.write(0);
    }
}
