use rsgb_core::interconnect::oam::OAMEntry;
use rsgb_core::settings::{SaveLocation, Settings, SpeedOption};
use rsgb_core::utils::{bit_set, Button, ButtonFlag, InputState};

#[test]
fn bit_set_sets_and_clears_one_bit() {
    let mut a: u8 = 0b1010_0000;
    bit_set(&mut a, 0, true);
    assert_eq!(a, 0b1010_0001);
    bit_set(&mut a, 7, false);
    assert_eq!(a, 0b0010_0001);
    bit_set(&mut a, 5, true);
    assert_eq!(a, 0b0010_0001);
}

#[test]
fn input_press_and_release() {
    let mut input = InputState::new();
    assert_eq!(input.bits(), 0);
    input.update(Button::A, true);
    input.update(Button::DOWN, true);
    assert!(input.pressed(Button::A));
    assert!(input.pressed(Button::DOWN));
    assert!(!input.pressed(Button::B));
    assert_eq!(input.bits(), 0b0001_1000);
    input.update(Button::A, false);
    assert!(!input.pressed(Button::A));
    assert!(input.pressed(Button::DOWN));
    input.clear();
    assert_eq!(input.bits(), 0);
    assert_eq!(InputState::from_bits(0x81).bits(), 0x81);
}

#[test]
fn button_flags() {
    assert_eq!(Button::RIGHT.flag().bits, 0x01);
    assert_eq!(Button::START.flag().bits, 0x80);
    let mut f = ButtonFlag::empty();
    f.set(ButtonFlag::UP(), true);
    f.set(ButtonFlag::SELECT(), true);
    assert!(f.contains(ButtonFlag::UP()));
    assert!(!f.contains(ButtonFlag::LEFT()));
    f.set(ButtonFlag::UP(), false);
    assert_eq!(f.bits, 0x40);
}

#[test]
fn speed_factors() {
    assert_eq!(SpeedOption::default().factor(), 1);
    assert_eq!(SpeedOption::X2.factor(), 2);
    assert_eq!(SpeedOption::X3.factor(), 3);
    assert_eq!(SpeedOption::X4.factor(), 4);
    let mut s = Settings::default();
    assert!(matches!(s.get_save_location(), SaveLocation::GameLoc));
    s.set_speed(SpeedOption::X3);
    assert_eq!(s.speed.factor(), 3);
}

#[test]
fn sprite_attribute_flags() {
    let mut e = OAMEntry::new();
    e.write(3, 0b1010_0000);
    assert!(e.bg_over_obj());
    assert!(!e.y_flip());
    assert!(e.x_flip());
    assert!(!e.palette_nb());
    e.write(0, 16);
    e.write(1, 8);
    assert_eq!(e.read(0), 16);
    assert_eq!(e.read(1), 8);
    assert_eq!(e.read(3), 0b1010_0000);
}
