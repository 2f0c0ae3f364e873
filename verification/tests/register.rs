use xmz_mod_touch_test_tool::run::{Outcome, Step};
use xmz_mod_touch_test_tool::{ShiftRegister, ShiftRegisterType};

#[test]
fn new_led_is_wired_to_the_led_lines() {
    let led = ShiftRegister::new(ShiftRegisterType::LED);
    assert_eq!(led.register_type, ShiftRegisterType::LED);
    assert_eq!(led.oe_pin, Some(276));
    assert_eq!(led.ds_pin, Some(38));
    assert_eq!(led.clock_pin, Some(44));
    assert_eq!(led.latch_pin, Some(40));
    assert_eq!(led.data, 0);
}

#[test]
fn new_relais_is_wired_to_the_relais_lines() {
    let relais = ShiftRegister::new(ShiftRegisterType::RELAIS);
    assert_eq!(relais.register_type, ShiftRegisterType::RELAIS);
    assert_eq!(relais.oe_pin, Some(277));
    assert_eq!(relais.ds_pin, Some(45));
    assert_eq!(relais.clock_pin, Some(39));
    assert_eq!(relais.latch_pin, Some(37));
    assert_eq!(relais.data, 0);
}

#[test]
fn new_simulation_has_no_lines() {
    let sim = ShiftRegister::new(ShiftRegisterType::Simulation);
    assert_eq!(sim.register_type, ShiftRegisterType::Simulation);
    assert_eq!(sim.oe_pin, None);
    assert_eq!(sim.ds_pin, None);
    assert_eq!(sim.clock_pin, None);
    assert_eq!(sim.latch_pin, None);
    assert_eq!(sim.data, 0b0);
}

#[test]
fn default_is_a_blank_simulation() {
    let sim = ShiftRegister::default();
    assert_eq!(sim.register_type, ShiftRegisterType::Simulation);
    assert_eq!(sim.oe_pin, None);
    assert_eq!(sim.ds_pin, None);
    assert_eq!(sim.clock_pin, None);
    assert_eq!(sim.latch_pin, None);
    assert_eq!(sim.data, 0);
}

#[test]
fn set_switches_the_numbered_output_on() {
    let mut sim = ShiftRegister::new(ShiftRegisterType::Simulation);
    assert_eq!(sim.data, 0b0);
    let _ = sim.set(3);
    assert_eq!(sim.data, 0b100);
}

#[test]
fn set_reaches_the_first_and_the_last_output() {
    let mut sim = ShiftRegister::new(ShiftRegisterType::Simulation);
    let _ = sim.set(1);
    assert_eq!(sim.data, 1);
    let _ = sim.set(64);
    assert_eq!(sim.data, 0x8000_0000_0000_0001);
    assert!(sim.get(1));
    assert!(sim.get(64));
    assert!(!sim.get(63));
}

#[test]
fn get_tells_which_outputs_are_on() {
    let mut sim = ShiftRegister::new(ShiftRegisterType::Simulation);
    let _ = sim.set(1);
    let _ = sim.set(3);
    assert_eq!(sim.get(1), true);
    assert_eq!(sim.get(2), false);
    assert_eq!(sim.get(3), true);
}

#[test]
fn clear_switches_the_numbered_output_off() {
    let mut sim = ShiftRegister::new(ShiftRegisterType::Simulation);
    assert_eq!(sim.data, 0b0);

    let _ = sim.set(1);
    let _ = sim.set(3);
    assert_eq!(sim.get(1), true);
    assert_eq!(sim.get(3), true);

    let _ = sim.clear(3);
    assert_eq!(sim.get(1), true);
    assert_eq!(sim.get(3), false);
    assert_eq!(sim.data, 0b001);
}

#[test]
fn clear_of_an_output_that_is_off_changes_nothing() {
    let mut sim = ShiftRegister::new(ShiftRegisterType::Simulation);
    let _ = sim.set(2);
    let _ = sim.clear(5);
    assert_eq!(sim.data, 0b10);
}

#[test]
fn toggle_inverts_the_numbered_output() {
    let mut sim = ShiftRegister::new(ShiftRegisterType::Simulation);
    assert_eq!(sim.data, 0b0);

    let _ = sim.toggle(3);
    assert_eq!(sim.get(3), true);
    assert_eq!(sim.data, 0b100);
    let _ = sim.toggle(3);
    assert_eq!(sim.get(3), false);
    assert_eq!(sim.data, 0);
}

#[test]
fn reset_switches_every_output_off() {
    let mut sim = ShiftRegister::new(ShiftRegisterType::Simulation);
    assert_eq!(sim.get(1), false);
    let _ = sim.set(1);
    assert_eq!(sim.get(1), true);
    let _ = sim.reset();
    assert_eq!(sim.get(1), false);
    assert_eq!(sim.data, 0);
    for num in 1..=64 {
        assert!(!sim.get(num));
    }
}

#[test]
fn all_switches_every_output_on() {
    let mut sim = ShiftRegister::new(ShiftRegisterType::Simulation);
    assert_eq!(sim.get(1), false);
    let _ = sim.all();
    assert_eq!(sim.get(1), true);
    assert_eq!(sim.data, u64::MAX);
    for num in 1..=64 {
        assert!(sim.get(num));
    }
}

#[test]
fn set_on_a_new_register_leaves_exactly_one_output_on() {
    for num in 1..=64 {
        let mut sim = ShiftRegister::new(ShiftRegisterType::Simulation);
        let _ = sim.set(num);
        for other in 1..=64 {
            assert_eq!(sim.get(other), other == num);
        }
    }
}

#[test]
fn toggle_after_set_switches_off_and_on_again() {
    for num in 1..=64 {
        let mut sim = ShiftRegister::new(ShiftRegisterType::Simulation);
        let _ = sim.set(num);
        let _ = sim.toggle(num);
        assert_eq!(sim.get(num), false);
        let _ = sim.toggle(num);
        assert_eq!(sim.get(num), true);
    }
}

#[test]
fn toggle_twice_gives_the_image_back() {
    let mut sim = ShiftRegister::new(ShiftRegisterType::Simulation);
    let _ = sim.load(0xdead_beef_0123_4567);
    let _ = sim.toggle(17);
    assert_eq!(sim.data, 0xdead_beef_0122_4567);
    let _ = sim.toggle(17);
    assert_eq!(sim.data, 0xdead_beef_0123_4567);
}

#[test]
fn set_twice_is_set_once() {
    for num in 1..=64 {
        let mut sim = ShiftRegister::new(ShiftRegisterType::Simulation);
        let _ = sim.load(0x0f0f_0f0f_0f0f_0f0f);
        let _ = sim.set(num);
        let once = sim.data;
        let _ = sim.set(num);
        assert_eq!(sim.data, once);
    }
}

#[test]
fn snapshot_reads_the_whole_image() {
    let mut sim = ShiftRegister::new(ShiftRegisterType::Simulation);
    assert_eq!(sim.snapshot(), 0);
    let _ = sim.set(2);
    let _ = sim.set(9);
    assert_eq!(sim.snapshot(), 0b1_0000_0010);
}

#[test]
fn load_replaces_the_image() {
    let mut sim = ShiftRegister::new(ShiftRegisterType::Simulation);
    let _ = sim.set(1);
    let _ = sim.load(0b1010);
    assert_eq!(sim.data, 0b1010);
}

#[test]
fn operations_keep_role_and_lines() {
    let mut led = ShiftRegister::new(ShiftRegisterType::LED);
    let _ = led.set(3);
    let _ = led.toggle(4);
    let _ = led.clear(3);
    let _ = led.all();
    let _ = led.test();
    let _ = led.walk(5);
    let _ = led.reset();
    assert_eq!(led.register_type, ShiftRegisterType::LED);
    assert_eq!(led.oe_pin, Some(276));
    assert_eq!(led.ds_pin, Some(38));
    assert_eq!(led.clock_pin, Some(44));
    assert_eq!(led.latch_pin, Some(40));
}

#[test]
fn commit_on_a_simulation_ends_at_once() {
    let mut sim = ShiftRegister::new(ShiftRegisterType::Simulation);
    let mut run = sim.set(3);
    assert_eq!(run.next(&mut sim, Outcome::Completed), Step::Finish(Ok(())));
    assert_eq!(sim.data, 0b100);
}

#[test]
fn test_random_never_leaves_a_blank_or_full_image() {
    let mut sim = ShiftRegister::new(ShiftRegisterType::Simulation);
    for _ in 0..1000 {
        let _ = sim.test_random();
        assert_ne!(sim.data, 0);
        assert_ne!(sim.data, u64::MAX);
    }
}

#[test]
fn test_random_gives_more_than_one_pattern() {
    let mut sim = ShiftRegister::new(ShiftRegisterType::Simulation);
    let _ = sim.test_random();
    let first = sim.data;
    let mut differs = false;
    for _ in 0..100 {
        let _ = sim.test_random();
        if sim.data != first {
            differs = true;
        }
    }
    assert!(differs);
}

#[test]
fn test_random_does_not_favour_the_lowest_pattern() {
    let mut sim = ShiftRegister::new(ShiftRegisterType::Simulation);
    let mut above = false;
    for _ in 0..100 {
        let _ = sim.test_random();
        if sim.data > 1 {
            above = true;
        }
    }
    assert!(above);
}
