use yaci::chip8::Chip8;

fn machine_with(program: &[u8]) -> Chip8 {
    let mut chip = Chip8::new();
    assert_eq!(chip.load_rom(program), Ok(()));
    chip
}

fn run(chip: &mut Chip8, cycles: usize) {
    for _ in 0..cycles {
        assert_eq!(chip.clock_with(0), Ok(()));
    }
}

#[test]
fn skip_if_key_is_down() {
    let mut chip = machine_with(&[0x61, 0x0B, 0xE1, 0x9E]);
    chip.set_key(0xB, true);
    run(&mut chip, 2);
    assert_eq!(chip.pc(), 0x206);
    let mut chip = machine_with(&[0x61, 0x0B, 0xE1, 0x9E]);
    chip.set_key(0xA, true);
    run(&mut chip, 2);
    assert_eq!(chip.pc(), 0x204);
}

#[test]
fn skip_if_key_is_up() {
    let mut chip = machine_with(&[0x61, 0x0B, 0xE1, 0xA1]);
    chip.set_key(0xB, true);
    run(&mut chip, 2);
    assert_eq!(chip.pc(), 0x204);
    let mut chip = machine_with(&[0x61, 0x0B, 0xE1, 0xA1]);
    run(&mut chip, 2);
    assert_eq!(chip.pc(), 0x206);
}

#[test]
fn released_key_is_up_again() {
    let mut chip = machine_with(&[0x61, 0x00, 0xE1, 0x9E]);
    chip.set_key(0, true);
    chip.set_key(0, false);
    run(&mut chip, 2);
    assert_eq!(chip.pc(), 0x204);
}

#[test]
fn all_keys_are_replaced_at_once() {
    let mut keys = vec![false; 16];
    keys[3] = true;
    keys[15] = true;
    let mut chip = machine_with(&[0x61, 0x0F, 0xE1, 0x9E, 0x00, 0x00, 0x62, 0x03, 0xE2, 0xA1]);
    chip.set_key(1, true);
    chip.set_keys(&keys);
    run(&mut chip, 2);
    assert_eq!(chip.pc(), 0x206);
    run(&mut chip, 2);
    assert_eq!(chip.pc(), 0x20A);
    let mut chip = machine_with(&[0x61, 0x01, 0xE1, 0x9E]);
    chip.set_key(1, true);
    chip.set_keys(&keys);
    run(&mut chip, 2);
    assert_eq!(chip.pc(), 0x204);
}

#[test]
fn wait_for_key_suspends_the_cycle() {
    let mut chip = machine_with(&[0xF5, 0x0A, 0x61, 0x01]);
    run(&mut chip, 1);
    assert!(chip.is_waiting_for_key());
    assert_eq!(chip.pc(), 0x200);
    for _ in 0..5 {
        assert_eq!(chip.clock(), Ok(()));
        assert_eq!(chip.pc(), 0x200);
        assert_eq!(chip.register(1), 0);
        assert!(chip.is_waiting_for_key());
    }
}

#[test]
fn key_press_resumes_and_fills_the_register() {
    let mut chip = machine_with(&[0xF5, 0x0A, 0x61, 0x01]);
    run(&mut chip, 1);
    chip.set_key(0xC, true);
    assert!(!chip.is_waiting_for_key());
    assert_eq!(chip.register(5), 0xC);
    assert_eq!(chip.pc(), 0x202);
    run(&mut chip, 1);
    assert_eq!(chip.register(1), 1);
    assert_eq!(chip.pc(), 0x204);
}

#[test]
fn key_release_does_not_resume() {
    let mut chip = machine_with(&[0xF5, 0x0A]);
    chip.set_key(2, true);
    run(&mut chip, 1);
    chip.set_key(2, false);
    assert!(chip.is_waiting_for_key());
    assert_eq!(chip.pc(), 0x200);
    assert_eq!(chip.register(5), 0);
}

#[test]
fn key_held_before_the_wait_does_not_resume() {
    let mut chip = machine_with(&[0xF5, 0x0A]);
    chip.set_key(2, true);
    assert_eq!(chip.pc(), 0x200);
    run(&mut chip, 2);
    assert!(chip.is_waiting_for_key());
}

#[test]
fn key_press_outside_a_wait_only_records_the_key() {
    let mut chip = machine_with(&[0x61, 0x01]);
    chip.set_key(7, true);
    assert_eq!(chip.pc(), 0x200);
    for x in 0..16 {
        assert_eq!(chip.register(x), 0);
    }
}

#[test]
fn bulk_update_resumes_with_lowest_new_key() {
    let mut chip = machine_with(&[0xF5, 0x0A]);
    chip.set_key(1, true);
    run(&mut chip, 1);
    let mut keys = vec![false; 16];
    keys[1] = true;
    keys[9] = true;
    keys[4] = true;
    chip.set_keys(&keys);
    assert!(!chip.is_waiting_for_key());
    assert_eq!(chip.register(5), 4);
    assert_eq!(chip.pc(), 0x202);
}

#[test]
fn bulk_update_without_new_key_keeps_waiting() {
    let mut chip = machine_with(&[0xF5, 0x0A, 0x65, 0x01, 0xE5, 0x9E]);
    chip.set_key(1, true);
    chip.set_key(2, true);
    run(&mut chip, 1);
    let mut keys = vec![false; 16];
    keys[1] = true;
    chip.set_keys(&keys);
    assert!(chip.is_waiting_for_key());
    assert_eq!(chip.pc(), 0x200);
    chip.set_key(0xF, true);
    assert_eq!(chip.register(5), 0xF);
    // key 1 is still down, key 2 is not
    run(&mut chip, 2);
    assert_eq!(chip.pc(), 0x208);
}

#[test]
fn timers_run_while_waiting() {
    let mut chip = machine_with(&[0x61, 0x03, 0xF1, 0x15, 0xF2, 0x0A]);
    run(&mut chip, 3);
    assert!(chip.is_waiting_for_key());
    chip.clock_timer();
    chip.clock_timer();
    assert_eq!(chip.delay_timer(), 1);
    assert!(chip.is_waiting_for_key());
}
