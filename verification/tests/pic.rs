use kernel::controller::{Controller, ControllerPair, Phase};
use kernel::hardware::PortWrite;
use kernel::pic::{
    remap, send_eoi, unmask_keyboard, PIC1_COMMAND, PIC1_DATA, PIC2_COMMAND, PIC2_DATA,
};

fn w(port: u16, value: u8) -> PortWrite {
    PortWrite { port, value }
}

#[test]
fn remap_issues_the_ten_writes_in_order() {
    let writes = remap(0xB8, 0x8E);
    assert_eq!(
        writes,
        [
            w(0x20, 0x11),
            w(0xA0, 0x11),
            w(0x21, 0x20),
            w(0xA1, 0x28),
            w(0x21, 0x04),
            w(0xA1, 0x02),
            w(0x21, 0x01),
            w(0xA1, 0x01),
            w(0x21, 0xB8),
            w(0xA1, 0x8E),
        ]
    );
}

#[test]
fn remap_differs_only_in_the_masks_it_restores() {
    let a = remap(0x00, 0xFF);
    let b = remap(0x5A, 0xA5);
    assert_eq!(a[..8], b[..8]);
    assert_eq!(a[8], w(PIC1_DATA, 0x00));
    assert_eq!(a[9], w(PIC2_DATA, 0xFF));
    assert_eq!(b[8], w(PIC1_DATA, 0x5A));
    assert_eq!(b[9], w(PIC2_DATA, 0xA5));
}

#[test]
fn remap_writes_only_to_the_four_controller_ports() {
    for write in remap(0x12, 0x34) {
        assert!(
            write.port == PIC1_COMMAND
                || write.port == PIC1_DATA
                || write.port == PIC2_COMMAND
                || write.port == PIC2_DATA
        );
    }
}

#[test]
fn unmask_keyboard_masks_all_but_line_one() {
    assert_eq!(unmask_keyboard(), [w(0x21, 0xFD), w(0xA1, 0xFF)]);
}

#[test]
fn send_eoi_is_one_write_to_the_master_command_port() {
    assert_eq!(send_eoi(), w(0x20, 0x20));
}

#[test]
fn new_controller_masks_every_line() {
    let c = Controller::new();
    assert_eq!(c.read_data(), 0xFF);
    assert_eq!(c.phase, Phase::Ready);
    assert_eq!(c.offset, 0);
}

#[test]
fn data_write_outside_initialization_sets_the_mask() {
    let mut c = Controller::new();
    c.write_data(0x3C);
    assert_eq!(c.read_data(), 0x3C);
    assert_eq!(c.phase, Phase::Ready);
}

#[test]
fn first_initialization_word_clears_the_mask() {
    let mut c = Controller::new();
    c.write_data(0x3C);
    c.write_command(0x11);
    assert_eq!(c.read_data(), 0x00);
    assert_eq!(c.phase, Phase::Offset);
    assert!(!c.single);
    assert!(c.wants_mode);
}

#[test]
fn initialization_takes_three_data_words_after_the_first() {
    let mut c = Controller::new();
    c.write_command(0x11);
    c.write_data(0x20);
    assert_eq!(c.phase, Phase::Cascade);
    assert_eq!(c.offset, 0x20);
    c.write_data(0x04);
    assert_eq!(c.phase, Phase::Mode);
    assert_eq!(c.cascade, 0x04);
    c.write_data(0x01);
    assert_eq!(c.phase, Phase::Ready);
    assert_eq!(c.mode, 0x01);
    assert_eq!(c.read_data(), 0x00);
    c.write_data(0xFD);
    assert_eq!(c.read_data(), 0xFD);
}

#[test]
fn vector_offset_drops_its_low_three_bits() {
    let mut c = Controller::new();
    c.write_command(0x11);
    c.write_data(0x27);
    assert_eq!(c.offset, 0x20);
}

#[test]
fn single_controller_without_mode_word_is_ready_after_the_offset() {
    let mut c = Controller::new();
    c.write_command(0x12);
    assert!(c.single);
    assert!(!c.wants_mode);
    c.write_data(0x08);
    assert_eq!(c.phase, Phase::Ready);
    assert_eq!(c.mode, 0);
}

#[test]
fn single_controller_with_mode_word_skips_the_cascade_word() {
    let mut c = Controller::new();
    c.write_command(0x13);
    c.write_data(0x08);
    assert_eq!(c.phase, Phase::Mode);
    c.write_data(0x01);
    assert_eq!(c.phase, Phase::Ready);
}

#[test]
fn cascaded_controller_without_mode_word_is_ready_after_the_cascade_word() {
    let mut c = Controller::new();
    c.write_command(0x10);
    c.write_data(0x08);
    assert_eq!(c.phase, Phase::Cascade);
    c.write_data(0x04);
    assert_eq!(c.phase, Phase::Ready);
}

#[test]
fn command_without_bit_four_changes_nothing() {
    let mut c = Controller::new();
    c.write_data(0x77);
    let before = c;
    c.write_command(0x20);
    assert_eq!(c, before);
}

#[test]
fn pair_reads_masks_on_data_ports_only() {
    let mut pair = ControllerPair::new();
    pair.outb(PIC1_DATA, 0x12);
    pair.outb(PIC2_DATA, 0x34);
    assert_eq!(pair.inb(PIC1_DATA), Some(0x12));
    assert_eq!(pair.inb(PIC2_DATA), Some(0x34));
    assert_eq!(pair.inb(PIC1_COMMAND), None);
    assert_eq!(pair.inb(PIC2_COMMAND), None);
    assert_eq!(pair.inb(0x60), None);
}

#[test]
fn pair_ignores_writes_to_other_ports() {
    let mut pair = ControllerPair::new();
    let before = pair;
    pair.outb(0x60, 0xAA);
    pair.outb(0x80, 0x00);
    assert_eq!(pair, before);
}

#[test]
fn remap_keeps_the_masks_it_was_given() {
    let mut pair = ControllerPair::new();
    pair.outb(PIC1_DATA, 0xB8);
    pair.outb(PIC2_DATA, 0x8E);
    let m1 = pair.inb(PIC1_DATA).unwrap();
    let m2 = pair.inb(PIC2_DATA).unwrap();
    pair.run(&remap(m1, m2));
    assert_eq!(pair.inb(PIC1_DATA), Some(0xB8));
    assert_eq!(pair.inb(PIC2_DATA), Some(0x8E));
    assert_eq!(pair.master.offset, 0x20);
    assert_eq!(pair.slave.offset, 0x28);
    assert_eq!(pair.master.cascade, 0x04);
    assert_eq!(pair.slave.cascade, 0x02);
    assert_eq!(pair.master.mode, 0x01);
    assert_eq!(pair.slave.mode, 0x01);
    assert_eq!(pair.master.phase, Phase::Ready);
    assert_eq!(pair.slave.phase, Phase::Ready);
}

#[test]
fn remap_then_unmask_keyboard_leaves_fd_and_ff() {
    for start in [0x00u8, 0x01, 0x5A, 0xFD, 0xFF] {
        let mut pair = ControllerPair::new();
        pair.outb(PIC1_DATA, start);
        pair.outb(PIC2_DATA, !start);
        let m1 = pair.inb(PIC1_DATA).unwrap();
        let m2 = pair.inb(PIC2_DATA).unwrap();
        pair.run(&remap(m1, m2));
        pair.run(&unmask_keyboard());
        assert_eq!(pair.inb(PIC1_DATA), Some(0xFD));
        assert_eq!(pair.inb(PIC2_DATA), Some(0xFF));
    }
}

#[test]
fn remap_recovers_a_pair_caught_in_the_middle_of_initialization() {
    let mut pair = ControllerPair::new();
    pair.outb(PIC1_COMMAND, 0x11);
    pair.outb(PIC1_DATA, 0x08);
    pair.outb(PIC2_COMMAND, 0x13);
    assert_eq!(pair.master.phase, Phase::Cascade);
    assert_eq!(pair.slave.phase, Phase::Offset);
    let m1 = pair.inb(PIC1_DATA).unwrap();
    let m2 = pair.inb(PIC2_DATA).unwrap();
    pair.run(&remap(m1, m2));
    pair.run(&unmask_keyboard());
    assert_eq!(pair.master.phase, Phase::Ready);
    assert_eq!(pair.slave.phase, Phase::Ready);
    assert_eq!(pair.master.offset, 0x20);
    assert_eq!(pair.slave.offset, 0x28);
    assert_eq!(pair.inb(PIC1_DATA), Some(0xFD));
    assert_eq!(pair.inb(PIC2_DATA), Some(0xFF));
}

#[test]
fn run_issues_writes_in_order() {
    let mut pair = ControllerPair::new();
    pair.run(&[w(PIC1_DATA, 0x01), w(PIC1_DATA, 0x02), w(PIC2_DATA, 0x03)]);
    assert_eq!(pair.inb(PIC1_DATA), Some(0x02));
    assert_eq!(pair.inb(PIC2_DATA), Some(0x03));
    pair.run(&[]);
    assert_eq!(pair.inb(PIC1_DATA), Some(0x02));
}

#[test]
fn end_of_interrupt_leaves_the_masks() {
    let mut pair = ControllerPair::new();
    pair.run(&remap(0xFF, 0xFF));
    pair.run(&unmask_keyboard());
    let before = pair;
    let eoi = send_eoi();
    pair.outb(eoi.port, eoi.value);
    assert_eq!(pair, before);
}

#[test]
fn only_the_keyboard_line_is_enabled_after_setup() {
    let mut pair = ControllerPair::new();
    pair.run(&remap(0x00, 0x00));
    pair.run(&unmask_keyboard());
    for line in 0..8u8 {
        assert_eq!(pair.master.is_enabled(line), line == 1);
        assert!(!pair.slave.is_enabled(line));
        assert_eq!(pair.master.vector_of(line), 32 + line);
        assert_eq!(pair.slave.vector_of(line), 40 + line);
    }
    assert_eq!(pair.master.vector_of(1), 33);
}

#[test]
fn a_clear_mask_bit_enables_its_line() {
    let mut c = Controller::new();
    c.write_data(0b1010_0101);
    let enabled: Vec<u8> = (0..8).filter(|line| c.is_enabled(*line)).collect();
    assert_eq!(enabled, [1, 3, 4, 6]);
}
