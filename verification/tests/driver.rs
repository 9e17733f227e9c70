use rfm96w::{Action, Error, Event, Frame, LoRa, Outcome, Progress, RadioMode};

/// A register file that stands in for the chip and keeps what it was asked
/// to do.
struct Chip {
    regs: [u8; 128],
    /// Replies that take precedence over the register file: (address, byte),
    /// used up front to back.
    scripted: Vec<(u8, u8)>,
    /// Bytes that reads of the FIFO register give, front first.
    fifo: Vec<u8>,
    /// Polls of the mode register that still show a transmission after the
    /// transmit mode was entered.
    airtime: usize,
    transmitting: usize,
    /// Index in `log` of the action that fails, if any.
    fail_at: Option<usize>,
    /// Index in `lines` of the action that fails, if any.
    fail_line_at: Option<usize>,
    /// Whether chip-select is low.
    selected: bool,
    /// What was asked for, but for the levels of chip-select.
    log: Vec<Action>,
    /// Everything that was asked for.
    lines: Vec<Action>,
}

fn chip() -> Chip {
    let mut regs = [0u8; 128];
    regs[0x42] = 0x12;
    Chip {
        regs,
        scripted: Vec::new(),
        fifo: Vec::new(),
        airtime: 0,
        transmitting: 0,
        fail_at: None,
        fail_line_at: None,
        selected: false,
        log: Vec::new(),
        lines: Vec::new(),
    }
}

fn perform(chip: &mut Chip, action: Action) -> Event {
    let line = chip.lines.len();
    chip.lines.push(action);
    if chip.fail_line_at == Some(line) {
        return Event::Failed;
    }
    match action {
        Action::SelectLow => {
            assert!(!chip.selected, "chip-select is driven low once per transaction");
            chip.selected = true;
            return Event::Completed;
        }
        Action::SelectHigh => {
            chip.selected = false;
            return Event::Completed;
        }
        Action::Exchange { .. } | Action::Send { .. } => {
            assert!(chip.selected, "a frame goes out while chip-select is low");
        }
        _ => {
            assert!(!chip.selected, "chip-select is high between transactions");
        }
    }
    let index = chip.log.len();
    chip.log.push(action);
    if chip.fail_at == Some(index) {
        chip.selected = false;
        return Event::Failed;
    }
    match action {
        Action::Exchange { frame } => {
            assert_eq!(frame.header & 0x80, 0, "a read has the top bit clear");
            assert_eq!(frame.data, 0);
            let addr = frame.header;
            if let Some(at) = chip.scripted.iter().position(|&(a, _)| a == addr) {
                let (_, byte) = chip.scripted.remove(at);
                return Event::Reply(Frame { header: 0, data: byte });
            }
            let byte = if addr == 0x00 && !chip.fifo.is_empty() {
                chip.fifo.remove(0)
            } else if addr == 0x01 && chip.transmitting > 0 {
                chip.transmitting -= 1;
                if chip.transmitting == 0 {
                    chip.regs[0x01] = 0x81;
                    chip.regs[0x12] |= 0x08;
                }
                0x83
            } else {
                chip.regs[addr as usize]
            };
            Event::Reply(Frame { header: 0, data: byte })
        }
        Action::Send { frame } => {
            assert_eq!(frame.header & 0x80, 0x80, "a write has the top bit set");
            let addr = (frame.header & 0x7f) as usize;
            if addr == 0x12 {
                chip.regs[addr] &= !frame.data;
            } else if addr != 0x00 {
                chip.regs[addr] = frame.data;
            }
            if addr == 0x01 && frame.data == 0x83 {
                chip.transmitting = chip.airtime;
                if chip.airtime == 0 {
                    chip.regs[0x01] = 0x81;
                    chip.regs[0x12] |= 0x08;
                }
            }
            Event::Completed
        }
        Action::Sleep { .. } | Action::ResetLow | Action::ResetHigh => Event::Completed,
        _ => unreachable!(),
    }
}

fn run(lora: &mut LoRa, first: Action, chip: &mut Chip) -> Result<Outcome, Error> {
    let mut action = first;
    for _ in 0..100_000 {
        match action {
            Action::Done(result) => {
                if result.is_ok() {
                    assert!(!chip.selected, "chip-select is high after an operation");
                }
                return result;
            }
            Action::Idle => panic!("nothing under way"),
            _ => {
                let event = perform(chip, action);
                action = lora.resume(event);
            }
        }
    }
    panic!("the operation does not end");
}

fn bring_up_on(chip: &mut Chip, frequency: i64, reassert: bool) -> Result<LoRa, Error> {
    let (mut bringup, mut action) = LoRa::new(frequency, reassert);
    for _ in 0..1_000 {
        let event = perform(chip, action);
        match bringup.resume(event) {
            Progress::Continue(next, then) => {
                bringup = next;
                action = then;
            }
            Progress::Ready(lora) => return Ok(lora),
            Progress::Failed(error) => return Err(error),
        }
    }
    panic!("bring-up does not end");
}

/// A radio that has been brought up, and a chip whose log starts empty.
fn radio(reassert: bool) -> (LoRa, Chip) {
    let mut chip = chip();
    let lora = bring_up_on(&mut chip, 433, reassert).unwrap();
    chip.log.clear();
    chip.lines.clear();
    (lora, chip)
}

fn read(addr: u8) -> Action {
    Action::Exchange { frame: Frame { header: addr, data: 0 } }
}

fn write(addr: u8, value: u8) -> Action {
    Action::Send { frame: Frame { header: addr | 0x80, data: value } }
}

fn writes_to(chip: &Chip, addr: u8) -> Vec<u8> {
    let mut values = Vec::new();
    for action in &chip.log {
        if let Action::Send { frame } = action {
            if frame.header == addr | 0x80 {
                values.push(frame.data);
            }
        }
    }
    values
}

fn count_writes(chip: &Chip) -> usize {
    chip.log.iter().filter(|a| matches!(a, Action::Send { .. })).count()
}

// ---------------------------------------------------------------------------
// Bring-up

#[test]
fn bring_up_runs_the_whole_sequence() {
    let mut chip = chip();
    let lora = bring_up_on(&mut chip, 433, false).unwrap();
    let expected = vec![
        Action::ResetLow,
        Action::Sleep { millis: 10 },
        Action::ResetHigh,
        Action::Sleep { millis: 10 },
        read(0x42),
        write(0x01, 0x80),
        write(0x0e, 0x00),
        write(0x0f, 0x00),
        write(0x06, 0x6c),
        write(0x07, 0x40),
        write(0x08, 0x00),
        write(0x20, 0x00),
        write(0x21, 0x08),
        write(0x36, 0x03),
        write(0x3a, 0x65),
        read(0x1d),
        write(0x1d, 0x70),
        read(0x1d),
        read(0x1e),
        read(0x26),
        write(0x26, 0x00),
        read(0x1d),
        write(0x1d, 0x72),
        write(0x31, 0xc3),
        write(0x37, 0x0a),
        read(0x1e),
        write(0x1e, 0x70),
        read(0x1d),
        read(0x1e),
        read(0x26),
        write(0x26, 0x00),
        read(0x1e),
        write(0x1e, 0x74),
        write(0x4d, 0x87),
        write(0x0b, 0x31),
        write(0x09, 0x8f),
        read(0x0c),
        write(0x0c, 0x03),
        write(0x26, 0x04),
        write(0x01, 0x81),
    ];
    assert_eq!(chip.log, expected);
    // Every register access is framed by chip-select, which is driven high
    // once more at the end.
    let transfers = expected.iter().filter(|a| matches!(a, Action::Exchange { .. } | Action::Send { .. })).count();
    assert_eq!(chip.lines.len(), 4 + 3 * transfers + 1);
    assert_eq!(&chip.lines[4..7], &[Action::SelectLow, read(0x42), Action::SelectHigh]);
    assert_eq!(chip.lines[chip.lines.len() - 2], Action::SelectHigh);
    assert_eq!(chip.lines[chip.lines.len() - 1], Action::SelectHigh);
    assert!(!chip.selected);
    assert_eq!(lora.mode(), RadioMode::Stdby);
    assert_eq!(lora.frequency(), 433);
    assert!(!lora.explicit_header());
    assert!(!lora.reasserts_header());
    assert!(lora.is_idle());
}

#[test]
fn bring_up_keeps_the_bits_it_does_not_set() {
    let mut chip = chip();
    chip.regs[0x1d] = 0x0f;
    chip.regs[0x1e] = 0x0b;
    chip.regs[0x0c] = 0x20;
    bring_up_on(&mut chip, 915, false).unwrap();
    assert_eq!(chip.regs[0x1d], 0x73);
    assert_eq!(chip.regs[0x1e], 0x7f);
    assert_eq!(chip.regs[0x0c], 0x23);
    assert_eq!(chip.regs[0x06], 0xe4);
    assert_eq!(chip.regs[0x07], 0xc0);
    assert_eq!(chip.regs[0x08], 0x00);
}

#[test]
fn bring_up_fails_on_another_version() {
    let mut chip = chip();
    chip.regs[0x42] = 0x11;
    let result = bring_up_on(&mut chip, 433, false);
    assert!(matches!(result, Err(Error::VersionMismatch)));
    assert_eq!(
        chip.log,
        vec![
            Action::ResetLow,
            Action::Sleep { millis: 10 },
            Action::ResetHigh,
            Action::Sleep { millis: 10 },
            read(0x42),
        ]
    );
}

#[test]
fn bring_up_fails_with_the_bus() {
    let mut chip = chip();
    chip.fail_at = Some(4);
    assert!(matches!(bring_up_on(&mut chip, 433, false), Err(Error::Transport)));
    assert_eq!(chip.log.len(), 5);
    let mut chip = self::chip();
    chip.fail_at = Some(20);
    assert!(matches!(bring_up_on(&mut chip, 433, false), Err(Error::Transport)));
    assert_eq!(chip.log.len(), 21);
}

#[test]
fn bring_up_with_header_reassertion() {
    let mut chip = chip();
    chip.regs[0x1d] = 0xff;
    let lora = bring_up_on(&mut chip, 433, true).unwrap();
    assert_eq!(&chip.log[5..8], &[read(0x1d), write(0x1d, 0x01), write(0x01, 0x80)]);
    assert!(lora.reasserts_header());
    assert!(!lora.explicit_header());
    assert_eq!(lora.mode(), RadioMode::Stdby);
}

// ---------------------------------------------------------------------------
// Register access and mode

#[test]
fn read_register_is_one_framed_exchange() {
    let (mut lora, mut chip) = radio(false);
    let first = lora.read_register(0x42);
    assert_eq!(run(&mut lora, first, &mut chip), Ok(Outcome::Byte(0x12)));
    assert_eq!(chip.lines, vec![Action::SelectLow, read(0x42), Action::SelectHigh]);
}

#[test]
fn write_register_is_one_framed_write() {
    let (mut lora, mut chip) = radio(false);
    let first = lora.write_register(0x39, 0x34);
    assert_eq!(run(&mut lora, first, &mut chip), Ok(Outcome::Unit));
    assert_eq!(chip.lines, vec![Action::SelectLow, write(0x39, 0x34), Action::SelectHigh]);
}

#[test]
fn a_failure_of_a_control_line_ends_the_operation() {
    for at in 0..3 {
        let (mut lora, mut chip) = radio(false);
        chip.fail_line_at = Some(at);
        let first = lora.write_register(0x39, 0x34);
        assert_eq!(run(&mut lora, first, &mut chip), Err(Error::Transport));
        assert_eq!(chip.lines.len(), at + 1);
        assert!(lora.is_idle());
    }
}

#[test]
fn read_register_gives_the_second_byte() {
    let (mut lora, mut chip) = radio(false);
    chip.regs[0x42] = 0x12;
    let first = lora.read_register(0x42);
    assert_eq!(first, Action::SelectLow);
    assert_eq!(lora.resume(Event::Completed), read(0x42));
    assert_eq!(lora.resume(Event::Reply(Frame { header: 0xee, data: 0x12 })), Action::SelectHigh);
    assert_eq!(lora.resume(Event::Completed), Action::Done(Ok(Outcome::Byte(0x12))));
    // The top bit of the address never goes out on a read.
    let first = lora.read_register(0xc2);
    assert_eq!(run(&mut lora, first, &mut chip), Ok(Outcome::Byte(0x12)));
    assert_eq!(chip.log, vec![read(0x42)]);
}

#[test]
fn write_register_sets_the_write_bit() {
    let (mut lora, mut chip) = radio(false);
    let first = lora.write_register(0x39, 0x34);
    assert_eq!(run(&mut lora, first, &mut chip), Ok(Outcome::Unit));
    assert_eq!(chip.log, vec![write(0x39, 0x34)]);
}

#[test]
fn register_access_fails_with_the_bus() {
    let (mut lora, mut chip) = radio(false);
    chip.fail_at = Some(0);
    let first = lora.read_register(0x42);
    assert_eq!(run(&mut lora, first, &mut chip), Err(Error::Transport));
    let mut chip = self::chip();
    chip.fail_at = Some(0);
    let first = lora.write_register(0x39, 0x34);
    assert_eq!(run(&mut lora, first, &mut chip), Err(Error::Transport));
    assert_eq!(chip.log.len(), 1);
    assert!(lora.is_idle());
}

#[test]
fn a_read_answered_without_a_reply_fails() {
    let (mut lora, _) = radio(false);
    let first = lora.read_register(0x42);
    assert_eq!(first, Action::SelectLow);
    assert_eq!(lora.resume(Event::Completed), read(0x42));
    assert_eq!(lora.resume(Event::Completed), Action::Done(Err(Error::Transport)));
}

#[test]
fn resume_without_an_operation_is_idle() {
    let (mut lora, _) = radio(false);
    assert_eq!(lora.resume(Event::Completed), Action::Idle);
    assert_eq!(lora.resume(Event::Failed), Action::Idle);
    assert_eq!(lora.resume(Event::Reply(Frame { header: 0, data: 7 })), Action::Idle);
    assert_eq!(lora.mode(), RadioMode::Stdby);
}

#[test]
fn set_mode_writes_long_range_bit_and_code() {
    let modes = [
        (RadioMode::Sleep, 0x80u8),
        (RadioMode::Stdby, 0x81),
        (RadioMode::FsTx, 0x82),
        (RadioMode::Tx, 0x83),
        (RadioMode::RxContinuous, 0x85),
        (RadioMode::RxSingle, 0x86),
    ];
    for (mode, value) in modes {
        let (mut lora, mut chip) = radio(false);
        let first = lora.set_mode(mode);
        assert_eq!(run(&mut lora, first, &mut chip), Ok(Outcome::Unit));
        assert_eq!(chip.log, vec![write(0x01, value)]);
        assert_eq!(lora.mode(), mode);
    }
}

#[test]
fn set_mode_from_every_mode() {
    let modes = [
        RadioMode::Sleep,
        RadioMode::Stdby,
        RadioMode::FsTx,
        RadioMode::Tx,
        RadioMode::RxContinuous,
        RadioMode::RxSingle,
    ];
    let (mut lora, mut chip) = radio(false);
    for from in modes {
        for to in modes {
            let first = lora.set_mode(from);
            run(&mut lora, first, &mut chip).unwrap();
            let first = lora.set_mode(to);
            run(&mut lora, first, &mut chip).unwrap();
            assert_eq!(lora.mode(), to);
        }
    }
}

#[test]
fn set_mode_keeps_the_mode_when_the_write_fails() {
    let (mut lora, mut chip) = radio(false);
    chip.fail_at = Some(0);
    let first = lora.set_mode(RadioMode::RxSingle);
    assert_eq!(run(&mut lora, first, &mut chip), Err(Error::Transport));
    assert_eq!(lora.mode(), RadioMode::Stdby);
}

#[test]
fn set_mode_reasserts_the_header_format() {
    let (mut lora, mut chip) = radio(true);
    chip.regs[0x1d] = 0x73;
    let first = lora.set_mode(RadioMode::RxContinuous);
    assert_eq!(run(&mut lora, first, &mut chip), Ok(Outcome::Unit));
    assert_eq!(chip.log, vec![read(0x1d), write(0x1d, 0x01), write(0x01, 0x85)]);
    assert_eq!(lora.mode(), RadioMode::RxContinuous);

    chip.log.clear();
    chip.regs[0x1d] = 0x73;
    let first = lora.set_explicit_header_mode();
    run(&mut lora, first, &mut chip).unwrap();
    assert!(lora.explicit_header());
    chip.log.clear();
    let first = lora.set_mode(RadioMode::Stdby);
    assert_eq!(run(&mut lora, first, &mut chip), Ok(Outcome::Unit));
    assert_eq!(chip.log, vec![read(0x1d), write(0x1d, 0x72), write(0x01, 0x81)]);
    assert!(lora.explicit_header());
}

#[test]
fn header_modes_mask_modem_config_1() {
    let (mut lora, mut chip) = radio(false);
    chip.regs[0x1d] = 0x73;
    let first = lora.set_explicit_header_mode();
    assert_eq!(run(&mut lora, first, &mut chip), Ok(Outcome::Unit));
    assert_eq!(chip.log, vec![read(0x1d), write(0x1d, 0x72)]);
    assert!(lora.explicit_header());

    chip.log.clear();
    chip.regs[0x1d] = 0x73;
    let first = lora.set_implicit_header_mode();
    assert_eq!(run(&mut lora, first, &mut chip), Ok(Outcome::Unit));
    assert_eq!(chip.log, vec![read(0x1d), write(0x1d, 0x01)]);
    assert!(!lora.explicit_header());
}

#[test]
fn header_mode_is_kept_when_the_write_fails() {
    let (mut lora, mut chip) = radio(false);
    chip.fail_at = Some(1);
    let first = lora.set_explicit_header_mode();
    assert_eq!(run(&mut lora, first, &mut chip), Err(Error::Transport));
    assert!(!lora.explicit_header());
}

// ---------------------------------------------------------------------------
// Configuration

#[test]
fn set_frequency_433() {
    let (mut lora, mut chip) = radio(false);
    let first = lora.set_frequency(433);
    assert_eq!(run(&mut lora, first, &mut chip), Ok(Outcome::Unit));
    assert_eq!(chip.log, vec![write(0x06, 0x6c), write(0x07, 0x40), write(0x08, 0x00)]);
    assert_eq!(lora.frequency(), 433);
}

#[test]
fn set_frequency_takes_the_frequency_at_once() {
    let (mut lora, mut chip) = radio(false);
    chip.fail_at = Some(0);
    let first = lora.set_frequency(915);
    assert_eq!(first, Action::SelectLow);
    assert_eq!(run(&mut lora, first, &mut chip), Err(Error::Transport));
    assert_eq!(lora.frequency(), 915);
}

#[test]
fn set_ocp_100_and_140() {
    let (mut lora, mut chip) = radio(false);
    let first = lora.set_ocp(100);
    assert_eq!(run(&mut lora, first, &mut chip), Ok(Outcome::Unit));
    let first = lora.set_ocp(140);
    assert_eq!(run(&mut lora, first, &mut chip), Ok(Outcome::Unit));
    assert_eq!(chip.log, vec![write(0x0b, 0x2b), write(0x0b, 0x31)]);
}

#[test]
fn set_tx_power_20_on_boost() {
    let (mut lora, mut chip) = radio(false);
    let first = lora.set_tx_power(20, 1);
    assert_eq!(run(&mut lora, first, &mut chip), Ok(Outcome::Unit));
    assert_eq!(chip.log, vec![write(0x4d, 0x87), write(0x0b, 0x31), write(0x09, 0x8f)]);
}

#[test]
fn set_tx_power_on_both_paths() {
    let (mut lora, mut chip) = radio(false);
    let first = lora.set_tx_power(17, 1);
    run(&mut lora, first, &mut chip).unwrap();
    assert_eq!(chip.log, vec![write(0x4d, 0x84), write(0x0b, 0x2b), write(0x09, 0x8f)]);
    chip.log.clear();
    let first = lora.set_tx_power(18, 0x80);
    run(&mut lora, first, &mut chip).unwrap();
    assert_eq!(chip.log, vec![write(0x4d, 0x87), write(0x0b, 0x31), write(0x09, 0x8d)]);
    chip.log.clear();
    let first = lora.set_tx_power(0, 7);
    run(&mut lora, first, &mut chip).unwrap();
    assert_eq!(chip.log, vec![write(0x4d, 0x84), write(0x0b, 0x2b), write(0x09, 0x80)]);
    chip.log.clear();
    let first = lora.set_tx_power(10, 0);
    run(&mut lora, first, &mut chip).unwrap();
    assert_eq!(chip.log, vec![write(0x09, 0x7a)]);
    chip.log.clear();
    let first = lora.set_tx_power(20, 0);
    run(&mut lora, first, &mut chip).unwrap();
    assert_eq!(chip.log, vec![write(0x09, 0x7e)]);
}

#[test]
fn set_signal_bandwidth_merges_the_code() {
    let (mut lora, mut chip) = radio(false);
    chip.regs[0x1d] = 0x72;
    chip.regs[0x1e] = 0xc4;
    chip.regs[0x26] = 0x04;
    let first = lora.set_signal_bandwidth(62_500);
    assert_eq!(run(&mut lora, first, &mut chip), Ok(Outcome::Unit));
    // 62.5 kHz at 2^12: 15 symbols/s, 66 ms: the flag goes up.
    assert_eq!(
        chip.log,
        vec![
            write(0x36, 0x03),
            write(0x3a, 0x65),
            read(0x1d),
            write(0x1d, 0x62),
            read(0x1d),
            read(0x1e),
            read(0x26),
            write(0x26, 0x0c),
        ]
    );
}

#[test]
fn set_signal_bandwidth_applies_the_errata() {
    let (mut lora, mut chip) = radio(false);
    chip.regs[0x1e] = 0x74;
    let first = lora.set_signal_bandwidth(500_000);
    run(&mut lora, first, &mut chip).unwrap();
    assert_eq!(&chip.log[..4], &[write(0x36, 0x02), write(0x3a, 0x7f), read(0x1d), write(0x1d, 0x92)]);

    chip.log.clear();
    let first = lora.set_frequency(868);
    run(&mut lora, first, &mut chip).unwrap();
    chip.log.clear();
    let first = lora.set_signal_bandwidth(12_345);
    run(&mut lora, first, &mut chip).unwrap();
    assert_eq!(&chip.log[..4], &[write(0x36, 0x02), write(0x3a, 0x64), read(0x1d), write(0x1d, 0x92)]);
}

#[test]
fn set_spreading_factor_merges_the_factor() {
    let (mut lora, mut chip) = radio(false);
    chip.regs[0x1d] = 0x72;
    chip.regs[0x1e] = 0x74;
    chip.regs[0x26] = 0xff;
    let first = lora.set_spreading_factor(9);
    assert_eq!(run(&mut lora, first, &mut chip), Ok(Outcome::Unit));
    // 125 kHz at 2^9: 244 symbols/s, 4 ms: the flag goes down.
    assert_eq!(
        chip.log,
        vec![
            write(0x31, 0xc3),
            write(0x37, 0x0a),
            read(0x1e),
            write(0x1e, 0x94),
            read(0x1d),
            read(0x1e),
            read(0x26),
            write(0x26, 0xf7),
        ]
    );
}

#[test]
fn set_spreading_factor_holds_the_factor_to_its_range() {
    let (mut lora, mut chip) = radio(false);
    chip.regs[0x1e] = 0x04;
    let first = lora.set_spreading_factor(3);
    run(&mut lora, first, &mut chip).unwrap();
    assert_eq!(&chip.log[..4], &[write(0x31, 0xc5), write(0x37, 0x0c), read(0x1e), write(0x1e, 0x64)]);
    chip.log.clear();
    let first = lora.set_spreading_factor(200);
    run(&mut lora, first, &mut chip).unwrap();
    assert_eq!(&chip.log[..4], &[write(0x31, 0xc3), write(0x37, 0x0a), read(0x1e), write(0x1e, 0xc4)]);
    // 125 kHz at 2^12: 30 symbols/s, 33 ms.
    assert_eq!(chip.regs[0x26] & 0x08, 0x08);
}

#[test]
fn set_ldo_flag_sets_and_clears_bit_3() {
    let (mut lora, mut chip) = radio(false);
    chip.regs[0x1d] = 0x02;
    chip.regs[0x1e] = 0x80;
    chip.regs[0x26] = 0x04;
    let first = lora.set_ldo_flag();
    assert_eq!(run(&mut lora, first, &mut chip), Ok(Outcome::Unit));
    assert_eq!(chip.log, vec![read(0x1d), read(0x1e), read(0x26), write(0x26, 0x0c)]);

    chip.log.clear();
    chip.regs[0x1e] = 0x70;
    chip.regs[0x26] = 0x0c;
    let first = lora.set_ldo_flag();
    assert_eq!(run(&mut lora, first, &mut chip), Ok(Outcome::Unit));
    assert_eq!(chip.log, vec![read(0x1d), read(0x1e), read(0x26), write(0x26, 0x04)]);
}

#[test]
fn set_ldo_flag_on_a_chip_that_reports_no_bandwidth() {
    let (mut lora, mut chip) = radio(false);
    chip.regs[0x1d] = 0xa0;
    chip.regs[0x1e] = 0xc0;
    chip.regs[0x26] = 0x08;
    let first = lora.set_ldo_flag();
    assert_eq!(run(&mut lora, first, &mut chip), Ok(Outcome::Unit));
    assert_eq!(*chip.log.last().unwrap(), write(0x26, 0x00));
    // Less than one symbol per second.
    chip.regs[0x1d] = 0x00;
    chip.regs[0x1e] = 0xf0;
    let first = lora.set_ldo_flag();
    assert_eq!(run(&mut lora, first, &mut chip), Ok(Outcome::Unit));
    assert_eq!(*chip.log.last().unwrap(), write(0x26, 0x08));
}

#[test]
fn set_coding_rate_4_merges_bits_1_to_3() {
    let (mut lora, mut chip) = radio(false);
    chip.regs[0x1d] = 0x7f;
    let first = lora.set_coding_rate_4(8);
    assert_eq!(run(&mut lora, first, &mut chip), Ok(Outcome::Unit));
    assert_eq!(chip.log, vec![read(0x1d), write(0x1d, 0x79)]);
    chip.log.clear();
    let first = lora.set_coding_rate_4(2);
    run(&mut lora, first, &mut chip).unwrap();
    assert_eq!(chip.log, vec![read(0x1d), write(0x1d, 0x73)]);
}

#[test]
fn set_preamble_length_writes_two_bytes() {
    let (mut lora, mut chip) = radio(false);
    let first = lora.set_preamble_length(0x0123);
    assert_eq!(run(&mut lora, first, &mut chip), Ok(Outcome::Unit));
    assert_eq!(chip.log, vec![write(0x20, 0x01), write(0x21, 0x23)]);
}

#[test]
fn set_crc_sets_and_clears_bit_2() {
    let (mut lora, mut chip) = radio(false);
    chip.regs[0x1e] = 0x70;
    let first = lora.set_crc(true);
    assert_eq!(run(&mut lora, first, &mut chip), Ok(Outcome::Unit));
    let first = lora.set_crc(false);
    assert_eq!(run(&mut lora, first, &mut chip), Ok(Outcome::Unit));
    assert_eq!(chip.log, vec![read(0x1e), write(0x1e, 0x74), read(0x1e), write(0x1e, 0x70)]);
    chip.log.clear();
    chip.regs[0x1e] = 0xff;
    let first = lora.set_crc(false);
    run(&mut lora, first, &mut chip).unwrap();
    assert_eq!(chip.log, vec![read(0x1e), write(0x1e, 0xfb)]);
}

#[test]
fn set_invert_iq_writes_the_pair() {
    let (mut lora, mut chip) = radio(false);
    let first = lora.set_invert_iq(true);
    assert_eq!(run(&mut lora, first, &mut chip), Ok(Outcome::Unit));
    let first = lora.set_invert_iq(false);
    assert_eq!(run(&mut lora, first, &mut chip), Ok(Outcome::Unit));
    assert_eq!(
        chip.log,
        vec![write(0x33, 0x66), write(0x3b, 0x19), write(0x33, 0x27), write(0x3b, 0x1d)]
    );
}

#[test]
fn get_signal_bandwidth_decodes_the_high_nibble() {
    let (mut lora, mut chip) = radio(false);
    chip.regs[0x1d] = 0x72;
    let first = lora.get_signal_bandwidth();
    assert_eq!(run(&mut lora, first, &mut chip), Ok(Outcome::Bandwidth(125_000)));
    chip.regs[0x1d] = 0x9f;
    let first = lora.get_signal_bandwidth();
    assert_eq!(run(&mut lora, first, &mut chip), Ok(Outcome::Bandwidth(500_000)));
    chip.regs[0x1d] = 0xb0;
    let first = lora.get_signal_bandwidth();
    assert_eq!(run(&mut lora, first, &mut chip), Ok(Outcome::Bandwidth(-1)));
    assert_eq!(chip.log, vec![read(0x1d), read(0x1d), read(0x1d)]);
}

#[test]
fn get_spreading_factor_is_the_high_nibble() {
    let (mut lora, mut chip) = radio(false);
    chip.regs[0x1e] = 0xc7;
    let first = lora.get_spreading_factor();
    assert_eq!(run(&mut lora, first, &mut chip), Ok(Outcome::Byte(12)));
    assert_eq!(chip.log, vec![read(0x1e)]);
}

// ---------------------------------------------------------------------------
// IRQ flags

#[test]
fn clear_irq_writes_back_what_it_read() {
    let (mut lora, mut chip) = radio(false);
    chip.regs[0x12] = 0x58;
    let first = lora.clear_irq();
    assert_eq!(run(&mut lora, first, &mut chip), Ok(Outcome::Unit));
    assert_eq!(chip.log, vec![read(0x12), write(0x12, 0x58)]);
    assert_eq!(chip.regs[0x12], 0x00);
}

#[test]
fn clear_irq_twice_clears_nothing_the_second_time() {
    let (mut lora, mut chip) = radio(false);
    chip.regs[0x12] = 0xff;
    let first = lora.clear_irq();
    assert_eq!(run(&mut lora, first, &mut chip), Ok(Outcome::Unit));
    let first = lora.clear_irq();
    assert_eq!(run(&mut lora, first, &mut chip), Ok(Outcome::Unit));
    assert_eq!(
        chip.log,
        vec![read(0x12), write(0x12, 0xff), read(0x12), write(0x12, 0x00)]
    );
    assert_eq!(chip.regs[0x12], 0x00);
}

#[test]
fn tx_done_reads_bit_3() {
    let (mut lora, mut chip) = radio(false);
    chip.regs[0x12] = 0x08;
    let first = lora.tx_done();
    assert_eq!(run(&mut lora, first, &mut chip), Ok(Outcome::Flag(true)));
    chip.regs[0x12] = 0xf7;
    let first = lora.tx_done();
    assert_eq!(run(&mut lora, first, &mut chip), Ok(Outcome::Flag(false)));
    assert_eq!(chip.log, vec![read(0x12), read(0x12)]);
}

#[test]
fn transmitting_reads_the_mode_register() {
    for (op_mode, busy) in [
        (0x80u8, false),
        (0x81, false),
        (0x82, true),
        (0x83, true),
        (0x85, false),
        (0x86, true),
        (0x00, false),
        (0xff, true),
    ] {
        let (mut lora, mut chip) = radio(false);
        chip.regs[0x01] = op_mode;
        let first = lora.transmitting();
        assert_eq!(run(&mut lora, first, &mut chip), Ok(Outcome::Flag(busy)));
        if busy {
            assert_eq!(chip.log, vec![read(0x01)]);
        } else {
            assert_eq!(chip.log, vec![read(0x01), read(0x12)]);
        }
    }
}

#[test]
fn transmitting_clears_a_stale_tx_done_flag() {
    let (mut lora, mut chip) = radio(false);
    chip.regs[0x12] = 0x48;
    let first = lora.transmitting();
    assert_eq!(run(&mut lora, first, &mut chip), Ok(Outcome::Flag(false)));
    assert_eq!(chip.log, vec![read(0x01), read(0x12), write(0x12, 0x08)]);
    assert_eq!(chip.regs[0x12], 0x40);
}

// ---------------------------------------------------------------------------
// Receive

#[test]
fn poll_irq_with_budget_0_times_out_at_the_first_check() {
    let (mut lora, mut chip) = radio(false);
    chip.regs[0x12] = 0xbf;
    let first = lora.poll_irq(Some(0));
    assert_eq!(run(&mut lora, first, &mut chip), Err(Error::PollTimeout));
    assert_eq!(chip.log, vec![write(0x01, 0x85), read(0x12)]);
    assert_eq!(lora.mode(), RadioMode::RxContinuous);
    assert!(lora.is_idle());
}

#[test]
fn poll_irq_with_a_negative_budget_times_out_at_the_first_check() {
    let (mut lora, mut chip) = radio(false);
    let first = lora.poll_irq(Some(-5));
    assert_eq!(run(&mut lora, first, &mut chip), Err(Error::PollTimeout));
    assert_eq!(chip.log, vec![write(0x01, 0x85), read(0x12)]);
}

#[test]
fn poll_irq_counts_polls() {
    let (mut lora, mut chip) = radio(false);
    let first = lora.poll_irq(Some(3));
    assert_eq!(run(&mut lora, first, &mut chip), Err(Error::PollTimeout));
    let pause = Action::Sleep { millis: 1 };
    assert_eq!(
        chip.log,
        vec![
            write(0x01, 0x85),
            read(0x12),
            pause,
            read(0x12),
            pause,
            read(0x12),
            pause,
            read(0x12),
        ]
    );
}

#[test]
fn poll_irq_gives_the_size_of_the_packet() {
    let (mut lora, mut chip) = radio(false);
    chip.scripted = vec![(0x12, 0x00), (0x12, 0x00)];
    chip.regs[0x12] = 0x50;
    chip.regs[0x13] = 17;
    let first = lora.poll_irq(Some(300));
    assert_eq!(run(&mut lora, first, &mut chip), Ok(Outcome::Size(17)));
    let pause = Action::Sleep { millis: 1 };
    assert_eq!(
        chip.log,
        vec![
            write(0x01, 0x85),
            read(0x12),
            pause,
            read(0x12),
            pause,
            read(0x12),
            read(0x12),
            write(0x12, 0x50),
            read(0x13),
        ]
    );
    assert_eq!(chip.regs[0x12], 0x00);
}

#[test]
fn poll_irq_sees_a_packet_at_the_last_poll() {
    let (mut lora, mut chip) = radio(false);
    chip.scripted = vec![(0x12, 0x00), (0x12, 0x00)];
    chip.regs[0x12] = 0x40;
    chip.regs[0x13] = 255;
    let first = lora.poll_irq(Some(2));
    assert_eq!(run(&mut lora, first, &mut chip), Ok(Outcome::Size(255)));
}

#[test]
fn poll_irq_without_budget_waits_100_ms_between_polls() {
    let (mut lora, mut chip) = radio(false);
    chip.scripted = (0..50).map(|_| (0x12u8, 0x3fu8)).collect();
    chip.regs[0x12] = 0x40;
    chip.regs[0x13] = 4;
    let first = lora.poll_irq(None);
    assert_eq!(run(&mut lora, first, &mut chip), Ok(Outcome::Size(4)));
    let pauses = chip.log.iter().filter(|a| **a == Action::Sleep { millis: 100 }).count();
    assert_eq!(pauses, 50);
    assert_eq!(chip.log.len(), 1 + 50 * 2 + 1 + 2 + 1);
    assert_eq!(&chip.log[..4], &[write(0x01, 0x85), read(0x12), Action::Sleep { millis: 100 }, read(0x12)]);
}

#[test]
fn poll_irq_fails_with_the_bus() {
    let (mut lora, mut chip) = radio(false);
    chip.fail_at = Some(3);
    let first = lora.poll_irq(Some(10));
    assert_eq!(run(&mut lora, first, &mut chip), Err(Error::Transport));
    assert_eq!(lora.mode(), RadioMode::RxContinuous);
}

#[test]
fn get_ready_packet_size_reads_the_length_register() {
    let (mut lora, mut chip) = radio(false);
    chip.regs[0x13] = 0x2a;
    let first = lora.get_ready_packet_size();
    assert_eq!(run(&mut lora, first, &mut chip), Ok(Outcome::Byte(0x2a)));
    assert_eq!(chip.log, vec![read(0x13)]);
}

#[test]
fn read_packet_drains_the_fifo() {
    let (mut lora, mut chip) = radio(false);
    chip.regs[0x12] = 0x40;
    chip.regs[0x13] = 4;
    chip.regs[0x10] = 0x20;
    chip.fifo = vec![0xde, 0xad, 0xbe, 0xef];
    let first = lora.read_packet();
    let mut expected = [0u8; 255];
    expected[..4].copy_from_slice(&[0xde, 0xad, 0xbe, 0xef]);
    assert_eq!(run(&mut lora, first, &mut chip), Ok(Outcome::Packet(expected)));
    assert_eq!(
        chip.log,
        vec![
            read(0x12),
            write(0x12, 0x40),
            read(0x13),
            read(0x10),
            write(0x0d, 0x20),
            read(0x00),
            read(0x00),
            read(0x00),
            read(0x00),
            write(0x0d, 0x00),
        ]
    );
}

#[test]
fn read_packet_of_no_bytes() {
    let (mut lora, mut chip) = radio(false);
    chip.regs[0x13] = 0;
    chip.regs[0x10] = 0x07;
    let first = lora.read_packet();
    assert_eq!(run(&mut lora, first, &mut chip), Ok(Outcome::Packet([0u8; 255])));
    assert_eq!(
        chip.log,
        vec![
            read(0x12),
            write(0x12, 0x00),
            read(0x13),
            read(0x10),
            write(0x0d, 0x07),
            write(0x0d, 0x00),
        ]
    );
}

#[test]
fn read_packet_of_255_bytes() {
    let (mut lora, mut chip) = radio(false);
    chip.regs[0x13] = 255;
    chip.fifo = (0..255).map(|i| (i as u8) ^ 0x5a).collect();
    let first = lora.read_packet();
    let mut expected = [0u8; 255];
    for (i, byte) in expected.iter_mut().enumerate() {
        *byte = (i as u8) ^ 0x5a;
    }
    assert_eq!(run(&mut lora, first, &mut chip), Ok(Outcome::Packet(expected)));
    assert_eq!(chip.log.len(), 5 + 255 + 1);
}

#[test]
fn read_packet_starts_from_a_blank_buffer() {
    let (mut lora, mut chip) = radio(false);
    chip.regs[0x13] = 3;
    chip.fifo = vec![1, 2, 3];
    let first = lora.read_packet();
    run(&mut lora, first, &mut chip).unwrap();
    chip.regs[0x13] = 1;
    chip.fifo = vec![9];
    let first = lora.read_packet();
    let mut expected = [0u8; 255];
    expected[0] = 9;
    assert_eq!(run(&mut lora, first, &mut chip), Ok(Outcome::Packet(expected)));
}

// ---------------------------------------------------------------------------
// Transmit

#[test]
fn transmit_payload_busy_loads_sends_and_waits() {
    let (mut lora, mut chip) = radio(false);
    chip.airtime = 3;
    let mut buffer = [0u8; 255];
    buffer[..4].copy_from_slice(b"RORA");
    buffer[4] = 0x77;
    let first = lora.transmit_payload_busy(buffer, 4);
    assert_eq!(run(&mut lora, first, &mut chip), Ok(Outcome::Size(4)));
    assert_eq!(
        chip.log,
        vec![
            read(0x01),
            read(0x12),
            write(0x01, 0x81),
            write(0x12, 0x00),
            write(0x0d, 0x00),
            write(0x22, 0x00),
            write(0x00, b'R'),
            write(0x00, b'O'),
            write(0x00, b'R'),
            write(0x00, b'A'),
            write(0x22, 0x04),
            write(0x01, 0x83),
            read(0x01),
            read(0x01),
            read(0x01),
            read(0x01),
            read(0x12),
            write(0x12, 0x08),
        ]
    );
    assert_eq!(lora.mode(), RadioMode::Tx);
}

#[test]
fn transmit_payload_busy_while_transmitting_is_refused() {
    for op_mode in [0x83u8, 0x82] {
        let (mut lora, mut chip) = radio(false);
        chip.regs[0x01] = op_mode;
        let first = lora.transmit_payload_busy([7u8; 255], 10);
        assert_eq!(run(&mut lora, first, &mut chip), Err(Error::AlreadyTransmitting));
        assert_eq!(chip.log, vec![read(0x01)]);
        assert_eq!(count_writes(&chip), 0);
        assert_eq!(lora.mode(), RadioMode::Stdby);
    }
}

#[test]
fn transmit_payload_busy_of_nothing_and_of_everything() {
    let (mut lora, mut chip) = radio(false);
    let first = lora.transmit_payload_busy([1u8; 255], 0);
    assert_eq!(run(&mut lora, first, &mut chip), Ok(Outcome::Size(0)));
    assert_eq!(writes_to(&chip, 0x00), Vec::<u8>::new());
    assert_eq!(writes_to(&chip, 0x22), vec![0, 0]);
    chip.log.clear();
    let mut buffer = [0u8; 255];
    for (i, byte) in buffer.iter_mut().enumerate() {
        *byte = i as u8;
    }
    let first = lora.transmit_payload_busy(buffer, 255);
    assert_eq!(run(&mut lora, first, &mut chip), Ok(Outcome::Size(255)));
    assert_eq!(writes_to(&chip, 0x00), buffer.to_vec());
    assert_eq!(writes_to(&chip, 0x22), vec![0, 255]);
}

#[test]
fn transmit_payload_busy_reasserts_the_header_format() {
    let (mut lora, mut chip) = radio(true);
    chip.regs[0x1d] = 0x73;
    let first = lora.transmit_payload_busy([0xaa; 255], 1);
    assert_eq!(run(&mut lora, first, &mut chip), Ok(Outcome::Size(1)));
    assert_eq!(
        &chip.log[..8],
        &[
            read(0x01),
            read(0x12),
            read(0x1d),
            write(0x1d, 0x01),
            write(0x01, 0x81),
            read(0x1d),
            write(0x1d, 0x01),
            write(0x12, 0x00),
        ]
    );
    assert_eq!(writes_to(&chip, 0x01), vec![0x81, 0x83]);
}

#[test]
fn transmit_payload_does_not_wait() {
    let (mut lora, mut chip) = radio(false);
    chip.airtime = 1_000;
    let first = lora.transmit_payload(b"RORA");
    assert_eq!(run(&mut lora, first, &mut chip), Ok(Outcome::Unit));
    assert_eq!(
        chip.log,
        vec![
            read(0x01),
            read(0x12),
            write(0x01, 0x81),
            write(0x12, 0x00),
            write(0x0d, 0x00),
            write(0x22, 0x00),
            write(0x00, b'R'),
            write(0x00, b'O'),
            write(0x00, b'R'),
            write(0x00, b'A'),
            write(0x22, 0x04),
            write(0x01, 0x83),
        ]
    );
    assert_eq!(lora.mode(), RadioMode::Tx);
    // The chip is on the air: the next transmission is refused.
    chip.log.clear();
    let first = lora.transmit_payload(b"again");
    assert_eq!(run(&mut lora, first, &mut chip), Err(Error::AlreadyTransmitting));
    assert_eq!(count_writes(&chip), 0);
    assert_eq!(lora.mode(), RadioMode::Tx);
}

#[test]
fn transmit_payload_sends_at_most_255_bytes() {
    let (mut lora, mut chip) = radio(false);
    let data: Vec<u8> = (0..400).map(|i| (i % 253) as u8).collect();
    let first = lora.transmit_payload(&data);
    assert_eq!(run(&mut lora, first, &mut chip), Ok(Outcome::Unit));
    assert_eq!(writes_to(&chip, 0x00), data[..255].to_vec());
    assert_eq!(writes_to(&chip, 0x22), vec![0, 255]);
}

#[test]
fn transmission_fails_with_the_bus() {
    let (mut lora, mut chip) = radio(false);
    chip.fail_at = Some(7);
    let first = lora.transmit_payload_busy([3u8; 255], 20);
    assert_eq!(run(&mut lora, first, &mut chip), Err(Error::Transport));
    assert_eq!(chip.log.len(), 8);
    assert_eq!(lora.mode(), RadioMode::Stdby);
    assert!(lora.is_idle());
}

// ---------------------------------------------------------------------------
// Bulk transfer

#[test]
fn tx_bulk_of_300_bytes_is_two_transmissions() {
    let (mut lora, mut chip) = radio(false);
    chip.airtime = 2;
    let data: Vec<u8> = (0..300).map(|i| (i * 7 % 256) as u8).collect();
    let first = lora.tx_bulk(&data);
    assert_eq!(run(&mut lora, first, &mut chip), Ok(Outcome::Unit));
    assert_eq!(chip.log[0], write(0x40, 0x01));
    // One entry of the mode register into transmit per transmission.
    assert_eq!(writes_to(&chip, 0x01), vec![0x81, 0x83, 0x81, 0x83]);
    assert_eq!(writes_to(&chip, 0x22), vec![0, 255, 0, 45]);
    let fifo = writes_to(&chip, 0x00);
    assert_eq!(fifo.len(), 300);
    assert_eq!(&fifo[..255], &data[..255]);
    assert_eq!(&fifo[255..], &data[255..]);
    // The second payload is loaded only after the first has been sent.
    let second_start = chip.log.iter().rposition(|a| *a == write(0x22, 0x00)).unwrap();
    let first_sent = chip.log.iter().position(|a| *a == write(0x01, 0x83)).unwrap();
    assert!(first_sent < second_start);
    let loaded_before: usize = chip.log[..second_start]
        .iter()
        .filter(|a| matches!(a, Action::Send { frame } if frame.header == 0x80))
        .count();
    assert_eq!(loaded_before, 255);
}

#[test]
fn tx_bulk_of_nothing_only_routes_the_interrupt() {
    let (mut lora, mut chip) = radio(false);
    let first = lora.tx_bulk(&[]);
    assert_eq!(run(&mut lora, first, &mut chip), Ok(Outcome::Unit));
    assert_eq!(chip.log, vec![write(0x40, 0x01)]);
}

#[test]
fn tx_bulk_of_exactly_two_chunks() {
    let (mut lora, mut chip) = radio(false);
    let data = vec![0x11u8; 510];
    let first = lora.tx_bulk(&data);
    assert_eq!(run(&mut lora, first, &mut chip), Ok(Outcome::Unit));
    assert_eq!(writes_to(&chip, 0x22), vec![0, 255, 0, 255]);
    assert_eq!(writes_to(&chip, 0x00).len(), 510);
}

#[test]
fn tx_bulk_stops_at_the_chunk_that_fails() {
    let (mut lora, mut chip) = radio(false);
    let data = vec![0x22u8; 600];
    // The first chunk takes 1 + 2 + 4 + 255 + 2 + 2 actions after the
    // routing write; fail within the second.
    chip.fail_at = Some(1 + 266 + 10);
    let first = lora.tx_bulk(&data);
    assert_eq!(
        run(&mut lora, first, &mut chip),
        Err(Error::Bulk { chunk: 1, contention: false })
    );
    assert_eq!(writes_to(&chip, 0x01), vec![0x81, 0x83, 0x81]);
    assert!(lora.is_idle());
}

#[test]
fn tx_bulk_stops_when_the_chip_is_still_transmitting() {
    let (mut lora, mut chip) = radio(false);
    chip.regs[0x01] = 0x83;
    let first = lora.tx_bulk(&[1, 2, 3]);
    assert_eq!(
        run(&mut lora, first, &mut chip),
        Err(Error::Bulk { chunk: 0, contention: true })
    );
    assert_eq!(chip.log, vec![write(0x40, 0x01), read(0x01)]);
}

#[test]
fn tx_bulk_fails_plainly_before_the_first_chunk() {
    let (mut lora, mut chip) = radio(false);
    chip.fail_at = Some(0);
    let first = lora.tx_bulk(&[1, 2, 3]);
    assert_eq!(run(&mut lora, first, &mut chip), Err(Error::Transport));
}

#[test]
fn an_operation_after_a_bulk_failure_reports_plainly() {
    let (mut lora, mut chip) = radio(false);
    chip.regs[0x01] = 0x83;
    let first = lora.tx_bulk(&[1, 2, 3]);
    run(&mut lora, first, &mut chip).unwrap_err();
    let first = lora.transmit_payload(&[1]);
    assert_eq!(run(&mut lora, first, &mut chip), Err(Error::AlreadyTransmitting));
    let mut chip = self::chip();
    chip.fail_at = Some(0);
    let first = lora.clear_irq();
    assert_eq!(run(&mut lora, first, &mut chip), Err(Error::Transport));
}

#[test]
fn starting_an_operation_drops_the_one_under_way() {
    let (mut lora, mut chip) = radio(false);
    let first = lora.set_crc(true);
    assert_eq!(first, Action::SelectLow);
    assert_eq!(lora.resume(Event::Completed), read(0x1e));
    assert!(!lora.is_idle());
    chip.selected = false;
    let first = lora.set_mode(RadioMode::Sleep);
    assert_eq!(run(&mut lora, first, &mut chip), Ok(Outcome::Unit));
    assert_eq!(chip.log, vec![write(0x01, 0x80)]);
    assert_eq!(lora.mode(), RadioMode::Sleep);
}
