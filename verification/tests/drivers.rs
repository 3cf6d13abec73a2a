use epd_waveshare_async::buffer::BinaryBuffer;
use epd_waveshare_async::canvas::Canvas;
use epd_waveshare_async::display::{Clear, DisplayPartial, DisplaySimple, Displayable, Reset, Sleep, Wake};
use epd_waveshare_async::epd7in3e::{self, Epd7In3E};
use epd_waveshare_async::epd7in5_v2::{self, Command, Epd7in5, RefreshMode};
use epd_waveshare_async::geometry::{BinaryColor, Pixel, PinState, Point, Size};
use epd_waveshare_async::hw::Step;

fn send(command: u8, data: &[u8]) -> Step {
    Step::Send { command, data: data.to_vec() }
}

fn reset_7in5() -> Vec<Step> {
    vec![
        Step::SetReset(PinState::Low),
        Step::DelayMs(2),
        Step::SetReset(PinState::High),
        Step::DelayMs(20),
    ]
}

fn full_mode_7in5() -> Vec<Step> {
    vec![
        send(0x00, &[0x1F]),
        send(0x50, &[0x10, 0x07]),
        send(0x04, &[]),
        Step::DelayMs(100),
        Step::WaitIfBusy,
        send(0x06, &[0x27, 0x27, 0x18, 0x17]),
        send(0xE0, &[0x02]),
        send(0xE5, &[0x5A]),
    ]
}

#[test]
fn command_registers_match_the_datasheet() {
    assert_eq!(Command::PanelSetting.register(), 0x00);
    assert_eq!(Command::DeepSleep.register(), 0x07);
    assert_eq!(Command::DisplayStartTrans1.register(), 0x10);
    assert_eq!(Command::DisplayStartTrans2.register(), 0x13);
    assert_eq!(Command::VCOMDataInterval.register(), 0x50);
    assert_eq!(Command::PartialWindow.register(), 0x90);
    assert_eq!(Command::CascadeSet.register(), 0xE0);
    assert_eq!(Command::TempBoundaryPhaseC2.register(), 0xE7);
    assert_eq!(epd7in3e::Command::DataStartTrans1.register(), 0x10);
    assert_eq!(epd7in3e::Command::CMDH.register(), 0xAA);
    assert_eq!(epd7in3e::Command::PowerSaving.register(), 0xE3);
}

#[test]
fn refresh_mode_black_and_white() {
    assert!(RefreshMode::Full.is_black_and_white());
    assert!(RefreshMode::FullSlow.is_black_and_white());
    assert!(RefreshMode::Partial.is_black_and_white());
    assert!(!RefreshMode::Gray2.is_black_and_white());
}

#[test]
fn epd7in5_buffers_cover_the_panel() {
    let buffer = epd7in5_v2::new_binary_buffer();
    assert_eq!(buffer.data().len(), epd7in5_v2::BINARY_BUFFER_LENGTH);
    assert_eq!(epd7in5_v2::BINARY_BUFFER_LENGTH, 48_000);
    let gray = epd7in5_v2::new_gray2_buffer();
    assert_eq!(gray.low.data().len(), 48_000);
    assert_eq!(gray.high.data().len(), 48_000);
    assert!(buffer.data().iter().all(|b| *b == 0));
}

#[test]
fn epd7in5_init_resets_then_sets_mode() {
    let epd = Epd7in5::new(());
    let (epd, steps) = epd.init(RefreshMode::Full);
    let mut expected = reset_7in5();
    expected.extend(full_mode_7in5());
    assert_eq!(steps, expected);
    assert_eq!(epd.state().mode(), RefreshMode::Full);
}

#[test]
fn epd7in5_set_refresh_mode_only_when_changed() {
    let (mut epd, _) = Epd7in5::new(()).init(RefreshMode::Full);
    assert!(epd.set_refresh_mode(RefreshMode::Full).is_empty());
    assert_eq!(epd.state().mode(), RefreshMode::Full);

    let steps = epd.set_refresh_mode(RefreshMode::Partial);
    assert_eq!(
        steps,
        vec![
            send(0x00, &[0x1F]),
            send(0x04, &[]),
            Step::DelayMs(100),
            Step::WaitIfBusy,
            send(0xE0, &[0x02]),
            send(0xE5, &[0x6E]),
        ]
    );
    // Planning does not change the recorded mode: a failed run must not leave it claimed.
    assert_eq!(epd.state().mode(), RefreshMode::Full);
    assert_eq!(epd.set_refresh_mode(RefreshMode::Partial), steps);

    epd.record_refresh_mode(RefreshMode::Partial);
    assert_eq!(epd.state().mode(), RefreshMode::Partial);
    assert!(epd.set_refresh_mode(RefreshMode::Partial).is_empty());
}

#[test]
fn epd7in5_send_plans_one_command() {
    let (mut epd, _) = Epd7in5::new(()).init(RefreshMode::Full);
    assert_eq!(epd.send(Command::PowerOff, &[]), vec![send(0x02, &[])]);
    assert_eq!(epd.send(Command::TCONSet, &[0x22]), vec![send(0x60, &[0x22])]);
}

#[test]
fn epd7in5_sleep_and_wake_keep_the_mode() {
    let (epd, _) = Epd7in5::new(()).init(RefreshMode::Gray2);
    let (asleep, steps) = epd.sleep();
    assert_eq!(
        steps,
        vec![send(0x50, &[0xF7]), send(0x02, &[]), send(0x07, &[0xA5])]
    );
    let (awake, steps) = asleep.wake();
    assert_eq!(steps, reset_7in5());
    assert_eq!(awake.state().mode(), RefreshMode::Gray2);

    let (asleep, _) = awake.sleep();
    let (awake, steps) = asleep.reset();
    assert_eq!(steps, reset_7in5());
    assert_eq!(awake.state().mode(), RefreshMode::Gray2);
    let (_, steps) = awake.reset();
    assert_eq!(steps, reset_7in5());
}

#[test]
fn epd7in5_display_framebuffer_sends_data_and_complement() {
    let (mut epd, _) = Epd7in5::new(()).init(RefreshMode::Full);
    let mut buffer = BinaryBuffer::<2>::new(Size::new(16, 1));
    buffer
        .draw_iter(&[Pixel(Point::new(0, 0), BinaryColor::On)])
        .unwrap();
    let steps = epd.display_framebuffer(&buffer);
    assert_eq!(
        steps,
        vec![
            send(0x10, &[0x80, 0x00]),
            send(0x13, &[0x7F, 0xFF]),
            send(0x12, &[]),
            Step::DelayMs(100),
            Step::WaitIfBusy,
        ]
    );
    assert_eq!(
        epd.update_display(),
        vec![send(0x12, &[]), Step::DelayMs(100), Step::WaitIfBusy]
    );
}

#[test]
fn epd7in5_partial_window_bytes() {
    let (mut epd, _) = Epd7in5::new(()).init(RefreshMode::Partial);
    let buffer = epd7in5_v2::new_binary_buffer();
    let steps = epd.write_base_framebuffer(&buffer);
    assert_eq!(steps.len(), 4);
    assert_eq!(steps[0], send(0x50, &[0xA9, 0x07]));
    assert_eq!(steps[1], send(0x91, &[]));
    assert_eq!(steps[2], send(0x90, &[0x00, 0x00, 0x03, 0x1F, 0x00, 0x00, 0x01, 0xDF, 0x01]));
    assert_eq!(steps[3], send(0x13, &[0u8; 48_000]));
}

#[test]
fn epd7in3e_init_resets_settles_and_powers_on() {
    let (epd, steps) = Epd7In3E::new(()).init(epd7in3e::RefreshMode::Full);
    assert_eq!(epd.state().mode(), epd7in3e::RefreshMode::Full);
    assert_eq!(
        &steps[..7],
        &[
            Step::SetReset(PinState::High),
            Step::DelayMs(20),
            Step::SetReset(PinState::Low),
            Step::DelayMs(2),
            Step::SetReset(PinState::High),
            Step::DelayMs(200),
            Step::WaitIfBusy,
        ]
    );
    assert_eq!(steps[7], Step::DelayMs(30));
    assert_eq!(steps[8], send(0xAA, &[0x49, 0x55, 0x20, 0x08, 0x09, 0x18]));
    assert_eq!(steps.last(), Some(&send(0x04, &[])));
}

#[test]
fn epd7in3e_set_same_mode_sends_nothing() {
    let (mut epd, _) = Epd7In3E::new(()).init(epd7in3e::RefreshMode::Full);
    assert!(epd.set_refresh_mode(epd7in3e::RefreshMode::Full).is_empty());
    epd.record_refresh_mode(epd7in3e::RefreshMode::Full);
    assert_eq!(epd.state().mode(), epd7in3e::RefreshMode::Full);
}

#[test]
fn epd7in3e_clear_fills_white_then_refreshes() {
    let (mut epd, _) = Epd7In3E::new(()).init(epd7in3e::RefreshMode::Full);
    let steps = epd.clear();
    assert_eq!(
        steps[0],
        Step::SendRepeated { command: 0x10, byte: 0xFF, count: epd7in3e::HEX_BUFFER_LENGTH }
    );
    assert_eq!(epd7in3e::HEX_BUFFER_LENGTH, 192_000);
    assert_eq!(&steps[1..], epd.update_display().as_slice());
}

#[test]
fn epd7in3e_sleep_forgets_the_mode() {
    let (epd, _) = Epd7In3E::new(()).init(epd7in3e::RefreshMode::Full);
    let (asleep, steps) = epd.sleep();
    assert_eq!(steps, vec![send(0x07, &[0xA5])]);
    let (_uninitialised, steps) = asleep.reset();
    assert!(steps.is_empty());
}
