//! Version 2 of the 7.5" Waveshare e-paper display (800 x 480).
use crate::buffer::{frame_bytes, spec_binary_buffer_length, BinaryBuffer, BufferView, Gray2SplitBuffer};
use crate::display::{DisplayPartial, DisplaySimple, Displayable, Reset, Sleep, Wake};
use crate::geometry::{PinState, Point, Rectangle, Size};
use crate::hw::{append_steps, inverted, invert_bytes, send_step, Step, StepSpec};
use vstd::prelude::*;

verus! {

/// The refresh mode for the display.
#[derive(Debug, Clone, Copy, PartialEq, Eq, Structural)]
pub enum RefreshMode {
    /// Use the full update LUT. This is slower than [RefreshMode::Partial], but should be done
    /// occasionally to avoid ghosting. If ghosting persists, try [RefreshMode::FullSlow].
    Full,
    /// A slower full update that gives a cleaner final image.
    FullSlow,
    /// Uses the partial update LUT for fast refresh. It diffs the current framebuffer against
    /// the previous framebuffer, and just updates the pixels that differ.
    Partial,
    /// A refresh mode that supports 2-bit grayscale. There is no partial update version for
    /// Gray2. All updates require writing to both on-device framebuffers.
    Gray2,
}

impl RefreshMode {
    /// If this refresh mode is black and white only.
    pub fn is_black_and_white(&self) -> (r: bool)
        ensures
            r == (*self != RefreshMode::Gray2),
    {
        match self {
            RefreshMode::Gray2 => false,
            _ => true,
        }
    }
}

/// The width of the display (landscape orientation).
pub const DISPLAY_WIDTH: u16 = 800;

/// The height of the display (landscape orientation).
pub const DISPLAY_HEIGHT: u16 = 480;

/// The recommended SPI clock, 4 MHz.
pub const RECOMMENDED_SPI_HZ: u32 = 4_000_000;

/// The default pin state that indicates the display is busy.
pub const DEFAULT_BUSY_WHEN: PinState = PinState::High;

/// The length of the underlying buffer used by [Epd7in5].
pub const BINARY_BUFFER_LENGTH: usize = 48_000;

/// Low-level commands for the display. You probably want to use the other methods exposed on
/// the [Epd7in5] for most operations, but can send commands directly for low-level control or
/// experimentation.
#[derive(Debug, Clone, Copy, PartialEq, Eq, Structural)]
pub enum Command {
    PanelSetting,
    PowerSetting,
    PowerOff,
    PowerOffSequenceSet,
    PowerOn,
    PowerOnMeasure,
    BoosterSoftStart,
    DeepSleep,
    DisplayStartTrans1,
    DataStop,
    DisplayRefresh,
    DisplayStartTrans2,
    DualSPI,
    AutoSequence,
    KWLUTOption,
    PLLControl,
    TempSensorCalibration,
    TempSensorSelect,
    TempSensorWrite,
    TempSensorRead,
    PanelBreakCheck,
    VCOMDataInterval,
    LowerPowerDetection,
    EndVoltageSet,
    TCONSet,
    ResolutionSet,
    GateSourceStartSet,
    Revision,
    GetStatus,
    AutoMeasurementVCOM,
    ReadVCOM,
    VCOMDCSetting,
    PartialWindow,
    PartialIn,
    PartialOut,
    ProgramMode,
    ActiveProgramming,
    ReadOTP,
    CascadeSet,
    PowerSaving,
    LVDVoltageSelect,
    ForceTemperature,
    TempBoundaryPhaseC2,
}

impl Command {
    /// The register address of the command.
    pub open spec fn spec_register(self) -> u8 {
        match self {
            Command::PanelSetting => 0x00,
            Command::PowerSetting => 0x01,
            Command::PowerOff => 0x02,
            Command::PowerOffSequenceSet => 0x03,
            Command::PowerOn => 0x04,
            Command::PowerOnMeasure => 0x05,
            Command::BoosterSoftStart => 0x06,
            Command::DeepSleep => 0x07,
            Command::DisplayStartTrans1 => 0x10,
            Command::DataStop => 0x11,
            Command::DisplayRefresh => 0x12,
            Command::DisplayStartTrans2 => 0x13,
            Command::DualSPI => 0x15,
            Command::AutoSequence => 0x17,
            Command::KWLUTOption => 0x2B,
            Command::PLLControl => 0x30,
            Command::TempSensorCalibration => 0x40,
            Command::TempSensorSelect => 0x41,
            Command::TempSensorWrite => 0x42,
            Command::TempSensorRead => 0x43,
            Command::PanelBreakCheck => 0x44,
            Command::VCOMDataInterval => 0x50,
            Command::LowerPowerDetection => 0x51,
            Command::EndVoltageSet => 0x52,
            Command::TCONSet => 0x60,
            Command::ResolutionSet => 0x61,
            Command::GateSourceStartSet => 0x65,
            Command::Revision => 0x70,
            Command::GetStatus => 0x71,
            Command::AutoMeasurementVCOM => 0x80,
            Command::ReadVCOM => 0x81,
            Command::VCOMDCSetting => 0x82,
            Command::PartialWindow => 0x90,
            Command::PartialIn => 0x91,
            Command::PartialOut => 0x92,
            Command::ProgramMode => 0xA0,
            Command::ActiveProgramming => 0xA1,
            Command::ReadOTP => 0xA2,
            Command::CascadeSet => 0xE0,
            Command::PowerSaving => 0xE3,
            Command::LVDVoltageSelect => 0xE4,
            Command::ForceTemperature => 0xE5,
            Command::TempBoundaryPhaseC2 => 0xE7,
        }
    }

    /// Returns the register address for this command.
    pub fn register(&self) -> (r: u8)
        ensures
            r == self.spec_register(),
    {
        match self {
            Command::PanelSetting => 0x00,
            Command::PowerSetting => 0x01,
            Command::PowerOff => 0x02,
            Command::PowerOffSequenceSet => 0x03,
            Command::PowerOn => 0x04,
            Command::PowerOnMeasure => 0x05,
            Command::BoosterSoftStart => 0x06,
            Command::DeepSleep => 0x07,
            Command::DisplayStartTrans1 => 0x10,
            Command::DataStop => 0x11,
            Command::DisplayRefresh => 0x12,
            Command::DisplayStartTrans2 => 0x13,
            Command::DualSPI => 0x15,
            Command::AutoSequence => 0x17,
            Command::KWLUTOption => 0x2B,
            Command::PLLControl => 0x30,
            Command::TempSensorCalibration => 0x40,
            Command::TempSensorSelect => 0x41,
            Command::TempSensorWrite => 0x42,
            Command::TempSensorRead => 0x43,
            Command::PanelBreakCheck => 0x44,
            Command::VCOMDataInterval => 0x50,
            Command::LowerPowerDetection => 0x51,
            Command::EndVoltageSet => 0x52,
            Command::TCONSet => 0x60,
            Command::ResolutionSet => 0x61,
            Command::GateSourceStartSet => 0x65,
            Command::Revision => 0x70,
            Command::GetStatus => 0x71,
            Command::AutoMeasurementVCOM => 0x80,
            Command::ReadVCOM => 0x81,
            Command::VCOMDCSetting => 0x82,
            Command::PartialWindow => 0x90,
            Command::PartialIn => 0x91,
            Command::PartialOut => 0x92,
            Command::ProgramMode => 0xA0,
            Command::ActiveProgramming => 0xA1,
            Command::ReadOTP => 0xA2,
            Command::CascadeSet => 0xE0,
            Command::PowerSaving => 0xE3,
            Command::LVDVoltageSelect => 0xE4,
            Command::ForceTemperature => 0xE5,
            Command::TempBoundaryPhaseC2 => 0xE7,
        }
    }
}

/// The size of the display.
pub open spec fn display_size() -> Size {
    Size { width: DISPLAY_WIDTH as u32, height: DISPLAY_HEIGHT as u32 }
}

/// The buffer type used by [Epd7in5] for black and white images.
pub type Epd7In5BinaryBuffer = BinaryBuffer<BINARY_BUFFER_LENGTH>;

/// Constructs a new binary buffer for use with the [Epd7in5] display.
pub fn new_binary_buffer() -> (r: Epd7In5BinaryBuffer)
    ensures
        r.wf(),
        r.spec_size() == display_size(),
        r.bytes().len() == BINARY_BUFFER_LENGTH,
        forall|i: int| 0 <= i < r.bytes().len() ==> r.bytes()[i] == 0,
{
    Epd7In5BinaryBuffer::new(Size::new(DISPLAY_WIDTH as u32, DISPLAY_HEIGHT as u32))
}

/// The buffer type used by [Epd7in5] for 2-bit grayscale images.
pub type Epd7In5Gray2Buffer = Gray2SplitBuffer<BINARY_BUFFER_LENGTH>;

/// Constructs a new 2-bit grayscale buffer for use with the [Epd7in5] display.
pub fn new_gray2_buffer() -> (r: Epd7In5Gray2Buffer)
    ensures
        r.low.wf(),
        r.high.wf(),
        r.low.spec_size() == display_size(),
        r.high.spec_size() == display_size(),
        forall|i: int| 0 <= i < r.low.bytes().len() ==> r.low.bytes()[i] == 0,
        forall|i: int| 0 <= i < r.high.bytes().len() ==> r.high.bytes()[i] == 0,
{
    Epd7In5Gray2Buffer::new(Size::new(DISPLAY_WIDTH as u32, DISPLAY_HEIGHT as u32))
}

/// A step that sends `command` with `data`.
pub open spec fn send(command: Command, data: Seq<u8>) -> StepSpec {
    StepSpec::Send(command.spec_register(), data)
}

/// The steps that set up the panel for a refresh mode.
pub open spec fn refresh_mode_steps(mode: RefreshMode) -> Seq<StepSpec> {
    match mode {
        RefreshMode::Full => seq![
            send(Command::PanelSetting, seq![0x1Fu8]),
            send(Command::VCOMDataInterval, seq![0x10u8, 0x07]),
            send(Command::PowerOn, seq![]),
            StepSpec::DelayMs(100),
            StepSpec::WaitIfBusy,
            send(Command::BoosterSoftStart, seq![0x27u8, 0x27, 0x18, 0x17]),
            send(Command::CascadeSet, seq![0x02u8]),
            send(Command::ForceTemperature, seq![0x5Au8]),
        ],
        RefreshMode::FullSlow => seq![
            send(Command::PowerSetting, seq![0x07u8, 0x07, 0x3F, 0x3F]),
            send(Command::BoosterSoftStart, seq![0x17u8, 0x17, 0x28, 0x17]),
            send(Command::PowerOn, seq![]),
            StepSpec::DelayMs(100),
            StepSpec::WaitIfBusy,
            send(Command::ResolutionSet, seq![0x03u8, 0x20, 0x01, 0xE0]),
            send(Command::DualSPI, seq![0x00u8]),
            send(Command::VCOMDataInterval, seq![0x10u8, 0x07]),
            send(Command::TCONSet, seq![0x22u8]),
        ],
        RefreshMode::Partial => seq![
            send(Command::PanelSetting, seq![0x1Fu8]),
            send(Command::PowerOn, seq![]),
            StepSpec::DelayMs(100),
            StepSpec::WaitIfBusy,
            send(Command::CascadeSet, seq![0x02u8]),
            send(Command::ForceTemperature, seq![0x6Eu8]),
        ],
        RefreshMode::Gray2 => seq![
            send(Command::PanelSetting, seq![0x1Fu8]),
            send(Command::VCOMDataInterval, seq![0x10u8, 0x07]),
            send(Command::PowerOn, seq![]),
            StepSpec::DelayMs(100),
            StepSpec::WaitIfBusy,
            send(Command::BoosterSoftStart, seq![0x27u8, 0x27, 0x18, 0x17]),
            send(Command::CascadeSet, seq![0x02u8]),
            send(Command::ForceTemperature, seq![0x5Fu8]),
        ],
    }
}

/// The steps of a hardware reset: pulse the reset pin low, then let the panel start.
pub open spec fn reset_steps() -> Seq<StepSpec> {
    seq![
        StepSpec::SetReset(PinState::Low),
        StepSpec::DelayMs(2),
        StepSpec::SetReset(PinState::High),
        StepSpec::DelayMs(20),
    ]
}

/// The steps that put the panel into deep sleep.
pub open spec fn sleep_steps() -> Seq<StepSpec> {
    seq![
        send(Command::VCOMDataInterval, seq![0xF7u8]),
        send(Command::PowerOff, seq![]),
        send(Command::DeepSleep, seq![0xA5u8]),
    ]
}

/// The steps that refresh the panel from its framebuffer.
pub open spec fn update_steps() -> Seq<StepSpec> {
    seq![send(Command::DisplayRefresh, seq![]), StepSpec::DelayMs(100), StepSpec::WaitIfBusy]
}

/// The steps that write a frame: the data to the old-data buffer and its complement to the
/// new-data buffer.
pub open spec fn write_steps(data: Seq<u8>) -> Seq<StepSpec> {
    seq![send(Command::DisplayStartTrans1, data), send(Command::DisplayStartTrans2, inverted(data))]
}

/// Integer division rounding towards zero, as `/` does on machine integers.
pub open spec fn div_toward_zero(a: int, b: int) -> int {
    if a >= 0 {
        a / b
    } else {
        -((-a) / b)
    }
}

/// The remainder that goes with [div_toward_zero], as `%` gives on machine integers.
pub open spec fn rem_toward_zero(a: int, b: int) -> int {
    a - b * div_toward_zero(a, b)
}

/// The bytes of the partial window command for a window with the given inclusive corners: the
/// high and the low byte of each coordinate, each truncated to a byte, then `0x01`.
pub open spec fn window_bytes(x_start: i32, y_start: i32, x_end: i32, y_end: i32) -> Seq<u8> {
    seq![
        div_toward_zero(x_start as int, 256) as u8,
        rem_toward_zero(x_start as int, 256) as u8,
        div_toward_zero(x_end as int, 256) as u8,
        rem_toward_zero(x_end as int, 256) as u8,
        div_toward_zero(y_start as int, 256) as u8,
        rem_toward_zero(y_start as int, 256) as u8,
        div_toward_zero(y_end as int, 256) as u8,
        rem_toward_zero(y_end as int, 256) as u8,
        0x01u8,
    ]
}

/// The steps that write the base frame of a partial update through the window `window`.
pub open spec fn write_base_steps(window: Rectangle, data: Seq<u8>) -> Seq<StepSpec> {
    let x_end = window.top_left.x + window.size.width - 1;
    let y_end = window.top_left.y + window.size.height - 1;
    seq![
        send(Command::VCOMDataInterval, seq![0xA9u8, 0x07]),
        send(Command::PartialIn, seq![]),
        send(
            Command::PartialWindow,
            window_bytes(window.top_left.x, window.top_left.y, x_end as i32, y_end as i32),
        ),
        send(Command::DisplayStartTrans2, data),
    ]
}

/// The bytes that each refresh mode sends to set the panel up, as the panel's datasheet gives
/// them: register, then data.
pub proof fn lemma_refresh_mode_steps_bytes(mode: RefreshMode)
    ensures
        refresh_mode_steps(mode) =~~= match mode {
            RefreshMode::Full => seq![
                StepSpec::Send(0x00, seq![0x1Fu8]),
                StepSpec::Send(0x50, seq![0x10u8, 0x07]),
                StepSpec::Send(0x04, Seq::<u8>::empty()),
                StepSpec::DelayMs(100),
                StepSpec::WaitIfBusy,
                StepSpec::Send(0x06, seq![0x27u8, 0x27, 0x18, 0x17]),
                StepSpec::Send(0xE0, seq![0x02u8]),
                StepSpec::Send(0xE5, seq![0x5Au8]),
            ],
            RefreshMode::FullSlow => seq![
                StepSpec::Send(0x01, seq![0x07u8, 0x07, 0x3F, 0x3F]),
                StepSpec::Send(0x06, seq![0x17u8, 0x17, 0x28, 0x17]),
                StepSpec::Send(0x04, Seq::<u8>::empty()),
                StepSpec::DelayMs(100),
                StepSpec::WaitIfBusy,
                StepSpec::Send(0x61, seq![0x03u8, 0x20, 0x01, 0xE0]),
                StepSpec::Send(0x15, seq![0x00u8]),
                StepSpec::Send(0x50, seq![0x10u8, 0x07]),
                StepSpec::Send(0x60, seq![0x22u8]),
            ],
            RefreshMode::Partial => seq![
                StepSpec::Send(0x00, seq![0x1Fu8]),
                StepSpec::Send(0x04, Seq::<u8>::empty()),
                StepSpec::DelayMs(100),
                StepSpec::WaitIfBusy,
                StepSpec::Send(0xE0, seq![0x02u8]),
                StepSpec::Send(0xE5, seq![0x6Eu8]),
            ],
            RefreshMode::Gray2 => seq![
                StepSpec::Send(0x00, seq![0x1Fu8]),
                StepSpec::Send(0x50, seq![0x10u8, 0x07]),
                StepSpec::Send(0x04, Seq::<u8>::empty()),
                StepSpec::DelayMs(100),
                StepSpec::WaitIfBusy,
                StepSpec::Send(0x06, seq![0x27u8, 0x27, 0x18, 0x17]),
                StepSpec::Send(0xE0, seq![0x02u8]),
                StepSpec::Send(0xE5, seq![0x5Fu8]),
            ],
        },
{
}

/// Every refresh mode powers the panel on, then gives it 100 ms and waits while it is busy.
pub proof fn lemma_refresh_mode_powers_on(mode: RefreshMode)
    ensures
        exists|i: int|
            0 <= i && i + 2 < refresh_mode_steps(mode).len() && #[trigger] refresh_mode_steps(mode)[i]
                =~~= StepSpec::Send(0x04, Seq::<u8>::empty()) && refresh_mode_steps(mode)[i + 1]
                == StepSpec::DelayMs(100) && refresh_mode_steps(mode)[i + 2] == StepSpec::WaitIfBusy,
{
    lemma_refresh_mode_steps_bytes(mode);
    let i: int = match mode {
        RefreshMode::Full => 2,
        RefreshMode::FullSlow => 2,
        RefreshMode::Partial => 1,
        RefreshMode::Gray2 => 2,
    };
    assert(refresh_mode_steps(mode)[i] =~~= StepSpec::Send(0x04, Seq::<u8>::empty()));
}

/// A mode that shows grey levels selects its waveform last, with temperature setting `0x5F`;
/// the black and white modes select another one.
pub proof fn lemma_refresh_mode_waveform(mode: RefreshMode)
    ensures
        refresh_mode_steps(mode).len() > 0,
        mode == RefreshMode::Gray2 <==> (refresh_mode_steps(mode).last() matches StepSpec::Send(
            command,
            data,
        ) && command == 0xE5 && data.len() == 1 && data[0] == 0x5F),
{
    lemma_refresh_mode_steps_bytes(mode);
}

/// A hardware reset pulses the reset pin low for 2 ms, then waits 20 ms for the panel.
pub proof fn lemma_reset_steps_bytes()
    ensures
        reset_steps() =~~= seq![
            StepSpec::SetReset(PinState::Low),
            StepSpec::DelayMs(2),
            StepSpec::SetReset(PinState::High),
            StepSpec::DelayMs(20),
        ],
{
}

/// Deep sleep: VCOM interval `0xF7`, power off, then deep sleep with check code `0xA5`.
pub proof fn lemma_sleep_steps_bytes()
    ensures
        sleep_steps() =~~= seq![
            StepSpec::Send(0x50, seq![0xF7u8]),
            StepSpec::Send(0x02, Seq::<u8>::empty()),
            StepSpec::Send(0x07, seq![0xA5u8]),
        ],
{
}

/// A refresh sends the display refresh command, gives the panel 100 ms and waits while it is
/// busy.
pub proof fn lemma_update_steps_bytes()
    ensures
        update_steps() =~~= seq![
            StepSpec::Send(0x12, Seq::<u8>::empty()),
            StepSpec::DelayMs(100),
            StepSpec::WaitIfBusy,
        ],
{
}

/// Writing a frame sends the data to the old-data buffer (`0x10`) and, to the new-data buffer
/// (`0x13`), bytes that are each the complement of the matching data byte.
pub proof fn lemma_write_steps_complement(data: Seq<u8>)
    ensures
        write_steps(data).len() == 2,
        write_steps(data)[0] =~~= StepSpec::Send(0x10, data),
        write_steps(data)[1] matches StepSpec::Send(command, frame) && command == 0x13
            && frame.len() == data.len() && forall|i: int|
            0 <= i < data.len() ==> #[trigger] (frame[i] ^ data[i]) == 0xFF,
{
    crate::hw::lemma_inverted_complements(data);
}

/// The partial window bytes give each corner coordinate, high byte first, inclusive of both
/// ends, followed by `0x01`.
pub proof fn lemma_window_bytes_decode(x_start: i32, y_start: i32, x_end: i32, y_end: i32)
    requires
        0 <= x_start <= x_end < 0x10000,
        0 <= y_start <= y_end < 0x10000,
    ensures
        window_bytes(x_start, y_start, x_end, y_end).len() == 9,
        window_bytes(x_start, y_start, x_end, y_end)[0] * 256 + window_bytes(x_start, y_start, x_end, y_end)[1] == x_start,
        window_bytes(x_start, y_start, x_end, y_end)[2] * 256 + window_bytes(x_start, y_start, x_end, y_end)[3] == x_end,
        window_bytes(x_start, y_start, x_end, y_end)[4] * 256 + window_bytes(x_start, y_start, x_end, y_end)[5] == y_start,
        window_bytes(x_start, y_start, x_end, y_end)[6] * 256 + window_bytes(x_start, y_start, x_end, y_end)[7] == y_end,
        window_bytes(x_start, y_start, x_end, y_end)[8] == 0x01,
{
    lemma_byte_pair(x_start as int);
    lemma_byte_pair(x_end as int);
    lemma_byte_pair(y_start as int);
    lemma_byte_pair(y_end as int);
}

/// A coordinate below `0x10000` is its high byte times 256 plus its low byte.
proof fn lemma_byte_pair(a: int)
    requires
        0 <= a < 0x10000,
    ensures
        (div_toward_zero(a, 256) as u8) * 256 + (rem_toward_zero(a, 256) as u8) == a,
{
    assert(0 <= a / 256 < 256 && a == 256 * (a / 256) + a % 256) by (nonlinear_arith)
        requires
            0 <= a < 0x10000,
    ;
}

/// The partial update writes VCOM interval `0xA9 0x07`, enters partial mode, sets the window
/// to the buffer's window and writes the frame to the new-data buffer.
pub proof fn lemma_write_base_steps_bytes(window: Rectangle, data: Seq<u8>)
    ensures
        write_base_steps(window, data).len() == 4,
        write_base_steps(window, data)[0] =~~= StepSpec::Send(0x50, seq![0xA9u8, 0x07]),
        write_base_steps(window, data)[1] =~~= StepSpec::Send(0x91, Seq::<u8>::empty()),
        write_base_steps(window, data)[2] matches StepSpec::Send(command, _) && command == 0x90,
        write_base_steps(window, data)[3] =~~= StepSpec::Send(0x13, data),
{
}

/// Builds the steps that set up the panel for a refresh mode.
fn refresh_mode_plan(mode: RefreshMode) -> (r: Vec<Step>)
    ensures
        r.deep_view() == refresh_mode_steps(mode),
{
    let steps: Vec<Step> = match mode {
        RefreshMode::Full => vec![
            // PANEL SETTING
            send_step(Command::PanelSetting.register(), &[0x1F]),
            // VCOM DATA INTERVAL
            send_step(Command::VCOMDataInterval.register(), &[0x10, 0x07]),
            // POWER ON
            send_step(Command::PowerOn.register(), &[]),
            Step::DelayMs(100),
            Step::WaitIfBusy,
            // BOOSTER + Cascade + Force Temp
            send_step(Command::BoosterSoftStart.register(), &[0x27, 0x27, 0x18, 0x17]),
            send_step(Command::CascadeSet.register(), &[0x02]),
            send_step(Command::ForceTemperature.register(), &[0x5A]),
        ],
        RefreshMode::FullSlow => vec![
            // POWER SETTING
            send_step(Command::PowerSetting.register(), &[0x07, 0x07, 0x3F, 0x3F]),
            // BOOSTER SOFT START
            send_step(Command::BoosterSoftStart.register(), &[0x17, 0x17, 0x28, 0x17]),
            // POWER ON
            send_step(Command::PowerOn.register(), &[]),
            Step::DelayMs(100),
            Step::WaitIfBusy,
            // RESOLUTION SETTING (TRES)
            send_step(Command::ResolutionSet.register(), &[0x03, 0x20, 0x01, 0xE0]),
            // DUAL SPI
            send_step(Command::DualSPI.register(), &[0x00]),
            // VCOM DATA INTERVAL
            send_step(Command::VCOMDataInterval.register(), &[0x10, 0x07]),
            // TCON SETTING
            send_step(Command::TCONSet.register(), &[0x22]),
        ],
        RefreshMode::Partial => vec![
            // PANEL SETTING
            send_step(Command::PanelSetting.register(), &[0x1F]),
            // POWER ON
            send_step(Command::PowerOn.register(), &[]),
            Step::DelayMs(100),
            Step::WaitIfBusy,
            // Cascade + Force Temp
            send_step(Command::CascadeSet.register(), &[0x02]),
            send_step(Command::ForceTemperature.register(), &[0x6E]),
        ],
        RefreshMode::Gray2 => vec![
            // PANEL SETTING
            send_step(Command::PanelSetting.register(), &[0x1F]),
            // VCOM DATA INTERVAL
            send_step(Command::VCOMDataInterval.register(), &[0x10, 0x07]),
            // POWER ON
            send_step(Command::PowerOn.register(), &[]),
            Step::DelayMs(100),
            Step::WaitIfBusy,
            // BOOSTER + Cascade + Force Temp
            send_step(Command::BoosterSoftStart.register(), &[0x27, 0x27, 0x18, 0x17]),
            send_step(Command::CascadeSet.register(), &[0x02]),
            send_step(Command::ForceTemperature.register(), &[0x5F]),
        ],
    };
    assert(steps.deep_view() =~~= refresh_mode_steps(mode));
    steps
}

/// Builds the steps of a hardware reset.
fn reset_plan() -> (r: Vec<Step>)
    ensures
        r.deep_view() == reset_steps(),
{
    // Assume reset is already high.
    let steps: Vec<Step> = vec![
        Step::SetReset(PinState::Low),
        Step::DelayMs(2),
        Step::SetReset(PinState::High),
        Step::DelayMs(20),
    ];
    assert(steps.deep_view() =~~= reset_steps());
    steps
}

/// Builds the steps that refresh the panel.
fn update_plan() -> (r: Vec<Step>)
    ensures
        r.deep_view() == update_steps(),
{
    let steps: Vec<Step> = vec![
        send_step(Command::DisplayRefresh.register(), &[]),
        Step::DelayMs(100),
        Step::WaitIfBusy,
    ];
    assert(steps.deep_view() =~~= update_steps());
    steps
}

/// Builds the steps that write a frame.
fn write_plan(data: &[u8]) -> (r: Vec<Step>)
    ensures
        r.deep_view() == write_steps(data@),
{
    let inverse = invert_bytes(data);
    let steps: Vec<Step> = vec![
        send_step(Command::DisplayStartTrans1.register(), data),
        send_step(Command::DisplayStartTrans2.register(), inverse.as_slice()),
    ];
    assert(steps.deep_view() =~~= write_steps(data@));
    steps
}

trait StateInternal {}

/// The state of the display, as tracked by the type of [Epd7in5].
#[allow(private_bounds)]
pub trait State: StateInternal {}

/// States in which the display is awake.
pub trait StateAwake: State {}

/// The display has not been initialised yet.
#[derive(Debug, Clone, Copy, PartialEq)]
pub struct StateUninitialized();

impl StateInternal for StateUninitialized {}

impl State for StateUninitialized {}

impl StateAwake for StateUninitialized {}

/// The display is initialised in a refresh mode.
#[derive(Debug, Clone, Copy, PartialEq)]
pub struct StateReady {
    mode: RefreshMode,
}

impl StateInternal for StateReady {}

impl State for StateReady {}

impl StateAwake for StateReady {}

impl StateReady {
    /// The refresh mode the display is set up for.
    pub closed spec fn spec_mode(&self) -> RefreshMode {
        self.mode
    }

    /// Returns the refresh mode the display is set up for.
    pub fn mode(&self) -> (r: RefreshMode)
        ensures
            r == self.spec_mode(),
    {
        self.mode
    }
}

/// The display is asleep, and wakes into the state `W`.
#[derive(Debug, Clone, Copy, PartialEq)]
pub struct StateAsleep<W: StateAwake> {
    wake_state: W,
}

impl<W: StateAwake> StateInternal for StateAsleep<W> {}

impl<W: StateAwake> State for StateAsleep<W> {}

impl<W: StateAwake> StateAsleep<W> {
    /// The state the display wakes into.
    pub closed spec fn spec_wake_state(&self) -> W {
        self.wake_state
    }
}

/// Controls v2 of the 7.5" Waveshare e-paper display.
///
/// The display has a portrait orientation. This display supports either [BinaryColor] or
/// [Gray2] depending on the display mode. When using `BinaryColor`, `Off` is black and `On`
/// is white.
///
/// [BinaryColor]: crate::geometry::BinaryColor
/// [Gray2]: crate::geometry::Gray2
pub struct Epd7in5<HW, STATE> {
    hw: HW,
    state: STATE,
}

impl<HW, STATE> Epd7in5<HW, STATE> {
    /// The hardware that drives the display.
    pub closed spec fn spec_hw(&self) -> HW {
        self.hw
    }

    /// The state of the display.
    pub closed spec fn spec_state(&self) -> STATE {
        self.state
    }

    /// Gives access to the hardware, to carry out planned steps.
    pub fn hw_mut(&mut self) -> (r: &mut HW)
        ensures
            *r == old(self).spec_hw(),
            final(self).spec_hw() == *final(r),
            final(self).spec_state() == old(self).spec_state(),
    {
        &mut self.hw
    }

    /// Returns the state of the display.
    pub fn state(&self) -> (r: &STATE)
        ensures
            *r == self.spec_state(),
    {
        &self.state
    }
}

impl<HW> Epd7in5<HW, StateUninitialized> {
    /// Creates a driver for the display on `hw`; the display still needs to be initialised.
    pub fn new(hw: HW) -> (r: Self)
        ensures
            r.spec_hw() == hw,
            r.spec_state() == StateUninitialized(),
    {
        Epd7in5 { hw, state: StateUninitialized() }
    }
}

impl<HW, STATE: StateAwake> Epd7in5<HW, STATE> {
    /// Initialises the display: resets it and sets it up for `mode`.
    pub fn init(self, mode: RefreshMode) -> (r: (Epd7in5<HW, StateReady>, Vec<Step>))
        ensures
            r.0.spec_hw() == self.spec_hw(),
            r.0.spec_state().spec_mode() == mode,
            r.1.deep_view() == reset_steps() + refresh_mode_steps(mode),
    {
        let mut steps = reset_plan();
        append_steps(&mut steps, refresh_mode_plan(mode));
        (Epd7in5 { hw: self.hw, state: StateReady { mode } }, steps)
    }
}

impl<HW, STATE: StateAwake> Epd7in5<HW, STATE> {
    /// Sends `command` with `data` to the display. The display is waited on first if it is
    /// busy.
    pub fn send(&mut self, command: Command, data: &[u8]) -> (r: Vec<Step>)
        ensures
            *final(self) == *old(self),
            r.deep_view() == seq![send(command, data@)],
    {
        let steps: Vec<Step> = vec![send_step(command.register(), data)];
        assert(steps.deep_view() =~~= seq![send(command, data@)]);
        steps
    }
}

impl<HW> Epd7in5<HW, StateReady> {
    /// Plans a change of refresh mode. Nothing is sent when the display is already in `mode`;
    /// otherwise the steps set the display up for `mode`. The recorded mode is left as it is:
    /// once the steps have all been carried out, [Self::record_refresh_mode] records the new one.
    pub fn set_refresh_mode(&mut self, mode: RefreshMode) -> (r: Vec<Step>)
        ensures
            *final(self) == *old(self),
            r.deep_view() == (if old(self).spec_state().spec_mode() == mode {
                Seq::<StepSpec>::empty()
            } else {
                refresh_mode_steps(mode)
            }),
    {
        if self.state.mode == mode {
            let steps: Vec<Step> = Vec::new();
            assert(steps.deep_view() =~= Seq::<StepSpec>::empty());
            steps
        } else {
            refresh_mode_plan(mode)
        }
    }

    /// Records that the display is now set up for `mode`, once the steps planned by
    /// [Self::set_refresh_mode] have all been carried out.
    pub fn record_refresh_mode(&mut self, mode: RefreshMode)
        ensures
            final(self).spec_hw() == old(self).spec_hw(),
            final(self).spec_state().spec_mode() == mode,
    {
        self.state.mode = mode;
    }
}

/// The bytes of the partial window command for the window `window`.
fn window_plan(window: &Rectangle) -> (r: Vec<u8>)
    requires
        !window.is_empty(),
        window.fits(),
    ensures
        r@ == window_bytes(
            window.top_left.x,
            window.top_left.y,
            (window.top_left.x + window.size.width - 1) as i32,
            (window.top_left.y + window.size.height - 1) as i32,
        ),
{
    let x_start: i32 = window.top_left.x;
    let y_start: i32 = window.top_left.y;
    let bottom_right = window.bottom_right();
    let (x_end, y_end) = match bottom_right {
        Some(p) => (p.x, p.y),
        None => (x_start, y_start),
    };
    let bytes: Vec<u8> = vec![
        (x_start / 256) as u8,
        (x_start % 256) as u8,
        (x_end / 256) as u8,
        (x_end % 256) as u8,
        (y_start / 256) as u8,
        (y_start % 256) as u8,
        (y_end / 256) as u8,
        (y_end % 256) as u8,
        0x01,
    ];
    assert(bytes@ =~= window_bytes(x_start, y_start, x_end, y_end));
    bytes
}

impl<HW, W: StateAwake> Reset for Epd7in5<HW, W> {
    type DisplayOut = Epd7in5<HW, W>;

    fn reset(self) -> (r: (Epd7in5<HW, W>, Vec<Step>))
        ensures
            r.0 == self,
            r.1.deep_view() == reset_steps(),
    {
        (self, reset_plan())
    }
}

impl<HW, W: StateAwake> Reset for Epd7in5<HW, StateAsleep<W>> {
    type DisplayOut = Epd7in5<HW, W>;

    fn reset(self) -> (r: (Epd7in5<HW, W>, Vec<Step>))
        ensures
            r.0.spec_hw() == self.spec_hw(),
            r.0.spec_state() == self.spec_state().spec_wake_state(),
            r.1.deep_view() == reset_steps(),
    {
        (Epd7in5 { hw: self.hw, state: self.state.wake_state }, reset_plan())
    }
}

impl<HW, W: StateAwake> Sleep for Epd7in5<HW, W> {
    type DisplayOut = Epd7in5<HW, StateAsleep<W>>;

    fn sleep(self) -> (r: (Epd7in5<HW, StateAsleep<W>>, Vec<Step>))
        ensures
            r.0.spec_hw() == self.spec_hw(),
            r.0.spec_state().spec_wake_state() == self.spec_state(),
            r.1.deep_view() == sleep_steps(),
    {
        let steps: Vec<Step> = vec![
            send_step(Command::VCOMDataInterval.register(), &[0xF7]),
            send_step(Command::PowerOff.register(), &[]),
            send_step(Command::DeepSleep.register(), &[0xA5]),
        ];
        assert(steps.deep_view() =~~= sleep_steps());
        (Epd7in5 { hw: self.hw, state: StateAsleep { wake_state: self.state } }, steps)
    }
}

impl<HW, W: StateAwake> Wake for Epd7in5<HW, StateAsleep<W>> {
    type DisplayOut = Epd7in5<HW, W>;

    fn wake(self) -> (r: (Epd7in5<HW, W>, Vec<Step>))
        ensures
            r.0.spec_hw() == self.spec_hw(),
            r.0.spec_state() == self.spec_state().spec_wake_state(),
            r.1.deep_view() == reset_steps(),
    {
        (Epd7in5 { hw: self.hw, state: self.state.wake_state }, reset_plan())
    }
}

impl<HW> Displayable for Epd7in5<HW, StateReady> {
    fn update_display(&mut self) -> (r: Vec<Step>)
        ensures
            *final(self) == *old(self),
            r.deep_view() == update_steps(),
    {
        update_plan()
    }
}

impl<HW> DisplaySimple<1, 1> for Epd7in5<HW, StateReady> {
    fn write_framebuffer<V: BufferView<1, 1>>(&mut self, buf: &V) -> (r: Vec<Step>)
        ensures
            *final(self) == *old(self),
            r.deep_view() == write_steps(buf.frame(0)),
    {
        let frames = buf.data();
        let frame: &[u8] = frames[0];
        assert(frame_bytes(frames@[0]) == buf.frame(0));
        write_plan(frame)
    }

    fn display_framebuffer<V: BufferView<1, 1>>(&mut self, buf: &V) -> (r: Vec<Step>)
        ensures
            *final(self) == *old(self),
            r.deep_view() == write_steps(buf.frame(0)) + update_steps(),
    {
        let mut steps = self.write_framebuffer(buf);
        append_steps(&mut steps, self.update_display());
        steps
    }
}

impl<HW> DisplayPartial<1, 1> for Epd7in5<HW, StateReady> {
    fn write_base_framebuffer<V: BufferView<1, 1>>(&mut self, buf: &V) -> (r: Vec<Step>)
        ensures
            *final(self) == *old(self),
            r.deep_view() == write_base_steps(buf.spec_window(), buf.frame(0)),
    {
        let buffer_bounds = buf.window();
        let frames = buf.data();
        let frame: &[u8] = frames[0];
        assert(frame_bytes(frames@[0]) == buf.frame(0));
        let window = window_plan(&buffer_bounds);
        let steps: Vec<Step> = vec![
            send_step(Command::VCOMDataInterval.register(), &[0xA9, 0x07]),
            send_step(Command::PartialIn.register(), &[]),
            send_step(Command::PartialWindow.register(), window.as_slice()),
            send_step(Command::DisplayStartTrans2.register(), frame),
        ];
        assert(steps.deep_view() =~~= write_base_steps(buf.spec_window(), buf.frame(0)));
        steps
    }
}

} // verus!
