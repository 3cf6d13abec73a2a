//! The 7.3" Waveshare Spectra 6 e-paper display (800 x 480, six colours).
use crate::buffer::{frame_bytes, BufferView};
use crate::display::{Clear, DisplaySimple, Displayable, Reset, Sleep};
use crate::geometry::PinState;
use crate::hw::{append_steps, send_step, Step, StepSpec};
use vstd::prelude::*;

verus! {

/// The refresh mode for the display.
#[derive(Debug, Clone, Copy, PartialEq, Eq, Structural)]
pub enum RefreshMode {
    /// A slow full update that gives a clean final image. This is the only supported refresh
    /// mode right now.
    Full,
}

/// The width of the display (landscape orientation).
pub const DISPLAY_WIDTH: u32 = 800;

/// The height of the display (landscape orientation).
pub const DISPLAY_HEIGHT: u32 = 480;

/// The recommended SPI clock, 4 MHz.
pub const RECOMMENDED_SPI_HZ: u32 = 4_000_000;

/// The default pin state that indicates the display is busy.
pub const DEFAULT_BUSY_WHEN: PinState = PinState::Low;

/// The number of bytes of a full frame: the panel takes four bits per pixel, two pixels to a
/// byte.
pub const HEX_BUFFER_LENGTH: usize = 192_000;

/// Low-level commands for the display. You probably want to use the other methods exposed on
/// the [Epd7In3E] for most operations, but can send commands directly for low-level control or
/// experimentation.
#[derive(Debug, Clone, Copy, PartialEq, Eq, Structural)]
pub enum Command {
    PanelSet,
    PowerSet,
    PowerOff,
    PowerOffSequenceSet,
    PowerOn,
    Ox05,
    BoosterSoftStart,
    DeepSleep,
    Ox08,
    DataStartTrans1,
    DataStop,
    DisplayRefresh,
    ImageProcessCommand,
    PLLControl,
    TempSensorCalibration,
    TempSensorSelect,
    TempSensorWrite,
    TempeSensorRead,
    VCOMDataInterval,
    LowerPowerDetection,
    TCONSet,
    TCONResolution,
    SPIFlashControl,
    Revision,
    GetStatus,
    AutoMeasurementVCOM,
    ReadVCOM,
    VCOMDCSetting,
    Ox84,
    CMDH,
    PowerSaving,
}

impl Command {
    /// The register address of the command.
    pub open spec fn spec_register(self) -> u8 {
        match self {
            Command::PanelSet => 0x00,
            Command::PowerSet => 0x01,
            Command::PowerOff => 0x02,
            Command::PowerOffSequenceSet => 0x03,
            Command::PowerOn => 0x04,
            Command::Ox05 => 0x05,
            Command::BoosterSoftStart => 0x06,
            Command::DeepSleep => 0x07,
            Command::Ox08 => 0x08,
            Command::DataStartTrans1 => 0x10,
            Command::DataStop => 0x11,
            Command::DisplayRefresh => 0x12,
            Command::ImageProcessCommand => 0x13,
            Command::PLLControl => 0x30,
            Command::TempSensorCalibration => 0x40,
            Command::TempSensorSelect => 0x41,
            Command::TempSensorWrite => 0x42,
            Command::TempeSensorRead => 0x43,
            Command::VCOMDataInterval => 0x50,
            Command::LowerPowerDetection => 0x51,
            Command::TCONSet => 0x60,
            Command::TCONResolution => 0x61,
            Command::SPIFlashControl => 0x65,
            Command::Revision => 0x70,
            Command::GetStatus => 0x71,
            Command::AutoMeasurementVCOM => 0x80,
            Command::ReadVCOM => 0x81,
            Command::VCOMDCSetting => 0x82,
            Command::Ox84 => 0x84,
            Command::CMDH => 0xAA,
            Command::PowerSaving => 0xE3,
        }
    }

    /// Returns the register address for this command.
    pub fn register(&self) -> (r: u8)
        ensures
            r == self.spec_register(),
    {
        match self {
            Command::PanelSet => 0x00,
            Command::PowerSet => 0x01,
            Command::PowerOff => 0x02,
            Command::PowerOffSequenceSet => 0x03,
            Command::PowerOn => 0x04,
            Command::Ox05 => 0x05,
            Command::BoosterSoftStart => 0x06,
            Command::DeepSleep => 0x07,
            Command::Ox08 => 0x08,
            Command::DataStartTrans1 => 0x10,
            Command::DataStop => 0x11,
            Command::DisplayRefresh => 0x12,
            Command::ImageProcessCommand => 0x13,
            Command::PLLControl => 0x30,
            Command::TempSensorCalibration => 0x40,
            Command::TempSensorSelect => 0x41,
            Command::TempSensorWrite => 0x42,
            Command::TempeSensorRead => 0x43,
            Command::VCOMDataInterval => 0x50,
            Command::LowerPowerDetection => 0x51,
            Command::TCONSet => 0x60,
            Command::TCONResolution => 0x61,
            Command::SPIFlashControl => 0x65,
            Command::Revision => 0x70,
            Command::GetStatus => 0x71,
            Command::AutoMeasurementVCOM => 0x80,
            Command::ReadVCOM => 0x81,
            Command::VCOMDCSetting => 0x82,
            Command::Ox84 => 0x84,
            Command::CMDH => 0xAA,
            Command::PowerSaving => 0xE3,
        }
    }
}

/// A step that sends `command` with `data`.
pub open spec fn send(command: Command, data: Seq<u8>) -> StepSpec {
    StepSpec::Send(command.spec_register(), data)
}

/// The steps that set up the panel for a refresh mode.
pub open spec fn refresh_mode_steps(mode: RefreshMode) -> Seq<StepSpec> {
    match mode {
        RefreshMode::Full => seq![
            send(Command::CMDH, seq![0x49u8, 0x55, 0x20, 0x08, 0x09, 0x18]),
            send(Command::PowerSet, seq![0x3Fu8]),
            send(Command::PanelSet, seq![0x5Fu8, 0x69]),
            send(Command::PowerOffSequenceSet, seq![0x00u8, 0x54, 0x00, 0x44]),
            send(Command::Ox05, seq![0x40u8, 0x1F, 0x1F, 0x2C]),
            send(Command::BoosterSoftStart, seq![0x6Fu8, 0x1F, 0x17, 0x49]),
            send(Command::Ox08, seq![0x6Fu8, 0x1F, 0x1F, 0x22]),
            send(Command::PLLControl, seq![0x03u8]),
            send(Command::VCOMDataInterval, seq![0x3Fu8]),
            send(Command::TCONSet, seq![0x02u8, 0x00]),
            send(Command::TCONResolution, seq![0x03u8, 0x20, 0x01, 0xE0]),
            send(Command::Ox84, seq![0x01u8]),
            send(Command::PowerSaving, seq![0x2Fu8]),
        ],
    }
}

/// The steps of a hardware reset: drive the reset pin high, pulse it low, then let the panel
/// start.
pub open spec fn reset_steps() -> Seq<StepSpec> {
    seq![
        StepSpec::SetReset(PinState::High),
        StepSpec::DelayMs(20),
        StepSpec::SetReset(PinState::Low),
        StepSpec::DelayMs(2),
        StepSpec::SetReset(PinState::High),
        StepSpec::DelayMs(200),
    ]
}

/// The steps that wait for the panel to settle after a reset.
pub open spec fn settle_steps() -> Seq<StepSpec> {
    seq![StepSpec::WaitIfBusy, StepSpec::DelayMs(30)]
}

/// The steps that refresh the panel from its framebuffer.
pub open spec fn update_steps() -> Seq<StepSpec> {
    seq![send(Command::DisplayRefresh, seq![0x00u8]), StepSpec::WaitIfBusy]
}

/// The steps that fill the framebuffer with white.
pub open spec fn clear_steps() -> Seq<StepSpec> {
    seq![
        StepSpec::SendRepeated(Command::DataStartTrans1.spec_register(), 0xFF, HEX_BUFFER_LENGTH as nat),
    ]
}

/// The steps that put the panel into deep sleep.
pub open spec fn sleep_steps() -> Seq<StepSpec> {
    seq![send(Command::DeepSleep, seq![0xA5u8])]
}

/// The steps of initialisation: reset, settle, set up the mode and power on.
pub open spec fn init_steps(mode: RefreshMode) -> Seq<StepSpec> {
    reset_steps() + settle_steps() + refresh_mode_steps(mode) + seq![send(Command::PowerOn, seq![])]
}

/// The bytes that set the panel up for full refresh, as the panel's reference driver gives
/// them: register, then data. Among them the resolution, `0x61`, is 800 x 480.
pub proof fn lemma_refresh_mode_steps_bytes(mode: RefreshMode)
    ensures
        refresh_mode_steps(mode) =~~= seq![
            StepSpec::Send(0xAA, seq![0x49u8, 0x55, 0x20, 0x08, 0x09, 0x18]),
            StepSpec::Send(0x01, seq![0x3Fu8]),
            StepSpec::Send(0x00, seq![0x5Fu8, 0x69]),
            StepSpec::Send(0x03, seq![0x00u8, 0x54, 0x00, 0x44]),
            StepSpec::Send(0x05, seq![0x40u8, 0x1F, 0x1F, 0x2C]),
            StepSpec::Send(0x06, seq![0x6Fu8, 0x1F, 0x17, 0x49]),
            StepSpec::Send(0x08, seq![0x6Fu8, 0x1F, 0x1F, 0x22]),
            StepSpec::Send(0x30, seq![0x03u8]),
            StepSpec::Send(0x50, seq![0x3Fu8]),
            StepSpec::Send(0x60, seq![0x02u8, 0x00]),
            StepSpec::Send(0x61, seq![0x03u8, 0x20, 0x01, 0xE0]),
            StepSpec::Send(0x84, seq![0x01u8]),
            StepSpec::Send(0xE3, seq![0x2Fu8]),
        ],
{
}

/// Initialisation drives the reset pin high for 20 ms, low for 2 ms, high again for 200 ms,
/// waits while the panel is busy and 30 ms more, sets the mode up and ends by powering the
/// panel on.
pub proof fn lemma_init_steps_bytes(mode: RefreshMode)
    ensures
        init_steps(mode).len() == 22,
        init_steps(mode).subrange(0, 8) =~~= seq![
            StepSpec::SetReset(PinState::High),
            StepSpec::DelayMs(20),
            StepSpec::SetReset(PinState::Low),
            StepSpec::DelayMs(2),
            StepSpec::SetReset(PinState::High),
            StepSpec::DelayMs(200),
            StepSpec::WaitIfBusy,
            StepSpec::DelayMs(30),
        ],
        init_steps(mode).subrange(8, 21) =~~= refresh_mode_steps(mode),
        init_steps(mode)[21] =~~= StepSpec::Send(0x04, Seq::<u8>::empty()),
{
    lemma_refresh_mode_steps_bytes(mode);
    assert(init_steps(mode).subrange(8, 21) =~~= refresh_mode_steps(mode));
}

/// A change of mode resets the panel, lets it settle and sets the new mode up.
pub proof fn lemma_mode_change_steps_bytes(mode: RefreshMode)
    ensures
        reset_steps() + settle_steps() =~~= seq![
            StepSpec::SetReset(PinState::High),
            StepSpec::DelayMs(20),
            StepSpec::SetReset(PinState::Low),
            StepSpec::DelayMs(2),
            StepSpec::SetReset(PinState::High),
            StepSpec::DelayMs(200),
            StepSpec::WaitIfBusy,
            StepSpec::DelayMs(30),
        ],
{
}

/// A refresh sends the display refresh command with data `0x00`, then waits while the panel
/// is busy.
pub proof fn lemma_update_steps_bytes()
    ensures
        update_steps() =~~= seq![StepSpec::Send(0x12, seq![0x00u8]), StepSpec::WaitIfBusy],
{
}

/// Clearing writes `0xFF` (white) for every byte of the frame to the data buffer, `0x10`.
pub proof fn lemma_clear_steps_bytes()
    ensures
        clear_steps() =~~= seq![StepSpec::SendRepeated(0x10, 0xFF, 192_000)],
        HEX_BUFFER_LENGTH == 800 * 480 / 2,
{
}

/// Deep sleep sends the deep sleep command with check code `0xA5`.
pub proof fn lemma_sleep_steps_bytes()
    ensures
        sleep_steps() =~~= seq![StepSpec::Send(0x07, seq![0xA5u8])],
{
}

/// Builds the steps that set up the panel for a refresh mode.
fn refresh_mode_plan(mode: RefreshMode) -> (r: Vec<Step>)
    ensures
        r.deep_view() == refresh_mode_steps(mode),
{
    let steps: Vec<Step> = match mode {
        RefreshMode::Full => vec![
            send_step(Command::CMDH.register(), &[0x49, 0x55, 0x20, 0x08, 0x09, 0x18]),
            send_step(Command::PowerSet.register(), &[0x3F]),
            send_step(Command::PanelSet.register(), &[0x5F, 0x69]),
            send_step(Command::PowerOffSequenceSet.register(), &[0x00, 0x54, 0x00, 0x44]),
            send_step(Command::Ox05.register(), &[0x40, 0x1F, 0x1F, 0x2C]),
            send_step(Command::BoosterSoftStart.register(), &[0x6F, 0x1F, 0x17, 0x49]),
            send_step(Command::Ox08.register(), &[0x6F, 0x1F, 0x1F, 0x22]),
            send_step(Command::PLLControl.register(), &[0x03]),
            send_step(Command::VCOMDataInterval.register(), &[0x3F]),
            send_step(Command::TCONSet.register(), &[0x02, 0x00]),
            send_step(Command::TCONResolution.register(), &[0x03, 0x20, 0x01, 0xE0]),
            send_step(Command::Ox84.register(), &[0x01]),
            send_step(Command::PowerSaving.register(), &[0x2F]),
        ],
    };
    assert(steps.deep_view() =~~= refresh_mode_steps(mode));
    steps
}

/// Builds the steps of a hardware reset.
fn reset_plan() -> (r: Vec<Step>)
    ensures
        r.deep_view() == reset_steps(),
{
    let steps: Vec<Step> = vec![
        Step::SetReset(PinState::High),
        Step::DelayMs(20),
        Step::SetReset(PinState::Low),
        Step::DelayMs(2),
        Step::SetReset(PinState::High),
        Step::DelayMs(200),
    ];
    assert(steps.deep_view() =~~= reset_steps());
    steps
}

/// Builds the steps that wait for the panel to settle after a reset.
fn settle_plan() -> (r: Vec<Step>)
    ensures
        r.deep_view() == settle_steps(),
{
    let steps: Vec<Step> = vec![Step::WaitIfBusy, Step::DelayMs(30)];
    assert(steps.deep_view() =~~= settle_steps());
    steps
}

/// Builds the steps that refresh the panel.
fn update_plan() -> (r: Vec<Step>)
    ensures
        r.deep_view() == update_steps(),
{
    let steps: Vec<Step> = vec![send_step(Command::DisplayRefresh.register(), &[0x00]), Step::WaitIfBusy];
    assert(steps.deep_view() =~~= update_steps());
    steps
}

trait StateInternal {}

/// The state of the display, as tracked by the type of [Epd7In3E].
#[allow(private_bounds)]
pub trait State: StateInternal {}

/// States in which the display is awake.
pub trait StateAwake: State {}

/// The display has not been initialised yet.
#[derive(Debug, Clone, Copy, PartialEq)]
pub struct StateUninitialized();

impl StateInternal for StateUninitialized {}

impl State for StateUninitialized {}

impl StateAwake for StateUninitialized {}

/// The display is initialised in a refresh mode.
#[derive(Debug, Clone, Copy, PartialEq)]
pub struct StateReady {
    mode: RefreshMode,
}

impl StateInternal for StateReady {}

impl State for StateReady {}

impl StateAwake for StateReady {}

impl StateReady {
    /// The refresh mode the display is set up for.
    pub closed spec fn spec_mode(&self) -> RefreshMode {
        self.mode
    }

    /// Returns the refresh mode the display is set up for.
    pub fn mode(&self) -> (r: RefreshMode)
        ensures
            r == self.spec_mode(),
    {
        self.mode
    }
}

/// The display is asleep, and wakes into the state `W`.
#[derive(Debug, Clone, Copy, PartialEq)]
pub struct StateAsleep<W: StateAwake> {
    wake_state: W,
}

impl<W: StateAwake> StateInternal for StateAsleep<W> {}

impl<W: StateAwake> State for StateAsleep<W> {}

impl<W: StateAwake> StateAsleep<W> {
    /// The state the display wakes into.
    pub closed spec fn spec_wake_state(&self) -> W {
        self.wake_state
    }
}

/// Controls the 7.3" Waveshare Spectra 6 e-paper display.
///
/// The display has a landscape orientation.
pub struct Epd7In3E<HW, STATE> {
    hw: HW,
    state: STATE,
}

impl<HW, STATE> Epd7In3E<HW, STATE> {
    /// The hardware that drives the display.
    pub closed spec fn spec_hw(&self) -> HW {
        self.hw
    }

    /// The state of the display.
    pub closed spec fn spec_state(&self) -> STATE {
        self.state
    }

    /// Gives access to the hardware, to carry out planned steps.
    pub fn hw_mut(&mut self) -> (r: &mut HW)
        ensures
            *r == old(self).spec_hw(),
            final(self).spec_hw() == *final(r),
            final(self).spec_state() == old(self).spec_state(),
    {
        &mut self.hw
    }

    /// Returns the state of the display.
    pub fn state(&self) -> (r: &STATE)
        ensures
            *r == self.spec_state(),
    {
        &self.state
    }
}

impl<HW> Epd7In3E<HW, StateUninitialized> {
    /// Creates a driver for the display on `hw`; the display still needs to be initialised.
    pub fn new(hw: HW) -> (r: Self)
        ensures
            r.spec_hw() == hw,
            r.spec_state() == StateUninitialized(),
    {
        Epd7In3E { hw, state: StateUninitialized() }
    }
}

impl<HW, STATE: StateAwake> Epd7In3E<HW, STATE> {
    /// Initialises the display: resets it, waits for it to settle, sets it up for `mode` and
    /// powers it on.
    pub fn init(self, mode: RefreshMode) -> (r: (Epd7In3E<HW, StateReady>, Vec<Step>))
        ensures
            r.0.spec_hw() == self.spec_hw(),
            r.0.spec_state().spec_mode() == mode,
            r.1.deep_view() == init_steps(mode),
    {
        let mut steps = reset_plan();
        append_steps(&mut steps, settle_plan());
        append_steps(&mut steps, refresh_mode_plan(mode));
        let power_on: Vec<Step> = vec![send_step(Command::PowerOn.register(), &[])];
        assert(power_on.deep_view() =~~= seq![send(Command::PowerOn, seq![])]);
        append_steps(&mut steps, power_on);
        (Epd7In3E { hw: self.hw, state: StateReady { mode } }, steps)
    }
}

impl<HW, STATE: StateAwake> Epd7In3E<HW, STATE> {
    /// Sends `command` with `data` to the display. The display is waited on first if it is
    /// busy.
    pub fn send(&mut self, command: Command, data: &[u8]) -> (r: Vec<Step>)
        ensures
            *final(self) == *old(self),
            r.deep_view() == seq![send(command, data@)],
    {
        let steps: Vec<Step> = vec![send_step(command.register(), data)];
        assert(steps.deep_view() =~~= seq![send(command, data@)]);
        steps
    }
}

impl<HW> Epd7In3E<HW, StateReady> {
    /// Plans a change of refresh mode. Nothing is sent when the display is already in `mode`;
    /// otherwise the steps reset the display and set it up anew. The recorded mode is left as
    /// it is: once the steps have all been carried out, [Self::record_refresh_mode] records the
    /// new one.
    pub fn set_refresh_mode(&mut self, mode: RefreshMode) -> (r: Vec<Step>)
        ensures
            *final(self) == *old(self),
            r.deep_view() == (if old(self).spec_state().spec_mode() == mode {
                Seq::<StepSpec>::empty()
            } else {
                reset_steps() + settle_steps() + refresh_mode_steps(mode)
            }),
    {
        if self.state.mode == mode {
            let steps: Vec<Step> = Vec::new();
            assert(steps.deep_view() =~= Seq::<StepSpec>::empty());
            steps
        } else {
            let mut steps = reset_plan();
            append_steps(&mut steps, settle_plan());
            append_steps(&mut steps, refresh_mode_plan(mode));
            steps
        }
    }

    /// Records that the display is now set up for `mode`, once the steps planned by
    /// [Self::set_refresh_mode] have all been carried out.
    pub fn record_refresh_mode(&mut self, mode: RefreshMode)
        ensures
            final(self).spec_hw() == old(self).spec_hw(),
            final(self).spec_state().spec_mode() == mode,
    {
        self.state.mode = mode;
    }
}

impl<HW, W: StateAwake> Reset for Epd7In3E<HW, W> {
    type DisplayOut = Epd7In3E<HW, W>;

    fn reset(self) -> (r: (Epd7In3E<HW, W>, Vec<Step>))
        ensures
            r.0 == self,
            r.1.deep_view() == reset_steps(),
    {
        (self, reset_plan())
    }
}

impl<HW, W: StateAwake> Reset for Epd7In3E<HW, StateAsleep<W>> {
    type DisplayOut = Epd7In3E<HW, W>;

    /// Leaves the actual reset to the initialisation that must follow.
    fn reset(self) -> (r: (Epd7In3E<HW, W>, Vec<Step>))
        ensures
            r.0.spec_hw() == self.spec_hw(),
            r.0.spec_state() == self.spec_state().spec_wake_state(),
            r.1.deep_view() == Seq::<StepSpec>::empty(),
    {
        let steps: Vec<Step> = Vec::new();
        assert(steps.deep_view() =~= Seq::<StepSpec>::empty());
        (Epd7In3E { hw: self.hw, state: self.state.wake_state }, steps)
    }
}

impl<HW, W: StateAwake> Sleep for Epd7In3E<HW, W> {
    type DisplayOut = Epd7In3E<HW, StateAsleep<StateUninitialized>>;

    fn sleep(self) -> (r: (Epd7In3E<HW, StateAsleep<StateUninitialized>>, Vec<Step>))
        ensures
            r.0.spec_hw() == self.spec_hw(),
            r.0.spec_state().spec_wake_state() == StateUninitialized(),
            r.1.deep_view() == sleep_steps(),
    {
        let steps: Vec<Step> = vec![send_step(Command::DeepSleep.register(), &[0xA5])];
        assert(steps.deep_view() =~~= sleep_steps());
        (Epd7In3E { hw: self.hw, state: StateAsleep { wake_state: StateUninitialized() } }, steps)
    }
}

impl<HW> Displayable for Epd7In3E<HW, StateReady> {
    fn update_display(&mut self) -> (r: Vec<Step>)
        ensures
            *final(self) == *old(self),
            r.deep_view() == update_steps(),
    {
        update_plan()
    }
}

impl<HW> Clear for Epd7In3E<HW, StateReady> {
    fn clear(&mut self) -> (r: Vec<Step>)
        ensures
            *final(self) == *old(self),
            r.deep_view() == clear_steps() + update_steps(),
    {
        let buf1_value: u8 = match self.state.mode {
            RefreshMode::Full => 0xFF,
        };
        let mut steps: Vec<Step> = vec![
            Step::SendRepeated {
                command: Command::DataStartTrans1.register(),
                byte: buf1_value,
                count: HEX_BUFFER_LENGTH,
            },
        ];
        assert(steps.deep_view() =~~= clear_steps());
        append_steps(&mut steps, self.update_display());
        steps
    }
}

impl<HW> DisplaySimple<1, 1> for Epd7In3E<HW, StateReady> {
    fn write_framebuffer<V: BufferView<1, 1>>(&mut self, buf: &V) -> (r: Vec<Step>)
        ensures
            *final(self) == *old(self),
            r.deep_view() == seq![send(Command::DataStartTrans1, buf.frame(0))],
    {
        let frames = buf.data();
        let frame: &[u8] = frames[0];
        assert(frame_bytes(frames@[0]) == buf.frame(0));
        let steps: Vec<Step> = vec![send_step(Command::DataStartTrans1.register(), frame)];
        assert(steps.deep_view() =~~= seq![send(Command::DataStartTrans1, buf.frame(0))]);
        steps
    }

    fn display_framebuffer<V: BufferView<1, 1>>(&mut self, buf: &V) -> (r: Vec<Step>)
        ensures
            *final(self) == *old(self),
            r.deep_view() == seq![send(Command::DataStartTrans1, buf.frame(0))] + update_steps(),
    {
        let mut steps = self.write_framebuffer(buf);
        append_steps(&mut steps, self.update_display());
        steps
    }
}

} // verus!
