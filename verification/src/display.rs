//! What displays can do, as plans of hardware steps.
//!
//! Each operation consumes or updates the display's state and returns the [Step]s that carry
//! it out on the hardware.
use crate::buffer::BufferView;
use crate::hw::Step;
use vstd::prelude::*;

verus! {

/// Displays that have a hardware reset.
pub trait Reset: Sized {
    type DisplayOut;

    /// Hardware resets the display.
    fn reset(self) -> (Self::DisplayOut, Vec<Step>);
}

/// Displays that can sleep to save power.
pub trait Sleep: Sized {
    type DisplayOut;

    /// Puts the display to sleep.
    fn sleep(self) -> (Self::DisplayOut, Vec<Step>);
}

/// Displays that can be woken from a sleep state.
pub trait Wake: Sized {
    type DisplayOut;

    /// Wakes and re-initialises the display (if necessary) if it's asleep.
    fn wake(self) -> (Self::DisplayOut, Vec<Step>);
}

/// Displays that can be cleared with their base color.
pub trait Clear {
    /// Fills the display with a specific color.
    fn clear(&mut self) -> Vec<Step>;
}

/// Base trait for any display where the display can be updated separate from its framebuffer
/// data.
pub trait Displayable {
    /// Updates (refreshes) the display based on what has been written to the framebuffer.
    fn update_display(&mut self) -> Vec<Step>;
}

/// Simple displays that support writing and displaying framebuffers of a certain bit
/// configuration.
///
/// `BITS` indicates the colour depth of each frame, and `FRAMES` indicates the total number of
/// frames that represent a complete image.
pub trait DisplaySimple<const BITS: usize, const FRAMES: usize>: Displayable {
    /// Writes the given buffer's data into the main framebuffer to be displayed on the next
    /// call to [Displayable::update_display].
    fn write_framebuffer<V: BufferView<BITS, FRAMES>>(&mut self, buf: &V) -> Vec<Step>;

    /// A shortcut for calling [DisplaySimple::write_framebuffer] followed by
    /// [Displayable::update_display].
    fn display_framebuffer<V: BufferView<BITS, FRAMES>>(&mut self, buf: &V) -> Vec<Step>;
}

/// Displays that support a partial update, where a "diff" framebuffer is diffed against a base
/// framebuffer, and only the changed pixels from the diff are actually updated.
pub trait DisplayPartial<const BITS: usize, const FRAMES: usize>: DisplaySimple<BITS, FRAMES> {
    /// Writes the buffer to the base framebuffer that the main framebuffer layer will be
    /// diffed against. The buffer's window must cover at least one pixel.
    fn write_base_framebuffer<V: BufferView<BITS, FRAMES>>(&mut self, buf: &V) -> Vec<Step>
        requires
            !buf.spec_window().is_empty(),
            buf.spec_window().fits(),
    ;
}

} // verus!
