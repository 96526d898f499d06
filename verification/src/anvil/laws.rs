//! What holds of every call of the functions of the compositor.
//!
//! Each law speaks of what a call was given and what came of it.

use vstd::prelude::*;

use super::x11::{
    frame_time, physical_properties, window_properties, EventAction, FramePlan,
    PhysicalProperties, X11Data,
};
use crate::backend::renderer::Transform;
use crate::backend::x11::surface::X11Surface;
use crate::backend::x11::{WindowProperties, X11Event};
use crate::utils::Size;

verus! {

/// The output covers the window, at its start and after each time that it is resized, at 60 hertz.
/// A resize changes nothing else.
pub proof fn the_output_covers_the_window(
    size: Size<u16>,
    surface: X11Surface,
    first: X11Data,
    data: &mut X11Data,
    action: EventAction,
)
    requires
        call_ensures(X11Data::new, (&size, surface), first),
        call_ensures(X11Data::handle_event, (data, &X11Event::Resized(size)), action),
    ensures
        first.mode.size.w == size.w && first.mode.size.h == size.h && first.mode.refresh == 60_000,
        first.running && first.surface == surface,
        final(data).mode == first.mode,
        final(data).running == old(data).running && final(data).surface == old(data).surface,
        action == EventAction::UpdateMode(first.mode),
{
}

/// A request to close the window ends the compositor. Input and requests to draw again do not, and
/// change nothing; input is processed as it comes.
pub proof fn only_closing_ends(data: &mut X11Data, event: X11Event, action: EventAction)
    requires
        call_ensures(X11Data::handle_event, (data, &event), action),
    ensures
        event is CloseRequested ==> action is Stop && !final(data).running && final(data).mode
            == old(data).mode && final(data).surface == old(data).surface,
        event is Refresh ==> action is Ignore && *final(data) == *old(data),
        event matches X11Event::Input(input) ==> action == EventAction::ProcessInput(input)
            && *final(data) == *old(data),
        !(event is CloseRequested) ==> final(data).running == old(data).running,
{
}

/// The main loop goes on exactly as long as nothing fails, and what fails ends it for good.
pub proof fn failures_end_the_loop(data: &mut X11Data, success: bool, r: bool)
    requires
        call_ensures(X11Data::dispatched, (data, success), r),
    ensures
        r == success,
        final(data).running == (old(data).running && success),
        final(data).mode == old(data).mode && final(data).surface == old(data).surface,
{
}

/// There is a next frame exactly as long as the compositor runs. It has the size of the output, is
/// upside down and goes to the buffer that is drawn to next.
pub proof fn frames_have_the_size_of_the_output(data: X11Data, r: Option<FramePlan>)
    requires
        call_ensures(X11Data::next_frame, (&data,), r),
    ensures
        r is Some <==> data.running,
        r matches Some(frame) ==> {
            &&& frame.size == data.mode.size
            &&& frame.transform == Transform::Flipped180
            &&& frame.buffer == data.surface.buffers.next
        },
{
}

/// The time of a frame is the time that has gone by, in the range of 32 bits: it is the same at a
/// whole turn of them later.
pub proof fn times_start_anew(elapsed: u128, later: u128, r: u32, s: u32)
    requires
        call_ensures(frame_time, (elapsed,), r),
        call_ensures(frame_time, (later,), s),
    ensures
        elapsed <= 0xffff_ffff ==> r == elapsed,
        later == elapsed + 0x1_0000_0000 ==> s == r,
        later == elapsed + 1 ==> s == r + 1 || s == 0,
{
}

/// The window is 1280 by 800 pixels and has the name of the compositor; the output has no size and
/// says what it is. The seat has the name of the backend.
pub proof fn the_compositor_says_what_it_is(
    data: X11Data,
    window: WindowProperties<'static>,
    physical: PhysicalProperties,
    seat: String,
)
    requires
        call_ensures(window_properties, (), window),
        call_ensures(physical_properties, (), physical),
        call_ensures(X11Data::seat_name, (&data,), seat),
    ensures
        window.size.w == 1280 && window.size.h == 800,
        window.title@ == "Anvil"@,
        physical.size.w == 0 && physical.size.h == 0,
        physical.make@ == "Smithay"@ && physical.model@ == "X11"@,
        seat@ == "x11"@,
        super::x11::OUTPUT_NAME@ == "x11"@,
        super::x11::DISPATCH_TIMEOUT == 16,
{
}

} // verus!
