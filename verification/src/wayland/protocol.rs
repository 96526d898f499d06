//! Enumerations of the Wayland protocols, by the numbers that they have on the wire.

use vstd::prelude::*;

verus! {

/// Whether a number is one of the pixel formats of `wl_shm`.
pub uninterp spec fn is_shm_format(code: u32) -> bool;

/// The pixel format of `wl_shm` that a number stands for, as a number.
///
/// This calls `wl_shm::Format::try_from` for `u32` of `wayland_server` and converts back with
/// `u32::from`. A number that is a format stands for itself; any other number has none.
#[verifier::external_body]
pub(crate) fn shm_format(code: u32) -> (r: Option<u32>)
    ensures
        r == if is_shm_format(code) {
            Some(code)
        } else {
            None::<u32>
        },
{
    wayland_server::protocol::wl_shm::Format::try_from(code).ok().map(u32::from)
}

/// The transform of `wl_output` that a number stands for, as a number.
///
/// This calls `wl_output::Transform::try_from` for `u32` of `wayland_server` and converts back with
/// `u32::from`. The protocol numbers its eight transforms from zero.
#[verifier::external_body]
pub(crate) fn output_transform(code: u32) -> (r: Option<u32>)
    ensures
        r == if code < 8 {
            Some(code)
        } else {
            None::<u32>
        },
{
    wayland_server::protocol::wl_output::Transform::try_from(code).ok().map(u32::from)
}

/// The name of a pixel format of `wl_shm`.
pub uninterp spec fn shm_format_name(code: u32) -> Seq<char>;

/// The name of a pixel format of `wl_shm`, from the `Debug` of `wl_shm::Format` of
/// `wayland_server`.
///
/// It depends on the number alone. What it is for each number is not stated.
#[verifier::external_body]
pub(crate) fn shm_format_debug(code: u32) -> (r: String)
    requires
        is_shm_format(code),
    ensures
        r@ == shm_format_name(code),
{
    format!("{:?}", wayland_server::protocol::wl_shm::Format::try_from(code).unwrap())
}

/// All the actions of a drag and drop operation: copy, move and ask.
pub const DND_ACTIONS: u32 = 7;

/// The drag and drop actions of a set of bits.
///
/// This calls `wl_data_device_manager::DndAction::from_bits_truncate` of `wayland_server`, which
/// drops the bits that are none of its three actions, and takes the bits.
#[verifier::external_body]
pub(crate) fn dnd_actions(bits: u32) -> (r: u32)
    ensures
        r == bits & DND_ACTIONS,
{
    wayland_server::protocol::wl_data_device_manager::DndAction::from_bits_truncate(bits).bits()
}

/// The decoration mode of `zxdg_toplevel_decoration_v1` that a number stands for, as a number.
///
/// This calls `zxdg_toplevel_decoration_v1::Mode::try_from` for `u32` of `wayland_protocols` and
/// converts back with `u32::from`. The protocol has the modes 1 and 2.
#[verifier::external_body]
pub(crate) fn decoration_mode(code: u32) -> (r: Option<u32>)
    ensures
        r == if code == 1 || code == 2 {
            Some(code)
        } else {
            None::<u32>
        },
{
    wayland_protocols::xdg::decoration::zv1::server::zxdg_toplevel_decoration_v1::Mode::try_from(
        code,
    ).ok().map(u32::from)
}

} // verus!
