//! Selections and drag and drop.

use vstd::prelude::*;

use super::protocol::dnd_actions;

verus! {

/// The text of the error for a drag icon that has another role already.
pub const ROLE_MESSAGE: &'static str = "given surface already has another role.";

/// The resource is not managed by this library.
#[derive(Debug, Clone, Copy, PartialEq, Eq)]
pub struct UnmanagedResource;

/// The metadata describing a data source.
#[derive(Debug)]
pub struct SourceMetadata {
    /// The MIME types supported by this source.
    pub mime_types: Vec<String>,
    /// The drag and drop actions supported by this source, a set of bits.
    pub dnd_action: u32,
}

/// What is kept for a data source.
#[derive(Debug)]
pub struct DataSourceData {
    /// The metadata.
    pub meta: SourceMetadata,
}

/// A request of a client to a data source.
#[derive(Debug)]
pub enum SourceRequest {
    /// The source supports a MIME type.
    Offer {
        /// The MIME type.
        mime_type: String,
    },
    /// The source supports drag and drop actions.
    SetActions {
        /// The actions, a set of bits.
        dnd_actions: u32,
    },
    /// Destroy the source.
    Destroy,
}

/// What happens to the data of a seat.
#[derive(Debug, Clone, Copy, PartialEq, Eq)]
pub enum DataDeviceEvent {
    /// A client has started a drag and drop operation.
    DnDStarted {
        /// The source of the data, if there is one.
        source: Option<u64>,
        /// The surface that is the icon.
        icon: u64,
        /// The seat.
        seat: u64,
    },
    /// A client has set the selection.
    NewSelection(Option<u64>),
}

/// What to do for a request to start a drag and drop operation.
#[derive(Debug, Clone, Copy, PartialEq, Eq)]
pub enum DragAction {
    /// Nothing.
    Ignore,
    /// Give the surface the role of a drag icon.
    GiveRole(u64),
    /// Post the error that the surface has another role.
    PostRoleError,
    /// Report that the operation has started, and grab the pointer for it.
    Start(DataDeviceEvent),
}

impl DataSourceData {
    /// A source that was just created. It supports nothing yet.
    pub fn new() -> (r: DataSourceData)
        ensures
            r.meta.mime_types@.len() == 0,
            r.meta.dnd_action == 0,
    {
        DataSourceData { meta: SourceMetadata { mime_types: Vec::new(), dnd_action: 0 } }
    }
}

impl SourceMetadata {
    /// Processes a request of a client.
    pub fn request(&mut self, request: SourceRequest)
        ensures
            match request {
                SourceRequest::Offer { mime_type } => {
                    &&& final(self).mime_types@ == old(self).mime_types@.push(mime_type)
                    &&& final(self).dnd_action == old(self).dnd_action
                },
                SourceRequest::SetActions { dnd_actions } => {
                    &&& final(self).mime_types == old(self).mime_types
                    &&& final(self).dnd_action == dnd_actions & super::protocol::DND_ACTIONS
                },
                SourceRequest::Destroy => *final(self) == *old(self),
            },
    {
        match request {
            SourceRequest::Offer { mime_type } => {
                self.mime_types.push(mime_type);
            },
            SourceRequest::SetActions { dnd_actions: bits } => {
                self.dnd_action = dnd_actions(bits);
            },
            SourceRequest::Destroy => {},
        }
    }
}

/// Access the metadata of a data source.
///
/// Only a source that was created through this library has any.
pub fn with_source_metadata<'a>(source: Option<&'a DataSourceData>) -> (r: Result<
    &'a SourceMetadata,
    UnmanagedResource,
>)
    ensures
        r == match source {
            Some(data) => Ok::<&'a SourceMetadata, UnmanagedResource>(&data.meta),
            None => Err::<&'a SourceMetadata, UnmanagedResource>(UnmanagedResource),
        },
{
    match source {
        Some(data) => Ok(&data.meta),
        None => Err(UnmanagedResource),
    }
}

/// What to do for a request to start a drag and drop operation.
///
/// `pointer_has_grab` says whether the pointer is grabbed with the serial of the request, if the
/// seat has a pointer.
pub fn start_drag(pointer_has_grab: Option<bool>, icon: Option<u64>) -> (r: DragAction)
    ensures
        r == match (pointer_has_grab, icon) {
            (Some(true), Some(icon)) => DragAction::GiveRole(icon),
            _ => DragAction::Ignore,
        },
{
    match pointer_has_grab {
        Some(grabbed) => {
            if grabbed {
                match icon {
                    Some(icon) => DragAction::GiveRole(icon),
                    None => DragAction::Ignore,
                }
            } else {
                DragAction::Ignore
            }
        },
        // A drag from a client without an implicit grab is denied.
        None => DragAction::Ignore,
    }
}

/// What to do once the icon was to be given its role, which it was or was not.
pub fn drag_icon_ready(role_given: bool, source: Option<u64>, icon: u64, seat: u64) -> (r:
    DragAction)
    ensures
        r == if role_given {
            DragAction::Start(DataDeviceEvent::DnDStarted { source, icon, seat })
        } else {
            DragAction::PostRoleError
        },
{
    if role_given {
        // The request is in response to an implicit grab of the pointer, which is fine.
        DragAction::Start(DataDeviceEvent::DnDStarted { source, icon, seat })
    } else {
        DragAction::PostRoleError
    }
}

/// What happens for a request to set the selection.
///
/// Only a client that has the keyboard focus can set it. `keyboard_has_focus` says whether the
/// keyboard is on the client, if the seat has a keyboard.
pub fn set_selection(keyboard_has_focus: Option<bool>, source: Option<u64>) -> (r: Option<
    DataDeviceEvent,
>)
    ensures
        r == if keyboard_has_focus == Some(true) {
            Some(DataDeviceEvent::NewSelection(source))
        } else {
            None::<DataDeviceEvent>
        },
{
    match keyboard_has_focus {
        Some(focused) => {
            if focused {
                Some(DataDeviceEvent::NewSelection(source))
            } else {
                None
            }
        },
        None => None,
    }
}

/// The actions of a source are always actions of the protocol, and setting those that it has
/// changes nothing.
pub proof fn actions_are_known(bits: u32)
    ensures
        (bits & super::protocol::DND_ACTIONS) <= super::protocol::DND_ACTIONS,
        (bits & super::protocol::DND_ACTIONS) & super::protocol::DND_ACTIONS == bits
            & super::protocol::DND_ACTIONS,
{
    assert((bits & 7) <= 7 && (bits & 7) & 7 == bits & 7) by (bit_vector);
}

} // verus!
