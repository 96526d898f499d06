//! What holds of every call of the functions for the protocol globals.
//!
//! Each law speaks of what a call was given and what came of it.

use vstd::prelude::*;

use super::data_device::{
    drag_icon_ready, set_selection, start_drag, with_source_metadata, DataDeviceEvent,
    DataSourceData, DragAction, SourceMetadata, SourceRequest, UnmanagedResource,
};
use super::decoration::{
    init_decoration_manager, Configure, DecorationManager, DecorationMode, ToplevelDecoration,
};
use super::shm::{
    create_pool, mapping_failed, pool_offset, resize_failed, resize_pool, BufferData, CreateBuffer,
    CreatePool, ErrorCode, PoolMapping, ProtocolError, ResizeError, ShmState,
};

verus! {

/// A buffer has an extent and lies within a pool: no row of it starts before the pool, its rows do
/// not overlap, and the last of them ends within the pool.
pub open spec fn fits(request: CreateBuffer, pool_size: int) -> bool {
    &&& request.offset >= 0
    &&& request.width > 0
    &&& request.height > 0
    &&& request.stride >= request.width
    &&& request.offset + request.stride * request.height <= pool_size
}

proof fn lemma_rows_in_range(stride: int, height: int)
    ensures
        stride > 0 && height > 0 ==> (stride * height <= 0x7fff_ffff <==> height
            <= 0x7fff_ffffint / stride),
{
    if stride > 0 && height > 0 {
        assert(stride * height <= 0x7fff_ffff <==> height <= 0x7fff_ffffint / stride)
            by (nonlinear_arith)
            requires
                stride > 0,
                height > 0,
        ;
    }
}

/// In a pool of less than 2 GiB, exactly the buffers that fit are not complained about. Every
/// buffer may be asked for there.
pub proof fn buffers_that_fit_are_valid(
    request: CreateBuffer,
    pool_size: usize,
    measured: bool,
    r: Option<String>,
)
    requires
        call_ensures(CreateBuffer::validate, (&request, pool_size), r),
        call_ensures(CreateBuffer::can_measure_room, (&request, pool_size), measured),
        pool_size <= 0x7fff_ffff,
    ensures
        call_requires(CreateBuffer::validate, (&request, pool_size)),
        measured,
        r is None <==> fits(request, pool_size as int),
{
    super::shm::small_pools_are_measurable(request, pool_size);
    lemma_rows_in_range(request.stride as int, request.height as int);
}

/// Of a pool of 2 GiB or more, only the lower 32 bits of the size count, as a signed number. No
/// buffer that has an extent fits where that number is negative.
pub proof fn large_pools_count_as_their_lower_bits(
    request: CreateBuffer,
    pool_size: usize,
    small: usize,
    r: Option<String>,
    other: Option<String>,
)
    requires
        call_ensures(CreateBuffer::validate, (&request, pool_size), r),
        call_ensures(CreateBuffer::validate, (&request, small), other),
        pool_size as int % 0x1_0000_0000int == small,
    ensures
        r is None <==> other is None,
        small > 0x7fff_ffff ==> other is Some,
{
    let (wide, low) = (pool_size as u64, small as u64);
    assert(wide % 0x1_0000_0000 == low ==> (wide as i32) == (low as i32)) by (bit_vector);
    assert(low <= 0xffff_ffff && low > 0x7fff_ffff ==> (low as i32) < 0) by (bit_vector);
    assert((pool_size as i32) == (wide as i32));
    assert((small as i32) == (low as i32));
    let (stride, height) = (request.stride as int, request.height as int);
    if stride > 0 && height > 0 {
        assert(stride * height > 0) by (nonlinear_arith)
            requires
                stride > 0,
                height > 0,
        ;
    }
}

/// The first thing that is wrong with a buffer is complained about.
pub proof fn the_first_fault_is_complained_about(
    request: CreateBuffer,
    pool_size: usize,
    r: Option<String>,
)
    requires
        call_ensures(CreateBuffer::validate, (&request, pool_size), r),
        pool_size <= 0x7fff_ffff,
    ensures
        request.offset < 0 ==> (r matches Some(text) && text@ == "offset must not be negative"@),
        request.offset >= 0 && (request.width <= 0 || request.height <= 0) ==> (r matches Some(text)
            && text@ == "invalid width or height ("@ + crate::utils::text::signed_decimal(
            request.width as int,
        ) + "x"@ + crate::utils::text::signed_decimal(request.height as int) + ")"@),
        request.offset >= 0 && request.width > 0 && request.height > 0 && request.stride
            < request.width ==> (r matches Some(text) && text@
            == "width must not be larger than stride (width "@
            + crate::utils::text::signed_decimal(request.width as int) + ", stride "@
            + crate::utils::text::signed_decimal(request.stride as int) + ")"@),
        request.offset >= 0 && request.width > 0 && request.height > 0 && request.stride
            >= request.width && request.stride * request.height > 0x7fff_ffff ==> (r matches Some(
            text,
        ) && text@ == "height is too large for stride (max "@ + crate::utils::text::signed_decimal(
            0x7fff_ffffint / (request.stride as int),
        ) + ")"@),
        request.offset >= 0 && request.width > 0 && request.height > 0 && request.stride
            >= request.width && request.stride * request.height <= 0x7fff_ffff && request.offset
            + request.stride * request.height > pool_size ==> (r matches Some(text) && text@
            == "offset is too large"@),
{
    lemma_rows_in_range(request.stride as int, request.height as int);
}

/// A number stands for a format: for `AR24` and `XR24`, or for one of `wl_shm`.
pub open spec fn is_format(code: u32) -> bool {
    ||| code == 0x3432_5241
    ||| code == 0x3432_5258
    ||| super::protocol::is_shm_format(code)
}

/// A buffer is created, as it was asked for, exactly if nothing is complained about and its format
/// is one of those that clients may use. A complaint comes first, then that there is no such format
/// and then that it may not be used.
pub proof fn valid_buffers_are_created(
    state: ShmState,
    request: CreateBuffer,
    pool_size: usize,
    complaint: Option<String>,
    r: Result<BufferData, ProtocolError>,
)
    requires
        call_ensures(CreateBuffer::validate, (&request, pool_size), complaint),
        call_ensures(ShmState::create_buffer, (&state, &request, pool_size), r),
    ensures
        r is Ok <==> complaint is None && is_format(request.format) && state.formats@.contains(
            request.format,
        ),
        r matches Ok(buffer) ==> {
            &&& buffer.offset == request.offset
            &&& buffer.width == request.width
            &&& buffer.height == request.height
            &&& buffer.stride == request.stride
            &&& buffer.format == request.format
        },
        complaint matches Some(text) ==> (r matches Err(error) && error.code
            == ErrorCode::InvalidStride && error.message@ == text@),
        complaint is None && !is_format(request.format) ==> (r matches Err(error) && error.code
            == ErrorCode::InvalidFormat && error.message@ == "unknown format 0x"@
            + crate::utils::text::hexadecimal(request.format as nat)),
        complaint is None && is_format(request.format) && !state.formats@.contains(request.format)
            ==> (r matches Err(error) && error.code == ErrorCode::InvalidFormat && error.message@
            == "format "@ + (if request.format == 0x3432_5241 {
            "Argb8888New"@
        } else if request.format == 0x3432_5258 {
            "Xrgb8888New"@
        } else {
            super::protocol::shm_format_name(request.format)
        }) + " not supported"@),
{
}

/// In a pool of less than 2 GiB every buffer may be asked for, and one that fits and has a format
/// that clients may use is created.
pub proof fn buffers_that_fit_are_created(
    state: ShmState,
    request: CreateBuffer,
    pool_size: usize,
    r: Result<BufferData, ProtocolError>,
)
    requires
        call_ensures(ShmState::create_buffer, (&state, &request, pool_size), r),
        pool_size <= 0x7fff_ffff,
    ensures
        call_requires(ShmState::create_buffer, (&state, &request, pool_size)),
        r is Ok <==> fits(request, pool_size as int) && is_format(request.format)
            && state.formats@.contains(request.format),
{
    super::shm::small_pools_are_measurable(request, pool_size);
    lemma_rows_in_range(request.stride as int, request.height as int);
}

/// From version 2 on a client is sent all the formats; one of version 1 is sent those that stand
/// under their number in `wl_shm`, in the order in which they stand.
pub proof fn formats_are_sent_in_order(
    shorter: ShmState,
    longer: ShmState,
    format: u32,
    version: u32,
    before: Vec<u32>,
    after: Vec<u32>,
)
    requires
        call_ensures(ShmState::bind, (&shorter, version), before),
        call_ensures(ShmState::bind, (&longer, version), after),
        longer.formats@ == shorter.formats@.push(format),
    ensures
        shorter.formats@.len() == 0 ==> before@.len() == 0,
        version >= 2 || format != 0x3432_5241 && format != 0x3432_5258 ==> after@ == before@.push(
            format,
        ),
        version < 2 && (format == 0x3432_5241 || format == 0x3432_5258) ==> after@ == before@,
{
    reveal(Seq::filter);
    assert(longer.formats@.drop_last() =~= shorter.formats@);
    assert(longer.formats@.last() == format);
}

/// A pool is mapped with the size and from the place that it was asked for; one whose size is given
/// as a signed number starts at the beginning, and a size that is not positive is an error.
pub proof fn pools_are_mapped_as_asked(
    request: CreatePool,
    place: isize,
    r: Result<PoolMapping, ProtocolError>,
)
    requires
        call_ensures(create_pool, (&request,), r),
        request matches CreatePool::CreatePool2 { offset_lo, offset_hi, .. } ==> call_ensures(
            pool_offset,
            (offset_lo, offset_hi),
            place,
        ),
    ensures
        request matches CreatePool::CreatePool { size } ==> if size > 0 {
            r matches Ok(mapping) && mapping.size == size && mapping.offset == 0
        } else {
            r matches Err(error) && error.code == ErrorCode::InvalidStride && error.message@
                == "wl_shm_pool size is zero"@
        },
        request matches CreatePool::CreatePool2 { size, .. } ==> (r matches Ok(mapping)
            && mapping.size == size && mapping.offset == place),
        call_requires(create_pool, (&(CreatePool::CreatePool { size: 0 }),)),
        request matches CreatePool::CreatePool2 { size, .. } && size > 0 ==> call_requires(
            create_pool,
            (&request,),
        ),
{
}

/// Where an `isize` has 64 bits, the halves of an offset are the halves of its bits.
pub proof fn offsets_have_two_halves(offset_lo: u32, offset_hi: u32, r: isize)
    requires
        usize::BITS == 64,
        call_ensures(pool_offset, (offset_lo, offset_hi), r),
    ensures
        offset_hi <= 0x7fff_ffff ==> r == offset_hi * 0x1_0000_0000 + offset_lo,
        offset_hi > 0x7fff_ffff ==> r == offset_hi * 0x1_0000_0000 + offset_lo
            - 0x1_0000_0000_0000_0000,
{
    let wide = (offset_hi * 0x1_0000_0000 + offset_lo) as u64;
    assert(wide == offset_hi * 0x1_0000_0000 + offset_lo);
    assert(wide <= 0x7fff_ffff_ffff_ffff ==> (wide as i64) == wide) by (bit_vector);
    assert(wide > 0x7fff_ffff_ffff_ffff ==> (wide as i64) == wide - 0x1_0000_0000_0000_0000)
        by (bit_vector);
    assert(r == (wide as isize));
}

/// A pool that clients of version 1 ask to resize gets the size that they asked for; a size that is
/// not positive is an error, and so is every request from version 2 on.
pub proof fn pools_are_resized_in_version_1(
    version: u32,
    size: i32,
    r: Result<usize, ProtocolError>,
)
    requires
        call_ensures(resize_pool, (version, size), r),
    ensures
        version < 2 && size > 0 ==> (r matches Ok(same) && same == size),
        version >= 2 ==> (r matches Err(error) && error.code == ErrorCode::AlreadyMapped
            && error.message@ == "tried to resize version 2 pool after the pool has been mapped"@),
        version < 2 && size <= 0 ==> (r matches Err(error) && error.code == ErrorCode::InvalidFd
            && error.message@ == "invalid wl_shm_pool size"@),
{
}

/// What goes wrong with the file of a pool is told by its own text.
pub proof fn faults_of_files_are_told(
    fd: i32,
    mapping: ProtocolError,
    shrinking: ProtocolError,
    moving: ProtocolError,
)
    requires
        call_ensures(mapping_failed, (fd,), mapping),
        call_ensures(resize_failed, (ResizeError::InvalidSize,), shrinking),
        call_ensures(resize_failed, (ResizeError::MremapFailed,), moving),
    ensures
        mapping.code == ErrorCode::InvalidFd,
        mapping.message@ == "Failed to mmap fd "@ + crate::utils::text::signed_decimal(fd as int),
        shrinking.code == ErrorCode::InvalidFd,
        shrinking.message@ == "cannot shrink wl_shm_pool"@,
        moving.code == ErrorCode::InvalidFd,
        moving.message@ == "mremap failed"@,
{
}

/// A mode comes back from its number, which is 1 for the client and 2 for the server. No other
/// number stands for a mode.
pub proof fn modes_come_back_from_their_numbers(
    mode: DecorationMode,
    code: u32,
    number: u32,
    back: Option<DecorationMode>,
    r: Option<DecorationMode>,
)
    requires
        call_ensures(DecorationMode::to_protocol, (&mode,), number),
        call_ensures(DecorationMode::from_protocol, (number,), back),
        call_ensures(DecorationMode::from_protocol, (code,), r),
    ensures
        mode is ClientSide ==> number == 1,
        mode is ServerSide ==> number == 2,
        back == Some(mode),
        code == 1 ==> r == Some(DecorationMode::ClientSide),
        code == 2 ==> r == Some(DecorationMode::ServerSide),
        code != 1 && code != 2 ==> r is None,
{
}

/// Setting the mode of a decoration changes the mode alone, and the client is told its number on
/// the object of the decoration.
pub proof fn modes_are_set_and_told(
    decoration: &mut ToplevelDecoration,
    mode: DecorationMode,
    told: Configure,
    surface: u64,
    current: DecorationMode,
)
    requires
        call_ensures(ToplevelDecoration::set_mode, (decoration, mode), told),
        call_ensures(ToplevelDecoration::surface, (&*final(decoration),), surface),
        call_ensures(ToplevelDecoration::mode, (&*final(decoration),), current),
    ensures
        current == mode,
        surface == old(decoration).surface,
        final(decoration).inner == old(decoration).inner,
        told.inner == old(decoration).inner,
        told.mode == (if mode is ClientSide {
            1u32
        } else {
            2u32
        }),
{
}

/// The decoration that is found for a surface is one of that surface, the first. One is found
/// wherever there is one.
pub proof fn decorations_are_found_by_their_surface(
    manager: DecorationManager,
    toplevel: u64,
    j: int,
    r: Option<&ToplevelDecoration>,
)
    requires
        call_ensures(DecorationManager::get_decoration, (&manager, toplevel), r),
        0 <= j < manager.decorations@.len(),
    ensures
        r matches Some(decoration) ==> decoration.surface == toplevel
            && manager.decorations@.contains(*decoration),
        manager.decorations@[j].surface == toplevel ==> r is Some,
        manager.decorations@[j].surface == toplevel && (forall|k: int|
            0 <= k < j ==> (#[trigger] manager.decorations@[k]).surface != toplevel) ==> (
        r matches Some(decoration) && *decoration == manager.decorations@[j]),
{
    match r {
        Some(decoration) => {
            let i = choose|i: int|
                {
                    &&& 0 <= i < manager.decorations@.len()
                    &&& #[trigger] manager.decorations@[i] == *decoration
                    &&& decoration.surface == toplevel
                    &&& forall|j: int|
                        0 <= j < i ==> (#[trigger] manager.decorations@[j]).surface != toplevel
                };
            assert(manager.decorations@[i] == *decoration);
            assert(j < i ==> manager.decorations@[j].surface != toplevel);
            assert(i < j ==> manager.decorations@[i].surface == toplevel);
        },
        None => {
            assert(manager.decorations@[j].surface != toplevel);
        },
    }
}

/// A source offers the MIME types in the order in which they were offered. The actions are those
/// that were set last, of which copy, move and ask are taken.
pub proof fn sources_keep_what_they_are_told(
    meta: &mut SourceMetadata,
    request: SourceRequest,
)
    requires
        call_ensures(SourceMetadata::request, (meta, request), ()),
    ensures
        request matches SourceRequest::Offer { mime_type } ==> final(meta).mime_types@
            == old(meta).mime_types@.push(mime_type) && final(meta).dnd_action
            == old(meta).dnd_action,
        request matches SourceRequest::SetActions { dnd_actions } ==> final(meta).mime_types@
            == old(meta).mime_types@ && final(meta).dnd_action == dnd_actions % 8,
        request is Destroy ==> final(meta).mime_types@ == old(meta).mime_types@
            && final(meta).dnd_action == old(meta).dnd_action,
{
    match request {
        SourceRequest::SetActions { dnd_actions } => {
            assert(dnd_actions & 7 == dnd_actions % 8) by (bit_vector);
        },
        _ => {},
    }
}

/// A new source has nothing, and the metadata of a source is its own.
pub proof fn sources_start_empty(
    data: DataSourceData,
    other: DataSourceData,
    meta: Result<&SourceMetadata, UnmanagedResource>,
    none: Result<&SourceMetadata, UnmanagedResource>,
)
    requires
        call_ensures(DataSourceData::new, (), data),
        call_ensures(with_source_metadata, (Some(&other),), meta),
        call_ensures(with_source_metadata, (None::<&DataSourceData>,), none),
    ensures
        data.meta.mime_types@.len() == 0,
        data.meta.dnd_action == 0,
        meta matches Ok(same) && *same == other.meta,
        none is Err,
{
}

/// A drag starts only with an icon, once the pointer is grabbed with the serial of the request and
/// the icon has its role. It is reported with the source, the icon and the seat that it has.
pub proof fn drags_start_from_a_grab(
    pointer_has_grab: Option<bool>,
    icon: Option<u64>,
    role_given: bool,
    source: Option<u64>,
    surface: u64,
    seat: u64,
    first: DragAction,
    second: DragAction,
)
    requires
        call_ensures(start_drag, (pointer_has_grab, icon), first),
        call_ensures(drag_icon_ready, (role_given, source, surface, seat), second),
    ensures
        pointer_has_grab == Some(true) && icon == Some(surface) ==> first == DragAction::GiveRole(
            surface,
        ),
        pointer_has_grab != Some(true) || icon is None ==> first == DragAction::Ignore,
        role_given ==> (second matches DragAction::Start(event) && (
        event matches DataDeviceEvent::DnDStarted { source: from, icon: shown, seat: on } && from
            == source && shown == surface && on == seat)),
        !role_given ==> second == DragAction::PostRoleError,
        super::data_device::ROLE_MESSAGE@ == "given surface already has another role."@,
{
}

/// The selection is set, to the source that was given, exactly if the keyboard is on the client.
pub proof fn the_selection_needs_the_focus(
    keyboard_has_focus: Option<bool>,
    source: Option<u64>,
    r: Option<DataDeviceEvent>,
)
    requires
        call_ensures(set_selection, (keyboard_has_focus, source), r),
    ensures
        keyboard_has_focus == Some(true) ==> (r matches Some(event) && (
        event matches DataDeviceEvent::NewSelection(same) && same == source)),
        keyboard_has_focus != Some(true) ==> r is None,
{
}

/// No surface has decorations at first, and a manager tells all that there are.
pub proof fn nothing_is_decorated_at_first(
    manager: DecorationManager,
    other: DecorationManager,
    all: &Vec<ToplevelDecoration>,
)
    requires
        call_ensures(init_decoration_manager, (), manager),
        call_ensures(DecorationManager::decorations, (&other,), all),
    ensures
        manager.decorations@.len() == 0,
        all@ == other.decorations@,
{
}

} // verus!
