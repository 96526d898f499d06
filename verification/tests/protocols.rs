use smithay::wayland::data_device::{
    drag_icon_ready, set_selection, start_drag, with_source_metadata, DataDeviceEvent, DragAction,
    DataSourceData, SourceRequest, UnmanagedResource,
};
use smithay::wayland::decoration::{
    init_decoration_manager, DecorationMode, ToplevelDecoration, MODE_CLIENT_SIDE, MODE_SERVER_SIDE,
};
use smithay::wayland::shm::{
    create_pool, mapping_failed, pool_offset, resize_failed, resize_pool, BufferData, CreateBuffer,
    CreatePool, ErrorCode, PoolMapping, ProtocolError, ResizeError, ShmState, FORMAT_ARGB8888_NEW,
    FORMAT_XRGB8888_NEW,
};
use wayland_protocols::xdg::decoration::zv1::server::zxdg_toplevel_decoration_v1::Mode;
use wayland_server::protocol::wl_data_device_manager::DndAction;
use wayland_server::protocol::wl_shm::Format;

fn complaint<T>(result: Result<T, ProtocolError>) -> (ErrorCode, String) {
    match result {
        Ok(_) => panic!("the request is refused"),
        Err(error) => (error.code, error.message),
    }
}

#[test]
fn pools_are_created() {
    assert_eq!(
        create_pool(&CreatePool::CreatePool { size: 10 }).unwrap(),
        PoolMapping { size: 10, offset: 0 }
    );
    for size in [0, -1, i32::MIN] {
        assert_eq!(
            complaint(create_pool(&CreatePool::CreatePool { size })),
            (ErrorCode::InvalidStride, "wl_shm_pool size is zero".to_string())
        );
    }
    let request = CreatePool::CreatePool2 { size: 7, offset_lo: 5, offset_hi: 0 };
    assert_eq!(create_pool(&request).unwrap(), PoolMapping { size: 7, offset: 5 });
}

#[test]
fn offsets_are_joined() {
    assert_eq!(pool_offset(5, 0), 5);
    if isize::BITS == 64 {
        assert_eq!(pool_offset(5, 2) as i64, 0x2_0000_0005);
        assert_eq!(pool_offset(u32::MAX, u32::MAX), -1);
    } else {
        assert_eq!(pool_offset(5, 2), 5);
    }
}

#[test]
fn pool_errors() {
    let error = mapping_failed(-3);
    assert_eq!(error.code, ErrorCode::InvalidFd);
    assert_eq!(error.message, "Failed to mmap fd -3");
    assert_eq!(resize_pool(1, 20).unwrap(), 20);
    assert_eq!(
        complaint(resize_pool(2, 20)),
        (
            ErrorCode::AlreadyMapped,
            "tried to resize version 2 pool after the pool has been mapped".to_string()
        )
    );
    assert_eq!(
        complaint(resize_pool(1, 0)),
        (ErrorCode::InvalidFd, "invalid wl_shm_pool size".to_string())
    );
    assert_eq!(resize_failed(ResizeError::InvalidSize).message, "cannot shrink wl_shm_pool");
    assert_eq!(resize_failed(ResizeError::MremapFailed).message, "mremap failed");
    assert_eq!(resize_failed(ResizeError::MremapFailed).code, ErrorCode::InvalidFd);
}

fn state() -> ShmState {
    ShmState { formats: vec![0, 1, FORMAT_ARGB8888_NEW, FORMAT_XRGB8888_NEW] }
}

const BUFFER: CreateBuffer =
    CreateBuffer { offset: 0, width: 4, height: 2, stride: 16, format: 0 };

#[test]
fn formats_are_sent_by_version() {
    assert_eq!(state().bind(1), vec![0, 1]);
    assert_eq!(state().bind(2), vec![0, 1, FORMAT_ARGB8888_NEW, FORMAT_XRGB8888_NEW]);
}

#[test]
fn buffers_are_accepted() {
    let request = CreateBuffer { offset: 68, ..BUFFER };
    assert_eq!(
        state().create_buffer(&request, 100).unwrap(),
        BufferData { offset: 68, width: 4, height: 2, stride: 16, format: 0 }
    );
    let new = CreateBuffer { format: FORMAT_ARGB8888_NEW, ..BUFFER };
    assert!(state().create_buffer(&new, 100).is_ok());
}

fn refused(request: CreateBuffer, pool_size: usize) -> (ErrorCode, String) {
    assert!(request.can_measure_room(pool_size));
    complaint(state().create_buffer(&request, pool_size))
}

fn stride_error(message: &str) -> (ErrorCode, String) {
    (ErrorCode::InvalidStride, message.to_string())
}

#[test]
fn buffers_are_refused() {
    assert_eq!(
        refused(CreateBuffer { offset: -1, width: 0, ..BUFFER }, 100),
        stride_error("offset must not be negative")
    );
    assert_eq!(
        refused(CreateBuffer { width: 0, ..BUFFER }, 100),
        stride_error("invalid width or height (0x2)")
    );
    assert_eq!(
        refused(CreateBuffer { height: -7, ..BUFFER }, 100),
        stride_error("invalid width or height (4x-7)")
    );
    assert_eq!(
        refused(CreateBuffer { stride: 3, ..BUFFER }, 100),
        stride_error("width must not be larger than stride (width 4, stride 3)")
    );
    assert_eq!(
        refused(CreateBuffer { stride: 0x4000_0000, height: 2, ..BUFFER }, 100),
        stride_error("height is too large for stride (max 1)")
    );
    assert_eq!(
        refused(CreateBuffer { offset: 69, ..BUFFER }, 100),
        stride_error("offset is too large")
    );
    assert_eq!(refused(BUFFER, 31), stride_error("offset is too large"));
}

#[test]
fn formats_are_refused() {
    assert_eq!(
        refused(CreateBuffer { format: 0xabcd, ..BUFFER }, 100),
        (ErrorCode::InvalidFormat, "unknown format 0xabcd".to_string())
    );
    let rgb565 = u32::from(Format::Rgb565);
    assert_eq!(
        refused(CreateBuffer { format: rgb565, ..BUFFER }, 100),
        (ErrorCode::InvalidFormat, "format Rgb565 not supported".to_string())
    );
    let few = ShmState { formats: vec![0] };
    let request = CreateBuffer { format: FORMAT_XRGB8888_NEW, ..BUFFER };
    assert_eq!(
        complaint(few.create_buffer(&request, 100)),
        (ErrorCode::InvalidFormat, "format Xrgb8888New not supported".to_string())
    );
}

#[test]
fn room_that_cannot_be_told() {
    let request = CreateBuffer { height: 0x7ff_ffff, ..BUFFER };
    assert!(request.can_measure_room(0x7fff_ffff));
    assert!(!request.can_measure_room(0x8000_0000));
    assert!(CreateBuffer { height: 0, ..BUFFER }.can_measure_room(0x8000_0000));
}

#[test]
fn sources_offer_types_and_actions() {
    let mut data = DataSourceData::new();
    let source = &mut data.meta;
    assert!(source.mime_types.is_empty());
    assert_eq!(source.dnd_action, u32::from(DndAction::empty()));
    source.request(SourceRequest::Offer { mime_type: "text/plain".to_string() });
    source.request(SourceRequest::Offer { mime_type: "text/html".to_string() });
    assert_eq!(source.mime_types, vec!["text/plain", "text/html"]);
    source.request(SourceRequest::SetActions { dnd_actions: 0xffff_fffb });
    assert_eq!(source.dnd_action, u32::from(DndAction::Copy | DndAction::Move));
    source.request(SourceRequest::Destroy);
    assert_eq!(source.dnd_action, 3);
    assert_eq!(with_source_metadata(Some(&data)).unwrap().mime_types.len(), 2);
    assert_eq!(with_source_metadata(None).err(), Some(UnmanagedResource));
}

#[test]
fn drags_need_a_grab_and_an_icon() {
    assert_eq!(start_drag(Some(true), Some(4)), DragAction::GiveRole(4));
    assert_eq!(start_drag(Some(true), None), DragAction::Ignore);
    assert_eq!(start_drag(Some(false), Some(4)), DragAction::Ignore);
    assert_eq!(start_drag(None, Some(4)), DragAction::Ignore);
    assert_eq!(drag_icon_ready(false, Some(1), 4, 9), DragAction::PostRoleError);
    assert_eq!(
        drag_icon_ready(true, Some(1), 4, 9),
        DragAction::Start(DataDeviceEvent::DnDStarted { source: Some(1), icon: 4, seat: 9 })
    );
}

#[test]
fn selection_needs_the_focus() {
    assert_eq!(set_selection(Some(true), Some(1)), Some(DataDeviceEvent::NewSelection(Some(1))));
    assert_eq!(set_selection(Some(true), None), Some(DataDeviceEvent::NewSelection(None)));
    assert_eq!(set_selection(Some(false), Some(1)), None);
    assert_eq!(set_selection(None, Some(1)), None);
}

#[test]
fn decoration_modes() {
    assert_eq!(u32::from(Mode::ClientSide), MODE_CLIENT_SIDE);
    assert_eq!(u32::from(Mode::ServerSide), MODE_SERVER_SIDE);
    assert_eq!(DecorationMode::from_protocol(1), Some(DecorationMode::ClientSide));
    assert_eq!(DecorationMode::from_protocol(2), Some(DecorationMode::ServerSide));
    assert_eq!(DecorationMode::from_protocol(0), None);
    assert_eq!(DecorationMode::from_protocol(3), None);
    assert_eq!(DecorationMode::ClientSide.to_protocol(), 1);
    assert_eq!(DecorationMode::ServerSide.to_protocol(), 2);
}

#[test]
fn decorations_are_found() {
    let mut manager = init_decoration_manager();
    assert!(manager.decorations().is_empty());
    let client = DecorationMode::ClientSide;
    for (inner, surface) in [(1, 10), (2, 20), (3, 20)] {
        manager.decorations.push(ToplevelDecoration { inner, surface, mode: client });
    }
    assert_eq!(manager.get_decoration(20).unwrap().inner, 2);
    assert!(manager.get_decoration(30).is_none());
    let configure = manager.decorations[0].set_mode(DecorationMode::ServerSide);
    assert_eq!((configure.inner, configure.mode), (1, 2));
    assert_eq!(manager.decorations()[0].mode(), DecorationMode::ServerSide);
    assert_eq!(manager.decorations()[0].surface(), 10);
}
