use smithay::backend::renderer::{
    buffer_dimensions, buffer_type, import_buffer, mandatory_shm_formats, BufferImport, BufferInfo,
    BufferType, Matrix, Texture, Transform,
};
use smithay::backend::renderer::vulkan::VulkanImage;
use smithay::utils::{DoubleBuffered, Rectangle, Size};
use smithay::wayland::foreign_toplevel::state::ToplevelState;
use wayland_server::protocol::{wl_output, wl_shm};

const ALL: [Transform; 8] = [
    Transform::Normal,
    Transform::_90,
    Transform::_180,
    Transform::_270,
    Transform::Flipped,
    Transform::Flipped90,
    Transform::Flipped180,
    Transform::Flipped270,
];

#[test]
fn transforms_are_numbered_by_the_protocol() {
    for (code, transform) in ALL.iter().enumerate() {
        assert_eq!(Transform::from_protocol(code as u32), Some(*transform));
    }
    assert_eq!(Transform::from_protocol(8), None);
    assert_eq!(Transform::from_protocol(u32::MAX), None);
    assert_eq!(
        Transform::from_protocol(wl_output::Transform::Flipped90.into()),
        Some(Transform::Flipped90)
    );
}

#[test]
fn inverting() {
    assert_eq!(Transform::_90.invert(), Transform::_270);
    assert_eq!(Transform::_270.invert(), Transform::_90);
    assert_eq!(Transform::_180.invert(), Transform::_180);
    assert_eq!(Transform::Flipped90.invert(), Transform::Flipped270);
    assert_eq!(Transform::Flipped.invert(), Transform::Flipped);
    for transform in ALL {
        assert_eq!(transform.invert().invert(), transform);
        let (w, h) = transform.transform_size(3, 4);
        assert_eq!(transform.invert().transform_size(w, h), (3, 4));
    }
}

#[test]
fn sizes_are_transformed() {
    assert_eq!(Transform::Normal.transform_size(3, 4), (3, 4));
    assert_eq!(Transform::_180.transform_size(3, 4), (3, 4));
    assert_eq!(Transform::Flipped.transform_size(3, 4), (3, 4));
    assert_eq!(Transform::Flipped180.transform_size(3, 4), (3, 4));
    assert_eq!(Transform::_90.transform_size(3, 4), (4, 3));
    assert_eq!(Transform::_270.transform_size(3, 4), (4, 3));
    assert_eq!(Transform::Flipped90.transform_size(3, 4), (4, 3));
    assert_eq!(Transform::Flipped270.transform_size(3, 4), (4, 3));
}

fn linear(x: (i32, i32), y: (i32, i32)) -> Matrix {
    Matrix { x: (x.0, x.1, 0), y: (y.0, y.1, 0), z: (0, 0, 1) }
}

fn apply(m: Matrix, p: (i32, i32)) -> (i32, i32) {
    (m.x.0 * p.0 + m.y.0 * p.1, m.x.1 * p.0 + m.y.1 * p.1)
}

#[test]
fn projection_matrices() {
    assert_eq!(Transform::Normal.matrix(), linear((1, 0), (0, 1)));
    assert_eq!(Transform::_90.matrix(), linear((0, -1), (1, 0)));
    assert_eq!(Transform::_180.matrix(), linear((-1, 0), (0, -1)));
    assert_eq!(Transform::_270.matrix(), linear((0, 1), (-1, 0)));
    assert_eq!(Transform::Flipped.matrix(), linear((-1, 0), (0, 1)));
    assert_eq!(Transform::Flipped90.matrix(), linear((0, 1), (1, 0)));
    assert_eq!(Transform::Flipped180.matrix(), linear((1, 0), (0, -1)));
    assert_eq!(Transform::Flipped270.matrix(), linear((0, -1), (-1, 0)));
}

#[test]
fn inverse_undoes_projection() {
    for transform in ALL {
        let moved = apply(transform.matrix(), (3, 4));
        let back = apply(transform.invert().matrix(), moved);
        if transform == Transform::Flipped90 || transform == Transform::Flipped270 {
            assert_eq!(back, (-3, -4));
        } else {
            assert_eq!(back, (3, 4));
        }
        let size = transform.transform_size(3, 4);
        assert_eq!((moved.0.unsigned_abs(), moved.1.unsigned_abs()), size);
    }
}

#[test]
fn texture_size() {
    let image = VulkanImage { id: 0, width: 5, height: 6, vk_format: 44, drm_format: None };
    assert_eq!((image.width(), image.height()), (5, 6));
    assert_eq!(image.size(), (5, 6));
}

#[test]
fn mandatory_formats() {
    assert_eq!(
        mandatory_shm_formats(),
        vec![u32::from(wl_shm::Format::Argb8888), u32::from(wl_shm::Format::Xrgb8888)]
    );
}

#[test]
fn buffer_types() {
    let all = BufferInfo { dmabuf: Some((1, 2)), egl: Some((3, 4)), shm: Some((5, 6)) };
    assert_eq!(buffer_type(&all), Some(BufferType::Dma));
    assert_eq!(buffer_dimensions(&all), Some((1, 2)));
    assert_eq!(import_buffer(&all), None);
    let egl = BufferInfo { dmabuf: None, ..all };
    assert_eq!(buffer_type(&egl), Some(BufferType::Egl));
    assert_eq!(buffer_dimensions(&egl), Some((3, 4)));
    assert_eq!(import_buffer(&egl), Some(BufferImport::Egl));
    let shm = BufferInfo { egl: None, ..egl };
    assert_eq!(buffer_type(&shm), Some(BufferType::Shm));
    assert_eq!(buffer_dimensions(&shm), Some((5, 6)));
    assert_eq!(import_buffer(&shm), Some(BufferImport::Shm));
    let none = BufferInfo { shm: None, ..shm };
    assert_eq!(buffer_type(&none), None);
    assert_eq!(buffer_dimensions(&none), None);
    assert_eq!(import_buffer(&none), None);
    let large = BufferInfo { dmabuf: Some((u32::MAX, 0x8000_0000)), egl: None, shm: None };
    assert_eq!(buffer_dimensions(&large), Some((-1, i32::MIN)));
}

#[test]
fn rectangles() {
    let r = Rectangle::from_loc_and_size((1, 2), Size { w: 3, h: 4 });
    assert_eq!((r.loc.x, r.loc.y, r.size.w, r.size.h), (1, 2, 3, 4));
}

#[test]
fn double_buffering() {
    let mut buffered = DoubleBuffered::<ToplevelState>::new();
    assert_eq!(buffered.pending().title, "");
    assert!(buffered.current().is_none());
    buffered.pending_mut().title = "one".to_string();
    assert!(buffered.current().is_none());
    assert_eq!(buffered.apply_pending().title, "one");
    assert_eq!(buffered.current().unwrap().title, "one");
    buffered.pending_mut().title = "two".to_string();
    buffered.pending_mut().outputs.push(3);
    assert_eq!(buffered.current().unwrap().title, "one");
    assert_eq!(buffered.apply_pending().title, "two");
    assert_eq!(buffered.current().unwrap().outputs, vec![3]);
    assert_eq!(buffered.pending().title, "two");
}
