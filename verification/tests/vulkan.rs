use ash::vk;
use drm_fourcc::{DrmFourcc, DrmModifier};
use smithay::backend::allocator::{self, DrmFormat};
use smithay::backend::renderer::vulkan::device::{Device, DeviceError};
use smithay::backend::renderer::vulkan::extension::{
    version_1_2, version_1_3, DmabufMemoryFns, ExtensionFns, MaybePromoted, Version,
};
use smithay::backend::renderer::vulkan::format::{
    classify_format_query, drm_format_query, init_formats, queries_format, shm_format_query,
    wl_shm_format, Asked, FormatReply, ModifierProperties, ModifierReply, ShmFormatProperties,
    ERROR_FORMAT_NOT_SUPPORTED, IMAGE_TILING_DRM_FORMAT_MODIFIER, VK_FORMAT_A4R4G4B4_UNORM_PACK16,
    VK_FORMAT_B4G4R4A4_UNORM_PACK16,
};
use smithay::backend::renderer::vulkan::image::{
    allocation_scheme, common_image_validation, fits_creation_limits, plan_image_allocation,
    plan_mem_image,
    AllocationScheme, ImageFormatProperties, IMAGE_LAYOUT_UNDEFINED, IMAGE_TILING_OPTIMAL,
    IMAGE_TYPE_2D, IMAGE_USAGE_SAMPLED, IMAGE_USAGE_TRANSFER_DST, IMAGE_USAGE_TRANSFER_SRC,
    MEM_IMAGE_USAGE, SAMPLE_COUNT_1,
};
use smithay::backend::renderer::vulkan::instance::{Instance, InstanceError, API_VERSION_1_1};
use smithay::backend::renderer::vulkan::liveness::{all_released, Liveness};
use smithay::backend::renderer::vulkan::memory::memory_import_size;
use smithay::backend::renderer::vulkan::physical_device::{
    DrmNode, DrmProperties, EnumerateDevicesError, NodeType, PhysicalDevice,
};
use smithay::backend::renderer::vulkan::renderer::{
    allocator_properties, valid_memory_types, CommandSubmission, Error, FeatureQuery, MemoryType,
    PhysicalDeviceFeatures, RendererCreateInfo, Resource, TimelineRenderer, KNOWN_MEMORY_FLAGS,
};
use smithay::backend::renderer::vulkan::setup::{
    candidate_mem_formats, graphics_queue_family, supported_formats, DeviceReport, FormatReport,
    COMMAND_BUFFER_COUNT, QUEUE_GRAPHICS,
};
use smithay::backend::renderer::vulkan::staging::{
    MemoryLocation, BUFFER_USAGE_TRANSFER_SRC, SHARING_MODE_EXCLUSIVE, STAGING_BUFFER_SIZE,
};
use smithay::backend::renderer::vulkan::{
    Limits, StagingBuffer, VulkanImage, VulkanRenderer,
};
use smithay::backend::renderer::Texture;
use smithay::utils::{Rectangle, Size};

fn names(list: &[&str]) -> Vec<String> {
    list.iter().map(|s| s.to_string()).collect()
}

#[test]
fn constants_are_those_of_vulkan() {
    assert_eq!(vk::ImageUsageFlags::TRANSFER_SRC.as_raw(), IMAGE_USAGE_TRANSFER_SRC);
    assert_eq!(vk::ImageUsageFlags::TRANSFER_DST.as_raw(), IMAGE_USAGE_TRANSFER_DST);
    assert_eq!(vk::ImageUsageFlags::SAMPLED.as_raw(), IMAGE_USAGE_SAMPLED);
    assert_eq!(
        IMAGE_USAGE_TRANSFER_SRC | IMAGE_USAGE_TRANSFER_DST | IMAGE_USAGE_SAMPLED,
        MEM_IMAGE_USAGE
    );
    assert_eq!(vk::SampleCountFlags::TYPE_1.as_raw(), SAMPLE_COUNT_1);
    assert_eq!(vk::ImageType::TYPE_2D.as_raw(), IMAGE_TYPE_2D);
    assert_eq!(vk::ImageTiling::OPTIMAL.as_raw(), IMAGE_TILING_OPTIMAL);
    assert_eq!(
        vk::ImageTiling::DRM_FORMAT_MODIFIER_EXT.as_raw(),
        IMAGE_TILING_DRM_FORMAT_MODIFIER
    );
    assert_eq!(vk::ImageLayout::UNDEFINED.as_raw(), IMAGE_LAYOUT_UNDEFINED);
    assert_eq!(vk::SharingMode::EXCLUSIVE.as_raw(), SHARING_MODE_EXCLUSIVE);
    assert_eq!(vk::BufferUsageFlags::TRANSFER_SRC.as_raw(), BUFFER_USAGE_TRANSFER_SRC);
    assert_eq!(vk::QueueFlags::GRAPHICS.as_raw(), QUEUE_GRAPHICS);
    assert_eq!(vk::Result::ERROR_FORMAT_NOT_SUPPORTED.as_raw(), ERROR_FORMAT_NOT_SUPPORTED);
    assert_eq!(vk::Format::A4R4G4B4_UNORM_PACK16.as_raw(), VK_FORMAT_A4R4G4B4_UNORM_PACK16);
    assert_eq!(vk::Format::B4G4R4A4_UNORM_PACK16.as_raw(), VK_FORMAT_B4G4R4A4_UNORM_PACK16);
    assert_eq!(vk::API_VERSION_1_1, API_VERSION_1_1);
    let known = vk::MemoryPropertyFlags::DEVICE_LOCAL
        | vk::MemoryPropertyFlags::HOST_VISIBLE
        | vk::MemoryPropertyFlags::HOST_COHERENT
        | vk::MemoryPropertyFlags::HOST_CACHED
        | vk::MemoryPropertyFlags::LAZILY_ALLOCATED;
    assert_eq!(known.as_raw(), KNOWN_MEMORY_FLAGS);
    assert_eq!(COMMAND_BUFFER_COUNT, 4);
    assert_eq!(STAGING_BUFFER_SIZE, 1024 * 1024 * 4);
}

#[test]
fn formats_are_those_of_drm() {
    let expected = vec![
        DrmFourcc::Argb8888 as u32,
        DrmFourcc::Bgra8888 as u32,
        DrmFourcc::Rgba8888 as u32,
        DrmFourcc::Xbgr8888 as u32,
        DrmFourcc::Argb2101010 as u32,
        DrmFourcc::Bgra1010102 as u32,
        DrmFourcc::Rgba1010102 as u32,
        DrmFourcc::Xrgb2101010 as u32,
    ];
    assert_eq!(candidate_mem_formats(), expected);
    assert_eq!(allocator::FOURCC_XRGB8888, DrmFourcc::Xrgb8888 as u32);
}

fn device(extensions: &[&str], queue_flags: Vec<u32>) -> DeviceReport {
    DeviceReport {
        extensions: names(extensions),
        queue_flags,
        max_framebuffer_width: 100,
        max_framebuffer_height: 200,
        max_buffer_size: 300,
    }
}

#[test]
fn device_is_planned() {
    let report = device(&["VK_KHR_dedicated_allocation"], vec![2, 4, 3, 1]);
    assert!(report.is_usable());
    let plan = VulkanRenderer::plan(&report);
    assert_eq!(plan.queue_family_index, 2);
    assert_eq!(
        plan.extensions,
        vec![vk::KhrDedicatedAllocationFn::name().to_str().unwrap().to_string()]
    );
    assert_eq!(plan.limits.max_framebuffer_width, 100);
    assert_eq!(plan.limits.max_framebuffer_height, 200);
    assert_eq!(plan.limits.max_buffer_size, u64::MAX);
    assert_eq!((plan.command_buffer_count, plan.staging_buffer_size), (4, 4_194_304));
    let maintenance = vk::KhrMaintenance4Fn::name().to_str().unwrap();
    let report = device(&["VK_KHR_dedicated_allocation", maintenance], vec![1]);
    assert_eq!(VulkanRenderer::plan(&report).limits.max_buffer_size, 300);
    assert!(!device(&["VK_KHR_maintenance4"], vec![1]).is_usable());
    assert!(!device(&["VK_KHR_dedicated_allocation"], vec![2, 4]).is_usable());
}

#[test]
fn queue_families() {
    assert_eq!(graphics_queue_family(&vec![]), None);
    assert_eq!(graphics_queue_family(&vec![2, 6]), None);
    assert_eq!(graphics_queue_family(&vec![2, 7, 1]), Some(1));
    assert_eq!(TimelineRenderer::select_queue(&vec![2, 7, 1]), Ok(1));
    assert_eq!(TimelineRenderer::select_queue(&vec![2]), Err(Error::NoQueue));
}

#[test]
fn formats_for_memory() {
    let reports = vec![
        FormatReport { vk_format: Some(44), max_depth: Some(1) },
        FormatReport { vk_format: None, max_depth: Some(1) },
        FormatReport { vk_format: Some(45), max_depth: Some(2) },
        FormatReport { vk_format: Some(46), max_depth: None },
        FormatReport { vk_format: Some(44), max_depth: Some(1) },
        FormatReport { vk_format: Some(47), max_depth: Some(1) },
    ];
    assert_eq!(supported_formats(&reports), vec![44, 47]);
}

fn staging_buffer(n: u64) -> StagingBuffer {
    StagingBuffer::new(n, n + 1, n + 2, n + 3, STAGING_BUFFER_SIZE)
}

fn renderer() -> VulkanRenderer {
    let limits = Limits {
        max_framebuffer_width: 100,
        max_framebuffer_height: 100,
        max_buffer_size: 5_000_000,
    };
    VulkanRenderer::new(
        limits,
        vec![11, 12, 13, 14],
        vec![44],
        (staging_buffer(20), staging_buffer(30)),
    )
}

const LIMITS: ImageFormatProperties = ImageFormatProperties {
    max_width: 64,
    max_height: 32,
    max_depth: 1,
    max_mip_levels: 1,
    max_array_layers: 1,
    sample_counts: 5,
};

#[test]
fn images_are_validated() {
    assert!(common_image_validation(Some(44), &Size { w: 1, h: 1 }));
    assert!(!common_image_validation(None, &Size { w: 1, h: 1 }));
    assert!(!common_image_validation(Some(44), &Size { w: 0, h: 1 }));
    assert!(!common_image_validation(Some(44), &Size { w: 1, h: -1 }));
    let size = Size { w: 64, h: 32 };
    assert!(fits_creation_limits(&size, &LIMITS));
    assert!(!fits_creation_limits(&Size { w: 65, h: 32 }, &LIMITS));
    assert!(!fits_creation_limits(&Size { w: 64, h: 33 }, &LIMITS));
    assert!(!fits_creation_limits(&size, &ImageFormatProperties { max_depth: 0, ..LIMITS }));
    assert!(!fits_creation_limits(&size, &ImageFormatProperties { max_mip_levels: 0, ..LIMITS }));
    assert!(!fits_creation_limits(&size, &ImageFormatProperties { max_array_layers: 0, ..LIMITS }));
    assert!(!fits_creation_limits(&size, &ImageFormatProperties { sample_counts: 4, ..LIMITS }));
    let info = plan_mem_image(44, &size, &LIMITS);
    assert_eq!((info.width, info.height, info.depth), (64, 32, 1));
    assert_eq!((info.format, info.usage, info.samples), (44, 7, 1));
    assert_eq!((info.mip_levels, info.array_layers, info.flags), (1, 1, 0));
}

#[test]
fn memory_of_images() {
    assert_eq!(allocation_scheme(5, true, false), AllocationScheme::DedicatedImage(5));
    assert_eq!(allocation_scheme(5, false, true), AllocationScheme::DedicatedImage(5));
    assert_eq!(allocation_scheme(5, false, false), AllocationScheme::GpuAllocatorManaged);
    let allocation = plan_image_allocation(5, true, false);
    assert_eq!(allocation.location, MemoryLocation::GpuOnly);
    assert!(!allocation.linear);
    assert_eq!(allocation.scheme, AllocationScheme::DedicatedImage(5));
}

fn import(renderer: &mut VulkanRenderer, handle: u64) -> (VulkanImage, Option<u64>) {
    let info = plan_mem_image(44, &Size { w: 4, h: 2 }, &LIMITS);
    assert!(VulkanRenderer::can_import_memory(&info, 32, 32));
    assert!(!VulkanRenderer::can_import_memory(&info, 31, 32));
    renderer.import_memory(allocator::FOURCC_ARGB8888, &info, handle, handle + 1, 32, 32)
}

#[test]
fn images_live_as_long_as_they_are_used() {
    let mut renderer = renderer();
    assert_eq!(renderer.next_image_name(), "Memory Image 0");
    let (image, begun) = import(&mut renderer, 50);
    assert_eq!(begun, Some(11));
    assert_eq!(image.size(), (4, 2));
    assert_eq!(image.format(), Some(allocator::FOURCC_ARGB8888));
    assert_eq!(image.vk_format(), 44);
    assert_eq!(renderer.images[&0].refcount, 2);
    let copy = renderer.clone_image(&image);
    assert_eq!(renderer.images[&0].refcount, 3);
    renderer.drop_image(copy);
    renderer.drop_image(image);
    assert_eq!(renderer.images[&0].refcount, 1);
    // The upload keeps the image alive.
    assert!(renderer.cleanup_images(false).is_empty());
    assert_eq!(renderer.submit_staging_buffers(), Some(11));
    assert_eq!(renderer.submit_staging_buffers(), None);
    assert!(renderer.destroy_images().is_empty());
    let finished = renderer.cleanup_submission().unwrap();
    assert_eq!(finished.command_buffer, 11);
    assert!(finished.upload_overflow.is_empty());
    assert_eq!(renderer.images_pending_destruction, vec![0]);
    let destroyed = renderer.destroy_images();
    assert_eq!(destroyed.len(), 1);
    assert_eq!((destroyed[0].id, destroyed[0].image), (0, 50));
    assert_eq!(destroyed[0].underlying_memory, Some(51));
    assert!(renderer.cleanup_submission().is_none());
    assert_eq!(renderer.command_buffers.iter().copied().collect::<Vec<_>>(), vec![12, 13, 14, 11]);
    assert_eq!(renderer.next_image_name(), "Memory Image 1");
}

#[test]
fn uploads_share_a_command_buffer() {
    let mut renderer = renderer();
    let (first, _) = import(&mut renderer, 50);
    let (second, begun) = import(&mut renderer, 60);
    assert_eq!(begun, None);
    assert_eq!(second.id, 1);
    let region = Rectangle::from_loc_and_size((0, 0), Size { w: 4, h: 2 });
    assert_eq!(renderer.update_memory(&first, 32, &region, 32), None);
    assert_eq!(renderer.images[&0].refcount, 3);
    assert_eq!(renderer.staging.as_ref().unwrap().uploads.len(), 3);
    assert_eq!(renderer.staging.as_ref().unwrap().upload_buffer.cpu, 20);
    assert!(!renderer.needs_staging_buffer());
    let torn = renderer.teardown();
    assert!(torn.finished.is_empty());
    let mut ids: Vec<u64> = torn.images.iter().map(|image| image.id).collect();
    ids.sort();
    assert_eq!(ids, vec![0, 1]);
    assert_eq!(torn.staging_buffers.len(), 1);
}

#[test]
fn finished_uploads_release_images_in_order() {
    let mut renderer = renderer();
    let (first, _) = import(&mut renderer, 50);
    let (second, _) = import(&mut renderer, 60);
    renderer.submit_staging_buffers();
    renderer.drop_image(second);
    renderer.drop_image(first);
    assert!(renderer.staging.is_none());
    renderer.cleanup_submission();
    assert_eq!(renderer.images_pending_destruction, vec![0, 1]);
    let staging: Vec<u64> = renderer.staging_buffers.iter().map(|b| b.cpu).collect();
    assert_eq!(staging, vec![30, 20]);
    assert_eq!(renderer.cleanup_images(false).len(), 2);
    // They are known no longer, so there is nothing left to destroy.
    assert!(renderer.destroy_images().is_empty());
}

#[test]
fn teardown_gives_everything_back() {
    let mut renderer = renderer();
    let _kept = import(&mut renderer, 50);
    renderer.submit_staging_buffers();
    let torn = renderer.teardown();
    assert_eq!(torn.finished.len(), 1);
    assert_eq!(torn.finished[0].command_buffer, 11);
    assert_eq!(torn.images.len(), 1);
    let staging: Vec<u64> = torn.staging_buffers.iter().map(|b| b.cpu).collect();
    assert_eq!(staging, vec![30, 20]);
}

#[test]
fn uploads_are_checked() {
    let image = VulkanImage { id: 0, width: 4, height: 2, vk_format: 44, drm_format: None };
    let region = |x, y, w, h| Rectangle::from_loc_and_size((x, y), Size { w, h });
    assert!(VulkanRenderer::can_update_memory(&image, 32, &region(0, 0, 4, 2), 32));
    assert!(!VulkanRenderer::can_update_memory(&image, 31, &region(0, 0, 4, 2), 32));
    assert!(VulkanRenderer::can_update_memory(&image, 24, &region(1, 1, 0, 0), 31));
    assert!(!VulkanRenderer::can_update_memory(&image, 32, &region(-1, 0, 4, 2), 32));
    assert!(!VulkanRenderer::can_update_memory(&image, 32, &region(0, 0, 5, 2), 32));
    assert!(!VulkanRenderer::can_update_memory(&image, 32, &region(0, 0, 4, 3), 32));
    assert!(!VulkanRenderer::can_update_memory(&image, 32, &region(0, 0, -4, 2), 32));
}

#[test]
fn staging_buffers_are_planned() {
    let mut renderer = renderer();
    assert!(renderer.can_allocate_staging_buffer(STAGING_BUFFER_SIZE));
    assert!(!renderer.can_allocate_staging_buffer(0));
    assert!(!renderer.can_allocate_staging_buffer(5_000_001));
    let plan = renderer.allocate_staging_buffer(100);
    assert_eq!((plan.cpu.buffer.size, plan.cpu.buffer.usage), (100, 1));
    assert_eq!(plan.cpu.allocation.location, MemoryLocation::CpuToGpu);
    assert_eq!(plan.gpu.allocation.location, MemoryLocation::GpuOnly);
    for part in [plan.cpu, plan.gpu] {
        assert!(part.allocation.linear);
        assert_eq!(part.allocation.scheme, AllocationScheme::GpuAllocatorManaged);
    }
    assert_eq!(plan.cpu.allocation_name, "CPU side memory image staging buffer");
    assert_eq!(plan.gpu.object_name, "GPU side image staging buffer");
    assert_eq!(renderer.init_staging(), Some(11));
    assert_eq!(renderer.init_staging(), None);
    renderer.submit_staging_buffers();
    assert_eq!(renderer.init_staging(), Some(12));
    renderer.submit_staging_buffers();
    assert!(renderer.needs_staging_buffer());
    renderer.add_staging_buffer(staging_buffer(40));
    assert!(!renderer.needs_staging_buffer());
    assert_eq!(renderer.init_staging(), Some(13));
}

#[test]
fn memory_import_sizes() {
    assert_eq!(memory_import_size(100, &Size { w: 5, h: 5 }), Ok(100));
    assert_eq!(memory_import_size(1000, &Size { w: 5, h: 5 }), Ok(100));
    assert_eq!(memory_import_size(99, &Size { w: 5, h: 5 }), Err(Error::UnsupportedFormat));
    assert_eq!(memory_import_size(0, &Size { w: 0, h: 5 }), Ok(0));
    assert_eq!(memory_import_size(100, &Size { w: -5, h: 5 }), Err(Error::UnsupportedFormat));
    assert_eq!(memory_import_size(100, &Size { w: 5, h: -5 }), Err(Error::UnsupportedFormat));
    let huge = Size { w: i32::MAX, h: i32::MAX };
    assert_eq!(memory_import_size(usize::MAX / 2, &huge), Err(Error::UnsupportedFormat));
}

fn version(minor: u32, patch: u32) -> Version {
    Version { major: 1, minor, patch }
}

#[test]
fn versions() {
    assert!(version(2, 0).at_least(&version_1_2()));
    assert!(version(2, 1).at_least(&version_1_2()));
    assert!(!version(1, 250).at_least(&version_1_2()));
    assert!(version(3, 0).at_least(&version_1_3()));
    assert!(Version { major: 2, minor: 0, patch: 0 }.at_least(&version_1_3()));
    assert!(!Version { major: 0, minor: 9, patch: 9 }.at_least(&version_1_2()));
}

#[test]
fn dmabuf_functions() {
    let mut enabled = vec![
        vk::ExtImageDrmFormatModifierFn::name().to_str().unwrap().to_string(),
        vk::ExtExternalMemoryDmaBufFn::name().to_str().unwrap().to_string(),
        vk::KhrExternalMemoryFdFn::name().to_str().unwrap().to_string(),
    ];
    assert_eq!(DmabufMemoryFns::load(&version(2, 0), &enabled), Some(DmabufMemoryFns));
    assert_eq!(DmabufMemoryFns::load(&version(1, 0), &enabled), None);
    for i in 0..3 {
        let mut fewer = enabled.clone();
        fewer.remove(i);
        assert_eq!(DmabufMemoryFns::load(&version(2, 0), &fewer), None);
    }
    enabled.push(vk::KhrImageFormatListFn::name().to_str().unwrap().to_string());
    let functions = ExtensionFns::load(&version(1, 0), &enabled);
    assert_eq!(functions.dmabuf_external_memory, Some(DmabufMemoryFns));
    assert_eq!(functions.khr_timeline_semaphore, MaybePromoted::Extension);
    let functions = ExtensionFns::load(&version(2, 0), &vec![]);
    assert_eq!(functions.dmabuf_external_memory, None);
    assert_eq!(functions.khr_timeline_semaphore, MaybePromoted::Promoted);
}

#[test]
fn formats_of_extensions_are_asked_for_only_if_enabled() {
    let name = vk::Ext4444FormatsFn::name().to_str().unwrap();
    let enabled = names(&[name]);
    assert!(queries_format(&version(0, 0), &vec![], 44));
    for format in [VK_FORMAT_A4R4G4B4_UNORM_PACK16, VK_FORMAT_B4G4R4A4_UNORM_PACK16] {
        assert!(queries_format(&version(3, 0), &enabled, format));
        assert!(queries_format(&version(2, 9), &enabled, format));
        assert!(queries_format(&version(3, 0), &vec![], format));
        assert!(!queries_format(&version(2, 9), &vec![], format));
    }
    assert!(FeatureQuery::from_extensions(&version(2, 0), &enabled).formats_4444);
    assert!(FeatureQuery::from_extensions(&version(2, 1), &enabled).formats_4444);
    assert!(!FeatureQuery::from_extensions(&version(3, 0), &enabled).formats_4444);
    assert!(!FeatureQuery::from_extensions(&version(1, 0), &vec![]).formats_4444);
}

#[test]
fn features_of_a_device() {
    let query = FeatureQuery { timeline_semaphore: true, formats_4444: true };
    let features = PhysicalDeviceFeatures::from_extensions_and_features(&query, true, false);
    assert!(features.is_supported());
    assert_eq!(features.formats_4444, Some(false));
    let query = FeatureQuery { timeline_semaphore: true, formats_4444: false };
    let features = PhysicalDeviceFeatures::from_extensions_and_features(&query, false, true);
    assert!(!features.is_supported());
    assert_eq!(features.formats_4444, None);
}

#[test]
fn wl_shm_formats() {
    assert_eq!(wl_shm_format(DrmFourcc::Argb8888 as u32), Some(0));
    assert_eq!(wl_shm_format(DrmFourcc::Xrgb8888 as u32), Some(1));
    let rgb565 = DrmFourcc::Rgb565 as u32;
    assert_eq!(wl_shm_format(rgb565), Some(rgb565));
    assert_eq!(wl_shm_format(0x1234), None);
}

#[test]
fn format_queries() {
    assert_eq!(classify_format_query(Ok(3)), Ok(Some(3)));
    assert_eq!(classify_format_query::<i32>(Err(-11)), Ok(None));
    assert_eq!(classify_format_query::<i32>(Err(-4)), Err(-4));
    let query = shm_format_query(44, 7);
    assert_eq!((query.format, query.tiling, query.usage), (44, 0, 7));
    assert_eq!(query.modifier, None);
    let linear = u64::from(DrmModifier::Linear);
    let query = drm_format_query(44, linear, 7);
    assert_eq!(query.tiling, 1_000_158_000);
    assert_eq!(query.modifier, Some((linear, 0)));
    assert_eq!(drm_format_query(44, 0x1234_5678_9abc, 7).modifier, Some((0x1234_5678_9abc, 0)));
}

fn shm(image: ImageFormatProperties) -> ShmFormatProperties {
    ShmFormatProperties {
        linear_tiling_features: 1,
        optimal_tiling_features: 2,
        buffer_features: 3,
        image,
    }
}

fn modifier(n: u64) -> ModifierProperties {
    ModifierProperties { drm_format_modifier: n, plane_count: 1, tiling_features: 2 }
}

fn replies() -> Vec<FormatReply> {
    let argb = DrmFourcc::Argb8888 as u32;
    let xrgb = DrmFourcc::Xrgb8888 as u32;
    vec![
        FormatReply {
            fourcc: argb,
            vk_format: Some(44),
            texture: Ok(Some(shm(LIMITS))),
            download: Ok(None),
            modifiers: vec![
                ModifierReply { properties: modifier(0), texture: Ok(Some(LIMITS)) },
                ModifierReply { properties: modifier(9), texture: Ok(None) },
            ],
        },
        FormatReply {
            fourcc: xrgb,
            vk_format: Some(44),
            texture: Ok(Some(shm(LIMITS))),
            download: Ok(Some(shm(LIMITS))),
            modifiers: vec![ModifierReply { properties: modifier(5), texture: Ok(Some(LIMITS)) }],
        },
        FormatReply {
            fourcc: 0x1234,
            vk_format: None,
            texture: Err(-1),
            download: Err(-1),
            modifiers: vec![],
        },
        FormatReply {
            fourcc: 0x1235,
            vk_format: Some(VK_FORMAT_B4G4R4A4_UNORM_PACK16),
            texture: Err(-1),
            download: Err(-1),
            modifiers: vec![],
        },
        FormatReply {
            fourcc: 0x1236,
            vk_format: Some(50),
            texture: Ok(None),
            download: Err(-1),
            modifiers: vec![ModifierReply { properties: modifier(7), texture: Ok(None) }],
        },
    ]
}

fn asked(dmabuf: bool) -> Asked {
    Asked { api_version: version(2, 0), enabled_extensions: vec![], dmabuf }
}

#[test]
fn formats_are_initialized() {
    let formats = init_formats(&asked(true), &replies()).unwrap();
    assert_eq!(formats.shm_formats.len(), 1);
    assert!(formats.shm_formats[&44].download.is_some());
    assert_eq!(formats.shm_formats(), &vec![0, 1]);
    let (argb, xrgb) = (DrmFourcc::Argb8888 as u32, DrmFourcc::Xrgb8888 as u32);
    assert_eq!(
        formats.dmabuf_formats(),
        &vec![DrmFormat { code: argb, modifier: 0 }, DrmFormat { code: xrgb, modifier: 5 }]
    );
    assert_eq!(formats.drm_modifiers[&44], vec![5]);
    assert_eq!(formats.drm_modifiers[&50], vec![7]);
    assert_eq!(formats.drm_properties.len(), 1);
    assert_eq!(formats.drm_properties[&44].texture.len(), 2);
    assert_eq!(formats.drm_properties[&44].texture[&5].modifier_properties, modifier(5));
    let formats = init_formats(&asked(false), &replies()).unwrap();
    assert!(formats.drm_importable.is_empty());
    assert!(formats.drm_modifiers.is_empty());
    assert_eq!(formats.wl_shm.len(), 2);
}

#[test]
fn first_format_error_counts() {
    let mut list = replies();
    list[1].download = Err(-2);
    list[0].modifiers[1].texture = Err(-3);
    assert_eq!(init_formats(&asked(true), &list).err(), Some(-3));
    assert_eq!(init_formats(&asked(false), &list).err(), Some(-2));
    list[0].texture = Err(-4);
    assert_eq!(init_formats(&asked(true), &list).err(), Some(-4));
}

#[test]
fn memory_types_that_are_known() {
    let types = vec![
        MemoryType { property_flags: 0x01, heap_index: 0 },
        MemoryType { property_flags: 0x40, heap_index: 1 },
        MemoryType { property_flags: 0x0e, heap_index: 1 },
        MemoryType { property_flags: 0x3f, heap_index: 2 },
        MemoryType { property_flags: 0, heap_index: 3 },
    ];
    assert_eq!(valid_memory_types(&types), 0b10101);
    assert_eq!(valid_memory_types(&vec![types[0]; 32]), u32::MAX);
    let info = RendererCreateInfo {
        queue_family_index: 1,
        queue_index: 0,
        max_memory_allocation_count: 10,
        non_coherent_atom_size: 16,
        max_memory_size_allocation_size: 30,
    };
    let properties = allocator_properties(&types, vec![7, 8], &info);
    let props: Vec<u8> = properties.memory_types.iter().map(|t| t.props).collect();
    assert_eq!(props, vec![0x01, 0, 0x0e, 0x3f, 0]);
    assert_eq!(properties.memory_types[3].heap, 2);
    assert_eq!(properties.memory_heaps, vec![7, 8]);
    assert_eq!(properties.max_memory_allocation_count, 10);
    assert_eq!(properties.non_coherent_atom_size, 16);
    assert_eq!(properties.max_memory_allocation_size, 30);
    assert!(!properties.buffer_device_address);
    assert!(info.has_valid_atom_size());
    assert!(RendererCreateInfo { non_coherent_atom_size: 1, ..info }.has_valid_atom_size());
    assert!(!RendererCreateInfo { non_coherent_atom_size: 0, ..info }.has_valid_atom_size());
    assert!(!RendererCreateInfo { non_coherent_atom_size: 24, ..info }.has_valid_atom_size());
    assert!(!RendererCreateInfo { non_coherent_atom_size: 1 << 63, ..info }.has_valid_atom_size());
}

fn timeline() -> TimelineRenderer {
    let info = RendererCreateInfo {
        queue_family_index: 3,
        queue_index: 0,
        max_memory_allocation_count: 10,
        non_coherent_atom_size: 16,
        max_memory_size_allocation_size: 30,
    };
    let enabled = names(&["VK_X"]);
    TimelineRenderer::from_raw_device(&version(2, 0), enabled, &info, &vec![], vec![], &replies()).unwrap()
}

fn resource(token: u64) -> Resource {
    Resource { token, object: token * 10, memory: token * 100 }
}

#[test]
fn renderer_on_a_device() {
    let renderer = timeline();
    assert_eq!(renderer.queue_family_index, 3);
    assert_eq!(renderer.mem_allocator.remaining_allocations(), 10);
    assert_eq!(renderer.mem_allocator.max_allocation_size(), 30);
    assert_eq!(renderer.semaphore_functions(), MaybePromoted::Promoted);
    assert_eq!(renderer.enabled_extensions, names(&["VK_X"]));
    assert_eq!(renderer.formats.wl_shm, vec![0, 1]);
    let mut list = replies();
    list[0].texture = Err(-4);
    let info = RendererCreateInfo {
        queue_family_index: 3,
        queue_index: 0,
        max_memory_allocation_count: 10,
        non_coherent_atom_size: 16,
        max_memory_size_allocation_size: 30,
    };
    let failed =
        TimelineRenderer::from_raw_device(&version(2, 0), vec![], &info, &vec![], vec![], &list);
    assert_eq!(failed.err(), Some(Error::Vulkan(-4)));
}

#[test]
fn allocator_knows_the_memory_of_the_device() {
    let info = RendererCreateInfo {
        queue_family_index: 0,
        queue_index: 0,
        max_memory_allocation_count: 7,
        non_coherent_atom_size: 64,
        max_memory_size_allocation_size: 4096,
    };
    let types = vec![
        MemoryType { property_flags: 0x01, heap_index: 1 },
        MemoryType { property_flags: 0x46, heap_index: 2 },
    ];
    let renderer = TimelineRenderer::from_raw_device(
        &version(2, 0),
        vec![],
        &info,
        &types,
        vec![11, 22, 33],
        &vec![],
    )
    .unwrap();
    assert_eq!(renderer.valid_memory_types, 0b01);
    let text = format!("{:?}", renderer.mem_allocator);
    assert!(text.contains("heap: 1, props: DEVICE_LOCAL"));
    assert!(text.contains("heap: 2, props: HOST_VISIBLE | HOST_COHERENT"));
    assert!(text.contains("size: 33"));
    assert!(text.contains("non_coherent_atom_mask: 63"));
    assert!(text.contains("allocations_remains: 7"));
    assert!(text.contains("max_memory_allocation_size: 4096"));
    assert!(text.contains("buffer_device_address: false"));
}

#[test]
fn resources_are_kept_while_referred_to() {
    let mut renderer = timeline();
    renderer.images = vec![resource(1), resource(2), resource(3)];
    renderer.staging_buffers = vec![resource(4), resource(5)];
    renderer.command_submissions.push_back(CommandSubmission { counter_value: 5, alive: vec![1, 4] });
    renderer.command_submissions.push_back(CommandSubmission { counter_value: 6, alive: vec![5] });
    let gone = renderer.cleanup(4, &vec![3]);
    assert_eq!(gone.images, vec![resource(2)]);
    assert!(gone.staging_buffers.is_empty());
    let gone = renderer.cleanup(5, &vec![3]);
    assert_eq!(gone.images, vec![resource(1)]);
    assert_eq!(gone.staging_buffers, vec![resource(4)]);
    assert_eq!(renderer.command_submissions.len(), 1);
    let (left, _) = renderer.teardown();
    assert_eq!(left.images, vec![resource(3)]);
    assert_eq!(left.staging_buffers, vec![resource(5)]);
}

#[test]
fn handles_are_tracked() {
    let (liveness, alive) = Liveness::new();
    assert!(!liveness.is_dropped());
    let other = alive.clone();
    drop(alive);
    assert!(!liveness.is_dropped());
    drop(other);
    assert!(liveness.is_dropped());
    assert!(all_released(1));
    assert!(!all_released(2));
}

#[test]
fn trackers_count_their_own_handles() {
    let (first, first_handle) = Liveness::new();
    let (second, second_handle) = Liveness::new();
    drop(first_handle);
    assert!(first.is_dropped());
    assert!(!second.is_dropped());
    let other = second_handle.clone();
    drop(second_handle);
    assert!(!second.is_dropped());
    drop(other);
    assert!(second.is_dropped());
}

#[test]
fn instances_are_planned() {
    let info = Instance::with_extensions_and_layers(&names(&["a", "bc"]), &names(&["d"])).unwrap();
    assert_eq!(info.api_version, vk::API_VERSION_1_1);
    assert_eq!(info.extensions, vec![b"a\0".to_vec(), b"bc\0".to_vec()]);
    assert_eq!(info.layers, vec![b"d\0".to_vec()]);
    let info = Instance::with_extensions(&names(&["\u{e9}"])).unwrap();
    assert_eq!(info.extensions, vec![vec![0xc3, 0xa9, 0]]);
    assert!(info.layers.is_empty());
}

#[test]
fn names_with_zeros_are_refused() {
    let error = Instance::validate_extensions_and_layers(&names(&["ok", "a\0b\0"]), &names(&["\0"]));
    match error {
        Err(InstanceError::InvalidExtension(name, position)) => {
            assert_eq!((name.as_str(), position), ("a\0b\0", 1));
        }
        _ => panic!("the extension is refused"),
    }
    let error = Instance::with_extensions_and_layers(&names(&["ok"]), &names(&["x", "\u{e9}\0"]));
    match error {
        Err(InstanceError::InvalidLayer(name, position)) => {
            assert_eq!((name.as_str(), position), ("\u{e9}\0", 2));
        }
        _ => panic!("the layer is refused"),
    }
    assert_eq!(Device::validate_extensions(&names(&["x"])).unwrap(), vec![b"x\0".to_vec()]);
    assert!(matches!(
        Device::validate_extensions(&names(&["x", "\0"])),
        Err(DeviceError::InvalidExtension(_, 0))
    ));
}

#[test]
fn error_texts() {
    assert_eq!(
        InstanceError::MissingExtensions(names(&["a", "b", "c"])).message(),
        "The following extensions instance extensions were missing: a, b, c"
    );
    assert_eq!(
        InstanceError::MissingLayers(names(&["a"])).message(),
        "The following extensions instance layers were missing: a"
    );
    assert_eq!(
        InstanceError::InvalidExtension("x".to_string(), 12).message(),
        "The extension string \"x\" contains a null terminator at 12"
    );
    assert_eq!(
        InstanceError::InvalidLayer("x".to_string(), 0).message(),
        "The layer string \"x\" contains a null terminator at 0"
    );
    let lost = vk::Result::ERROR_DEVICE_LOST;
    assert_eq!(InstanceError::Vulkan(lost.as_raw()).message(), lost.to_string());
    assert_eq!(
        DeviceError::MissingExtensions(vec![]).message(),
        "The following extensions device extensions were missing: "
    );
    assert_eq!(
        DeviceError::InvalidExtension("y".to_string(), 3).message(),
        "The extension string \"y\" contains a null terminator at 3"
    );
    assert_eq!(DeviceError::Vulkan(lost.as_raw()).message(), lost.to_string());
    assert_eq!(EnumerateDevicesError::Vulkan(lost.as_raw()).message(), lost.to_string());
}

fn physical_device<'a>(
    instance: &'a Instance,
    extensions: &[&str],
    primary: bool,
) -> PhysicalDevice<'a> {
    PhysicalDevice {
        handle: 1,
        instance,
        extensions: names(extensions),
        name: "gpu".to_string(),
        drm: DrmProperties {
            has_primary: primary,
            has_render: true,
            primary_major: 226,
            primary_minor: 0,
            render_major: 226,
            render_minor: 128,
        },
    }
}

#[test]
fn devices_are_found_by_node() {
    let instance = Instance { handle: 6 };
    let devices = vec![
        physical_device(&instance, &[], true),
        physical_device(&instance, &["VK_EXT_physical_device_drm"], false),
        physical_device(&instance, &["x", "VK_EXT_physical_device_drm"], true),
    ];
    assert_eq!(PhysicalDevice::with_drm_device(&devices, 226, 0), Some(2));
    let find = PhysicalDevice::with_major_and_minor;
    assert_eq!(find(&devices, 226, 128, NodeType::Render), Some(1));
    assert_eq!(find(&devices, 226, 0, NodeType::Control), None);
    assert_eq!(find(&devices, 226, 1, NodeType::Primary), None);
    let node = DrmNode { major: 226, minor: 128, ty: NodeType::Render };
    assert_eq!(PhysicalDevice::with_drm_node(&devices, &node), Some(1));
    assert_eq!(devices[2].instance().raw_handle(), 6);
    assert_eq!(devices[2].raw_handle(), 1);
    let device = Device { handle: 8, instance };
    assert_eq!((device.raw_handle(), device.instance().handle), (8, 6));
    assert_eq!(devices[2].name(), "gpu");
    assert_eq!(devices[2].extensions().len(), 2);
}
