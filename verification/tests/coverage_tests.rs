use pathfinder::coverage::{CoverageBuffer, GpuResources};

#[test]
fn coverage_buffer_accounts_four_bytes_per_pixel() {
    let mut resources = GpuResources::new();
    let buffer = CoverageBuffer::new(&mut resources, 3, 4, 512, 512);
    assert_eq!(buffer.byte_size(), 4 * 512 * 512);
    assert_eq!(resources.image_bytes, 4 * 512 * 512);
    assert_eq!(resources.textures, 1);
    assert_eq!(resources.framebuffers, 1);
    assert_eq!(buffer.image(), 3);
    assert_eq!(buffer.framebuffer(), 4);
}

#[test]
fn release_returns_every_resource_exactly_once() {
    let mut resources = GpuResources::new();
    let small = CoverageBuffer::new(&mut resources, 1, 2, 64, 32);
    let large = CoverageBuffer::new(&mut resources, 3, 4, 512, 512);
    assert_eq!(resources.textures, 2);
    assert_eq!(resources.framebuffers, 2);
    assert_eq!(resources.image_bytes, 4 * (64 * 32 + 512 * 512));
    small.release(&mut resources);
    // consuming the buffer releases it exactly once
    assert_eq!(resources.textures, 1);
    assert_eq!(resources.framebuffers, 1);
    assert_eq!(resources.image_bytes, 4 * 512 * 512);
    large.release(&mut resources);
    assert_eq!(resources, GpuResources::new());
}

#[test]
fn empty_surface_holds_no_bytes() {
    let mut resources = GpuResources::new();
    let buffer = CoverageBuffer::new(&mut resources, 1, 2, 0, 4096);
    assert_eq!(buffer.byte_size(), 0);
    assert_eq!(resources.image_bytes, 0);
    buffer.release(&mut resources);
    assert_eq!(resources.image_bytes, 0);
}
