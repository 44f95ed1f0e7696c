//! An intermediate surface on the GPU used during the rasterization process:
//! one single-channel 32-bit float image, bound both as the color target of
//! an off-screen framebuffer and as a compute-accessible texture.
//!
//! The surface is reused from draw operation to draw operation; it only
//! needs to be at least as large as every atlas drawn into it. Clearing and
//! partitioning among atlas cells is the caller's responsibility. The GPU
//! memory usage of the buffer is `4 * width * height` bytes, and releasing
//! it must give back its texture, framebuffer and image bytes exactly once,
//! which the resource ledger makes checkable.

use vstd::prelude::*;

verus! {

/// A running count of the GPU resources this subsystem holds live: textures,
/// framebuffers, and allocated image bytes.
#[derive(Copy, Clone, Debug, PartialEq, Eq, Structural)]
pub struct GpuResources {
    pub textures: u64,
    pub framebuffers: u64,
    pub image_bytes: u64,
}

impl GpuResources {
    /// A ledger with nothing allocated.
    pub fn new() -> (r: GpuResources)
        ensures
            r.textures == 0,
            r.framebuffers == 0,
            r.image_bytes == 0,
    {
        GpuResources { textures: 0, framebuffers: 0, image_bytes: 0 }
    }
}

/// A reusable off-screen coverage render target: the handles of its image
/// texture and framebuffer, and the pixel size it was allocated at.
#[derive(Copy, Clone, Debug, PartialEq, Eq, Structural)]
pub struct CoverageBuffer {
    pub image: u32,
    pub framebuffer: u32,
    pub width: u32,
    pub height: u32,
}

impl CoverageBuffer {
    /// The buffer's single-channel 32-bit float image takes four bytes per
    /// pixel.
    pub open spec fn spec_byte_size(self) -> int {
        4 * self.width as int * self.height as int
    }

    /// Creates a new coverage buffer of the given size, accounting one
    /// texture, one framebuffer and the image's bytes in the ledger.
    /// `image` and `framebuffer` are the handles under which the device
    /// bound the allocated surface.
    pub fn new(
        resources: &mut GpuResources,
        image: u32,
        framebuffer: u32,
        width: u32,
        height: u32,
    ) -> (r: CoverageBuffer)
        requires
            old(resources).textures < u64::MAX,
            old(resources).framebuffers < u64::MAX,
            old(resources).image_bytes + 4 * width as int * height as int <= u64::MAX,
        ensures
            r.image == image,
            r.framebuffer == framebuffer,
            r.width == width,
            r.height == height,
            final(resources).textures == old(resources).textures + 1,
            final(resources).framebuffers == old(resources).framebuffers + 1,
            final(resources).image_bytes == old(resources).image_bytes + r.spec_byte_size(),
    {
        proof {
            lemma_byte_size_bound(width, height);
        }
        let bytes: u64 = 4u64 * (width as u64) * (height as u64);
        resources.textures = resources.textures + 1;
        resources.framebuffers = resources.framebuffers + 1;
        resources.image_bytes = resources.image_bytes + bytes;
        CoverageBuffer { image, framebuffer, width, height }
    }

    /// The GPU memory held by the image: four bytes per pixel.
    pub fn byte_size(&self) -> (r: u64)
        requires
            self.spec_byte_size() <= u64::MAX,
        ensures
            r as int == self.spec_byte_size(),
    {
        proof {
            lemma_byte_size_bound(self.width, self.height);
        }
        4u64 * (self.width as u64) * (self.height as u64)
    }

    /// The image handle, for binding into a compute pass.
    pub fn image(&self) -> (r: u32)
        ensures
            r == self.image,
    {
        self.image
    }

    /// The framebuffer handle, for use as a render target.
    pub fn framebuffer(&self) -> (r: u32)
        ensures
            r == self.framebuffer,
    {
        self.framebuffer
    }

    /// Releases the buffer: its texture, framebuffer and image bytes leave
    /// the ledger. Consuming the buffer makes the release happen exactly
    /// once.
    pub fn release(self, resources: &mut GpuResources)
        requires
            old(resources).textures >= 1,
            old(resources).framebuffers >= 1,
            old(resources).image_bytes >= self.spec_byte_size(),
        ensures
            final(resources).textures == old(resources).textures - 1,
            final(resources).framebuffers == old(resources).framebuffers - 1,
            final(resources).image_bytes == old(resources).image_bytes - self.spec_byte_size(),
    {
        proof {
            lemma_byte_size_bound(self.width, self.height);
        }
        let bytes: u64 = 4u64 * (self.width as u64) * (self.height as u64);
        resources.textures = resources.textures - 1;
        resources.framebuffers = resources.framebuffers - 1;
        resources.image_bytes = resources.image_bytes - bytes;
    }
}

/// Four bytes per pixel of a 32-bit-sized surface is nonnegative and stays
/// within 66 bits; a ledger's own capacity check brings it under 64.
proof fn lemma_byte_size_bound(width: u32, height: u32)
    ensures
        0 <= 4 * width as int * height as int,
        (4 * width as int * height as int) < 0x4_0000_0000_0000_0000,
{
    assert(0 <= 4 * width as int * height as int && (4 * width as int * height as int)
        < 0x4_0000_0000_0000_0000) by (nonlinear_arith)
        requires
            0 <= width < 0x1_0000_0000,
            0 <= height < 0x1_0000_0000,
    ;
}

} // verus!
