//! The frame renderer: what one paint orders from the graphics device, and
//! the order in which a paint maps, reads and unmaps the staging buffer.
//!
//! A paint is three steps. `begin_paint` plans the frame: the staging buffer
//! to allocate, if any, the render target, the draw, and the copy into the
//! staging buffer. The caller has the device carry the plan out, asks for the
//! buffer to be mapped and waits. `map_resolved` takes what the wait brought
//! and says what to present. `end_paint` records that the buffer was
//! unmapped, which is due however the wait ended.

use vstd::prelude::*;
use crate::padding::{fits, fitting_frame_has_size, pad, padded, staging_bytes, staging_size};
use crate::pipeline::{TextureFormat, RENDER_TARGET_FORMAT, RENDER_TARGET_SAMPLES};
use crate::staging::{staging_request, BufferRequest, StagingBufferManager};

verus! {

/// The render target of one frame: a 2D texture of the requested size, not
/// padded, that is drawn into and then copied from.
#[derive(Clone, Copy, Debug, PartialEq, Eq, Structural)]
pub struct TextureRequest {
    /// Width in pixels.
    pub width: u32,
    /// Height in pixels.
    pub height: u32,
    /// Number of layers.
    pub depth_or_array_layers: u32,
    /// Number of mip levels.
    pub mip_level_count: u32,
    /// Samples per pixel.
    pub sample_count: u32,
    /// Pixel format.
    pub format: TextureFormat,
    /// The texture can be the source of a copy.
    pub copy_src: bool,
    /// The texture can be drawn into.
    pub render_attachment: bool,
}

/// Tenths that make a colour channel full.
pub const FULL_INTENSITY: u8 = 10;

/// A colour, each channel counted in tenths of full intensity.
#[derive(Clone, Copy, Debug, PartialEq, Eq, Structural)]
pub struct ClearColor {
    /// Red, in tenths.
    pub red: u8,
    /// Green, in tenths.
    pub green: u8,
    /// Blue, in tenths.
    pub blue: u8,
    /// Alpha, in tenths.
    pub alpha: u8,
}

/// The background that every frame is cleared to before it is drawn: red at
/// one tenth, green at two, blue at three, and opaque.
pub open spec fn background() -> ClearColor {
    ClearColor { red: 1, green: 2, blue: 3, alpha: 10 }
}

/// The one draw of a frame: not indexed, from the single vertex stream, of
/// all vertices of the geometry in one instance.
#[derive(Clone, Copy, Debug, PartialEq, Eq, Structural)]
pub struct DrawCall {
    /// Slot that the geometry buffer is bound to.
    pub vertex_slot: u32,
    /// First vertex drawn.
    pub first_vertex: u32,
    /// The vertex after the last one drawn.
    pub end_vertex: u32,
    /// First instance drawn.
    pub first_instance: u32,
    /// The instance after the last one drawn.
    pub end_instance: u32,
}

/// The copy of the render target into the staging buffer: the whole texture,
/// its rows laid out at the padded width.
#[derive(Clone, Copy, Debug, PartialEq, Eq, Structural)]
pub struct TextureCopy {
    /// Width of what is copied, in pixels.
    pub width: u32,
    /// Height of what is copied, in pixels.
    pub height: u32,
    /// Byte offset of the first row in the buffer.
    pub offset: u64,
    /// Bytes from one row to the next in the buffer.
    pub bytes_per_row: u32,
    /// Rows of one image in the buffer.
    pub rows_per_image: u32,
}

/// What one paint orders from the graphics device, in this order: the
/// allocation, the render target, its clearing, the draw into it, and the
/// copy of the whole render target into the staging buffer.
#[derive(Clone, Copy, Debug, PartialEq, Eq, Structural)]
pub struct FramePlan {
    /// The staging buffer to create in place of the retained one, if the
    /// retained one is for another padded size.
    pub allocation: Option<BufferRequest>,
    /// The render target.
    pub texture: TextureRequest,
    /// The colour that the render target is cleared to.
    pub clear: ClearColor,
    /// The draw.
    pub draw: DrawCall,
    /// The copy into the staging buffer.
    pub copy: TextureCopy,
}

/// The plan of a frame requested at `width` x `height`, for a renderer that
/// retains the buffer of `staging` and draws `num_vertices` vertices.
pub open spec fn frame_plan(
    staging: StagingBufferManager,
    num_vertices: u32,
    width: u32,
    height: u32,
) -> FramePlan {
    FramePlan {
        allocation: if staging.serves(width as nat, height as nat) {
            None
        } else {
            Some(staging_request(staging_bytes(width as nat, height as nat)))
        },
        texture: TextureRequest {
            width,
            height,
            depth_or_array_layers: 1,
            mip_level_count: 1,
            sample_count: RENDER_TARGET_SAMPLES,
            format: RENDER_TARGET_FORMAT,
            copy_src: true,
            render_attachment: true,
        },
        clear: background(),
        draw: DrawCall {
            vertex_slot: 0,
            first_vertex: 0,
            end_vertex: num_vertices,
            first_instance: 0,
            end_instance: 1,
        },
        copy: TextureCopy {
            width,
            height,
            offset: 0,
            bytes_per_row: (4 * padded(width as nat)) as u32,
            rows_per_image: padded(height as nat) as u32,
        },
    }
}

/// Encoding of the pixels of a decoded image.
#[derive(Clone, Copy, Debug, PartialEq, Eq, Structural)]
pub enum ImageFormat {
    /// RGBA with colour channels independent of alpha.
    RgbaSeparate,
    /// RGBA with colour channels scaled by alpha.
    RgbaPremul,
}

/// How an image is sampled where it is drawn at another size.
#[derive(Clone, Copy, Debug, PartialEq, Eq, Structural)]
pub enum InterpolationMode {
    /// The nearest pixel.
    NearestNeighbor,
    /// A blend of the neighbouring pixels.
    Bilinear,
}

/// How the bytes read back from the staging buffer are shown: as an image of
/// the padded size, drawn at that size from the origin and clipped to the
/// requested size.
#[derive(Clone, Copy, Debug, PartialEq, Eq, Structural)]
pub struct Presentation {
    /// Encoding of the pixels.
    pub format: ImageFormat,
    /// Width of the image, in pixels.
    pub image_width: u32,
    /// Height of the image, in pixels.
    pub image_height: u32,
    /// Number of bytes that the image is decoded from.
    pub byte_len: u64,
    /// Width of the clip rectangle, in pixels.
    pub clip_width: u32,
    /// Height of the clip rectangle, in pixels.
    pub clip_height: u32,
    /// Sampling of the image.
    pub interpolation: InterpolationMode,
}

impl Presentation {
    /// Width of what is drawn: of the part of the image inside the clip.
    pub open spec fn drawn_width(self) -> nat {
        if self.clip_width <= self.image_width {
            self.clip_width as nat
        } else {
            self.image_width as nat
        }
    }

    /// Height of what is drawn: of the part of the image inside the clip.
    pub open spec fn drawn_height(self) -> nat {
        if self.clip_height <= self.image_height {
            self.clip_height as nat
        } else {
            self.image_height as nat
        }
    }

    /// Width and height of what is drawn.
    pub fn drawn_size(&self) -> (size: (u32, u32))
        ensures
            size.0 == self.drawn_width(),
            size.1 == self.drawn_height(),
    {
        let width: u32 = if self.clip_width <= self.image_width {
            self.clip_width
        } else {
            self.image_width
        };
        let height: u32 = if self.clip_height <= self.image_height {
            self.clip_height
        } else {
            self.image_height
        };
        (width, height)
    }
}

/// The presentation of a frame requested at `width` x `height`.
pub open spec fn presentation(width: u32, height: u32) -> Presentation {
    Presentation {
        format: ImageFormat::RgbaPremul,
        image_width: padded(width as nat) as u32,
        image_height: padded(height as nat) as u32,
        byte_len: staging_bytes(width as nat, height as nat) as u64,
        clip_width: width,
        clip_height: height,
        interpolation: InterpolationMode::NearestNeighbor,
    }
}

/// The copy of a frame fits the staging buffer that the frame is planned
/// with: the row stride is aligned and holds a row of the render target, the
/// rows of the render target are no more than the rows of the buffer, and
/// stride times rows is the size of the buffer.
pub proof fn copy_stays_in_buffer(
    staging: StagingBufferManager,
    num_vertices: u32,
    width: u32,
    height: u32,
)
    requires
        fits(width as nat, height as nat),
    ensures
        ({
            let plan = frame_plan(staging, num_vertices, width, height);
            let size = staging_bytes(width as nat, height as nat);
            &&& plan.copy.bytes_per_row == 4 * padded(width as nat)
            &&& plan.copy.bytes_per_row % 256 == 0
            &&& plan.copy.rows_per_image == padded(height as nat)
            &&& plan.copy.width == plan.texture.width && plan.copy.height == plan.texture.height
            &&& 4 * plan.copy.width <= plan.copy.bytes_per_row
            &&& plan.copy.height <= plan.copy.rows_per_image
            &&& plan.copy.bytes_per_row * plan.copy.rows_per_image == size
            &&& plan.copy.offset + plan.copy.bytes_per_row * plan.copy.height <= size
            &&& plan.allocation matches Some(request) ==> request.size == size
        }),
{
    fitting_frame_has_size(width as nat, height as nat);
    let stride = 4 * padded(width as nat);
    let rows = padded(height as nat);
    assert(stride * height <= stride * rows) by (nonlinear_arith)
        requires
            height <= rows,
            0 <= stride,
    ;
}

/// What is drawn of a frame has the requested size, not the padded size of
/// the image that it is drawn from, and the image is decoded from as many
/// bytes as the staging buffer holds.
pub proof fn drawn_size_is_requested_size(width: u32, height: u32)
    requires
        fits(width as nat, height as nat),
    ensures
        ({
            let shown = presentation(width, height);
            &&& shown.drawn_width() == width
            &&& shown.drawn_height() == height
            &&& shown.drawn_width() <= shown.image_width == padded(width as nat)
            &&& shown.drawn_height() <= shown.image_height == padded(height as nat)
            &&& shown.byte_len == 4 * shown.image_width * shown.image_height
            &&& shown.byte_len == staging_bytes(width as nat, height as nat)
        }),
{
    fitting_frame_has_size(width as nat, height as nat);
}

/// Where a paint stands.
#[derive(Clone, Copy, Debug, PartialEq, Eq, Structural)]
pub enum Phase {
    /// No paint is under way; the staging buffer is unmapped.
    Idle,
    /// The frame was submitted and the mapping asked for.
    AwaitingMap,
    /// The staging buffer is mapped and can be read.
    Mapped,
    /// The mapping failed; nothing can be read.
    Failed,
}

/// How the wait for the mapping of the staging buffer ended.
#[derive(Clone, Copy, Debug, PartialEq, Eq, Structural)]
pub enum MapSignal {
    /// The device reported that the buffer is mapped.
    Ready,
    /// The device reported that the buffer could not be mapped.
    Failed,
    /// The device never reported: the signal was dropped unsent.
    Dropped,
}

/// Why a frame could not be read back. Either aborts the paint it occurs in
/// and no other.
#[derive(Clone, Copy, Debug, PartialEq, Eq, Structural)]
pub enum FrameError {
    /// The staging buffer could not be mapped.
    MapFailed,
    /// The wait for the device ended without an answer.
    WaitFailed,
}

/// What `map_resolved` returns for a frame requested at `width` x `height`
/// whose wait ended with `signal`.
pub open spec fn readback(width: u32, height: u32, signal: MapSignal) -> Result<
    Presentation,
    FrameError,
> {
    match signal {
        MapSignal::Ready => Ok(presentation(width, height)),
        MapSignal::Failed => Err(FrameError::MapFailed),
        MapSignal::Dropped => Err(FrameError::WaitFailed),
    }
}

/// Plans frames and follows each paint through mapping and unmapping.
#[derive(Debug)]
pub struct FrameRenderer {
    staging: StagingBufferManager,
    num_vertices: u32,
    width: u32,
    height: u32,
    phase: Phase,
}

impl FrameRenderer {
    /// The retained staging buffer is the one for the size last requested,
    /// and that size can be laid out.
    #[verifier::type_invariant]
    pub closed spec fn wf(self) -> bool {
        &&& self.staging.wf()
        &&& fits(self.width as nat, self.height as nat)
        &&& self.staging.serves(self.width as nat, self.height as nat)
    }

    /// Where the current paint stands.
    pub closed spec fn spec_phase(&self) -> Phase {
        self.phase
    }

    /// The staging buffer manager.
    pub closed spec fn spec_staging(&self) -> StagingBufferManager {
        self.staging
    }

    /// Number of vertices that each frame draws.
    pub closed spec fn spec_num_vertices(&self) -> u32 {
        self.num_vertices
    }

    /// Width and height of the frame last requested.
    pub closed spec fn requested(self) -> (u32, u32) {
        (self.width, self.height)
    }

    /// Whether the staging buffer is mapped.
    pub open spec fn buffer_mapped(self) -> bool {
        self.spec_phase() is Mapped
    }

    /// Whether the staging buffer is waiting to be unmapped.
    pub open spec fn unmap_due(self) -> bool {
        self.spec_phase() is Mapped || self.spec_phase() is Failed
    }

    /// The renderer after `begin_paint` for a frame of `width` x `height`.
    pub closed spec fn begun(self, width: u32, height: u32) -> Self {
        FrameRenderer {
            staging: self.staging.after_ensure(width as nat, height as nat),
            num_vertices: self.num_vertices,
            width,
            height,
            phase: Phase::AwaitingMap,
        }
    }

    /// The renderer after `map_resolved` with `signal`.
    pub closed spec fn resolved(self, signal: MapSignal) -> Self {
        FrameRenderer {
            staging: self.staging,
            num_vertices: self.num_vertices,
            width: self.width,
            height: self.height,
            phase: if signal is Ready {
                Phase::Mapped
            } else {
                Phase::Failed
            },
        }
    }

    /// The renderer after `end_paint`.
    pub closed spec fn ended(self) -> Self {
        FrameRenderer {
            staging: self.staging,
            num_vertices: self.num_vertices,
            width: self.width,
            height: self.height,
            phase: Phase::Idle,
        }
    }

    /// A renderer at startup, for a geometry of `num_vertices` vertices: no
    /// paint is under way, and the retained staging buffer is of 256 x 256
    /// pixels.
    pub fn new(num_vertices: u32) -> (renderer: Self)
        ensures
            renderer.wf(),
            renderer.phase() is Idle,
            renderer.num_vertices() == num_vertices,
            renderer.requested() == (256u32, 256u32),
            renderer.staging().padded_width() == 256,
            renderer.staging().padded_height() == 256,
    {
        FrameRenderer {
            staging: StagingBufferManager::new(),
            num_vertices,
            width: 256,
            height: 256,
            phase: Phase::Idle,
        }
    }

    /// Where the current paint stands.
    #[verifier::when_used_as_spec(spec_phase)]
    pub fn phase(&self) -> (phase: Phase)
        ensures
            phase == self.spec_phase(),
    {
        self.phase
    }

    /// The staging buffer manager.
    #[verifier::when_used_as_spec(spec_staging)]
    pub fn staging(&self) -> (staging: StagingBufferManager)
        ensures
            staging == self.spec_staging(),
            staging.wf(),
    {
        proof {
            use_type_invariant(self);
        }
        self.staging
    }

    /// Number of vertices that each frame draws.
    #[verifier::when_used_as_spec(spec_num_vertices)]
    pub fn num_vertices(&self) -> (n: u32)
        ensures
            n == self.spec_num_vertices(),
    {
        self.num_vertices
    }

    /// Starts a paint at the requested size and plans its frame. The plan
    /// orders a new staging buffer exactly where the retained one is for
    /// another padded size; the render target has the requested size; the
    /// copy lays its rows out at the padded width.
    pub fn begin_paint(&mut self, width: u32, height: u32) -> (plan: FramePlan)
        requires
            old(self).phase() is Idle,
            fits(width as nat, height as nat),
        ensures
            plan == frame_plan(old(self).staging(), old(self).num_vertices(), width, height),
            *final(self) == old(self).begun(width, height),
            final(self).wf(),
            final(self).phase() is AwaitingMap,
            final(self).requested() == (width, height),
            final(self).num_vertices() == old(self).num_vertices(),
            final(self).staging() == old(self).staging().after_ensure(width as nat, height as nat),
            final(self).staging().serves(width as nat, height as nat),
    {
        proof {
            use_type_invariant(&*self);
            fitting_frame_has_size(width as nat, height as nat);
        }
        let mut staging = self.staging;
        let allocation = staging.ensure(width, height);
        let plan = FramePlan {
            allocation,
            texture: TextureRequest {
                width,
                height,
                depth_or_array_layers: 1,
                mip_level_count: 1,
                sample_count: RENDER_TARGET_SAMPLES,
                format: RENDER_TARGET_FORMAT,
                copy_src: true,
                render_attachment: true,
            },
            clear: ClearColor { red: 1, green: 2, blue: 3, alpha: FULL_INTENSITY },
            draw: DrawCall {
                vertex_slot: 0,
                first_vertex: 0,
                end_vertex: self.num_vertices,
                first_instance: 0,
                end_instance: 1,
            },
            copy: TextureCopy {
                width,
                height,
                offset: 0,
                bytes_per_row: (4 * pad(width)) as u32,
                rows_per_image: pad(height) as u32,
            },
        };
        *self = FrameRenderer {
            staging,
            num_vertices: self.num_vertices,
            width,
            height,
            phase: Phase::AwaitingMap,
        };
        plan
    }

    /// Takes how the wait for the mapping ended. A buffer that is mapped is
    /// presented; a failure aborts this paint with its error. Either way the
    /// buffer is then due to be unmapped, and the renderer keeps what it
    /// retains.
    pub fn map_resolved(&mut self, signal: MapSignal) -> (result: Result<Presentation, FrameError>)
        requires
            old(self).phase() is AwaitingMap,
        ensures
            result == readback(old(self).requested().0, old(self).requested().1, signal),
            *final(self) == old(self).resolved(signal),
            final(self).wf(),
            final(self).unmap_due(),
            final(self).buffer_mapped() <==> signal is Ready,
            final(self).requested() == old(self).requested(),
            final(self).num_vertices() == old(self).num_vertices(),
            final(self).staging() == old(self).staging(),
    {
        proof {
            use_type_invariant(&*self);
            fitting_frame_has_size(self.width as nat, self.height as nat);
        }
        match signal {
            MapSignal::Ready => {
                self.phase = Phase::Mapped;
                Ok(
                    Presentation {
                        format: ImageFormat::RgbaPremul,
                        image_width: pad(self.width) as u32,
                        image_height: pad(self.height) as u32,
                        byte_len: staging_size(self.width, self.height),
                        clip_width: self.width,
                        clip_height: self.height,
                        interpolation: InterpolationMode::NearestNeighbor,
                    },
                )
            },
            MapSignal::Failed => {
                self.phase = Phase::Failed;
                Err(FrameError::MapFailed)
            },
            MapSignal::Dropped => {
                self.phase = Phase::Failed;
                Err(FrameError::WaitFailed)
            },
        }
    }

    /// Ends the paint once the staging buffer was unmapped: the renderer is
    /// ready for the next paint and keeps what it retains.
    pub fn end_paint(&mut self)
        requires
            old(self).unmap_due(),
        ensures
            *final(self) == old(self).ended(),
            final(self).wf(),
            final(self).phase() is Idle,
            !final(self).buffer_mapped(),
            final(self).requested() == old(self).requested(),
            final(self).num_vertices() == old(self).num_vertices(),
            final(self).staging() == old(self).staging(),
    {
        proof {
            use_type_invariant(&*self);
        }
        self.phase = Phase::Idle;
    }
    /// However the wait for the mapping ends, the buffer is then due to be
    /// unmapped, and once it was, the paint has ended: the buffer is not
    /// mapped, the renderer retains the buffer of this paint, and it is
    /// ready for the next.
    pub proof fn paint_ends_unmapped(self, width: u32, height: u32, signal: MapSignal)
        requires
            self.wf(),
            self.phase() is Idle,
            fits(width as nat, height as nat),
        ensures
            ({
                let waiting = self.begun(width, height);
                let read = waiting.resolved(signal);
                let after = read.ended();
                &&& waiting.wf() && waiting.phase() is AwaitingMap
                &&& read.wf() && read.unmap_due()
                &&& after.wf() && after.phase() is Idle
                &&& !after.buffer_mapped()
                &&& after.requested() == (width, height)
                &&& after.num_vertices() == self.num_vertices()
                &&& after.staging() == self.staging().after_ensure(width as nat, height as nat)
                &&& after.staging().serves(width as nat, height as nat)
            }),
    {
        self.staging.recorded_size_follows_request(width as nat, height as nat);
    }

    /// A paint at the size of the paint before it orders no staging buffer
    /// and leaves the staging buffer manager as it was, however the paint
    /// before it ended.
    pub proof fn repaint_at_same_size_keeps_buffer(
        self,
        width: u32,
        height: u32,
        signal: MapSignal,
    )
        requires
            self.wf(),
            self.phase() is Idle,
            fits(width as nat, height as nat),
        ensures
            ({
                let first = self.begun(width, height).resolved(signal).ended();
                let second = first.begun(width, height);
                &&& frame_plan(first.staging(), first.num_vertices(), width, height).allocation
                    is None
                &&& second.staging() == first.staging()
            }),
    {
        self.staging.repeated_request_reuses(width as nat, height as nat);
    }

    /// Of two paints in a row, the second orders a new staging buffer exactly
    /// where its padded size is not that of the first.
    pub proof fn repaint_replaces_iff_padded_size_changes(
        self,
        w1: u32,
        h1: u32,
        signal: MapSignal,
        w2: u32,
        h2: u32,
    )
        requires
            self.wf(),
            self.phase() is Idle,
            fits(w1 as nat, h1 as nat),
            fits(w2 as nat, h2 as nat),
        ensures
            ({
                let first = self.begun(w1, h1).resolved(signal).ended();
                let plan = frame_plan(first.staging(), first.num_vertices(), w2, h2);
                &&& plan.allocation is Some <==> padded(w1 as nat) != padded(w2 as nat) || padded(
                    h1 as nat,
                ) != padded(h2 as nat)
                &&& plan.allocation matches Some(request) ==> request == staging_request(
                    staging_bytes(w2 as nat, h2 as nat),
                )
            }),
    {
        self.staging.replaced_iff_padded_size_changes(w1 as nat, h1 as nat, w2 as nat, h2 as nat);
    }
}

} // verus!
