//! The staging buffer manager: which CPU-readable buffer the renderer holds,
//! and when a request for another size has it replaced.
//!
//! The manager records the padded size that the retained buffer was made for.
//! It never resizes: a request at another padded size orders a new buffer, a
//! request at the same padded size keeps the one that is there.

use vstd::prelude::*;
use crate::padding::{fits, fitting_frame_has_size, pad, padded, staging_bytes};

verus! {

/// What a staging buffer is to be created with.
#[derive(Clone, Copy, Debug, PartialEq, Eq, Structural)]
pub struct BufferRequest {
    /// Size in bytes.
    pub size: u64,
    /// The buffer can be the destination of a copy.
    pub copy_dst: bool,
    /// The buffer can be mapped for reading by the CPU.
    pub map_read: bool,
    /// The buffer starts out mapped.
    pub mapped_at_creation: bool,
}

/// The request for a staging buffer of `size` bytes: a copy destination that
/// the CPU can map for reading, unmapped at first.
pub open spec fn staging_request(size: nat) -> BufferRequest {
    BufferRequest { size: size as u64, copy_dst: true, map_read: true, mapped_at_creation: false }
}

/// Records the padded size of the retained staging buffer.
#[derive(Clone, Copy, Debug, PartialEq, Eq, Structural)]
pub struct StagingBufferManager {
    width: u32,
    height: u32,
}

impl StagingBufferManager {
    /// Both recorded dimensions are aligned, and a row of the buffer has a
    /// stride that fits in 32 bits.
    #[verifier::type_invariant]
    pub closed spec fn wf(self) -> bool {
        &&& self.width % 256 == 0
        &&& self.height % 256 == 0
        &&& 4 * self.width <= u32::MAX
    }

    /// Padded width of the retained buffer, in pixels.
    pub closed spec fn padded_width(self) -> nat {
        self.width as nat
    }

    /// Padded height of the retained buffer, in pixels.
    pub closed spec fn padded_height(self) -> nat {
        self.height as nat
    }

    /// Whether the retained buffer is the one for a frame requested at
    /// `width` x `height`.
    pub open spec fn serves(self, width: nat, height: nat) -> bool {
        self.padded_width() == padded(width) && self.padded_height() == padded(height)
    }

    /// The manager after a request at `width` x `height`.
    pub closed spec fn after_ensure(self, width: nat, height: nat) -> Self {
        StagingBufferManager { width: padded(width) as u32, height: padded(height) as u32 }
    }

    /// The manager at startup: it holds a buffer of 256 x 256 pixels.
    pub fn new() -> (m: Self)
        ensures
            m.wf(),
            m.padded_width() == 256,
            m.padded_height() == 256,
    {
        StagingBufferManager { width: 256, height: 256 }
    }

    /// Describes the staging buffer for a padded frame of `buffer_width` x
    /// `buffer_height` pixels.
    pub fn create_output_buffer(buffer_width: u32, buffer_height: u32) -> (request: BufferRequest)
        requires
            4 * buffer_width * buffer_height <= u64::MAX,
        ensures
            request == staging_request((4 * buffer_width * buffer_height) as nat),
            request.size == 4 * buffer_width * buffer_height,
    {
        let row: u64 = 4 * (buffer_width as u64);
        assert(row * buffer_height == 4 * buffer_width * buffer_height) by (nonlinear_arith)
            requires
                row == 4 * buffer_width,
        ;
        BufferRequest {
            size: row * (buffer_height as u64),
            copy_dst: true,
            map_read: true,
            mapped_at_creation: false,
        }
    }

    /// Makes the retained buffer the one for a frame requested at `width` x
    /// `height`. Where the padded size differs from the recorded one, the
    /// result is the request for the buffer that replaces the retained one;
    /// where it is the same, nothing changes and the result is `None`.
    pub fn ensure(&mut self, width: u32, height: u32) -> (fresh: Option<BufferRequest>)
        requires
            fits(width as nat, height as nat),
        ensures
            *final(self) == old(self).after_ensure(width as nat, height as nat),
            final(self).wf(),
            final(self).serves(width as nat, height as nat),
            fresh is None <==> old(self).serves(width as nat, height as nat),
            fresh is None ==> *final(self) == *old(self),
            fresh matches Some(request) ==> request == staging_request(
                staging_bytes(width as nat, height as nat),
            ) && request.size == staging_bytes(width as nat, height as nat),
    {
        proof {
            use_type_invariant(&*self);
            fitting_frame_has_size(width as nat, height as nat);
        }
        let padded_width: u32 = pad(width) as u32;
        let padded_height: u32 = pad(height) as u32;
        if padded_width != self.width || padded_height != self.height {
            self.width = padded_width;
            self.height = padded_height;
            Some(Self::create_output_buffer(padded_width, padded_height))
        } else {
            None
        }
    }

    /// The request that the retained buffer was made with.
    pub fn retained(&self) -> (request: BufferRequest)
        ensures
            request == staging_request(4 * self.padded_width() * self.padded_height()),
            request.size == 4 * self.padded_width() * self.padded_height(),
    {
        proof {
            use_type_invariant(self);
            assert(4 * self.width * self.height <= 0xffff_ffff * 0xffff_ffff) by (nonlinear_arith)
                requires
                    4 * self.width <= 0xffff_ffff,
                    0 <= self.height <= 0xffff_ffff,
            ;
        }
        Self::create_output_buffer(self.width, self.height)
    }

    /// Padded width of the retained buffer, in pixels.
    pub fn width(&self) -> (w: u32)
        ensures
            w == self.padded_width(),
    {
        self.width
    }

    /// Padded height of the retained buffer, in pixels.
    pub fn height(&self) -> (h: u32)
        ensures
            h == self.padded_height(),
    {
        self.height
    }

    /// Size of the retained buffer, in bytes.
    pub fn size(&self) -> (bytes: u64)
        ensures
            bytes == 4 * self.padded_width() * self.padded_height(),
    {
        self.retained().size
    }

    /// Of two requests in a row, the second replaces the retained buffer
    /// exactly where its padded size is not that of the first.
    pub proof fn replaced_iff_padded_size_changes(self, w1: nat, h1: nat, w2: nat, h2: nat)
        requires
            fits(w1, h1),
        ensures
            !self.after_ensure(w1, h1).serves(w2, h2) <==> padded(w1) != padded(w2) || padded(h1)
                != padded(h2),
    {
    }

    /// A request at the size of the request before it keeps the retained
    /// buffer and leaves the manager as it was.
    pub proof fn repeated_request_reuses(self, width: nat, height: nat)
        requires
            fits(width, height),
        ensures
            self.after_ensure(width, height).serves(width, height),
            self.after_ensure(width, height).after_ensure(width, height) == self.after_ensure(
                width,
                height,
            ),
    {
    }

    /// After any request the recorded size is that of the request, padded.
    pub proof fn recorded_size_follows_request(self, width: nat, height: nat)
        requires
            fits(width, height),
        ensures
            self.after_ensure(width, height).wf(),
            self.after_ensure(width, height).padded_width() == padded(width),
            self.after_ensure(width, height).padded_height() == padded(height),
    {
    }
}

} // verus!
