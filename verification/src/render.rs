//! The accumulation of frames in two buffers.
//!
//! Each frame reads what the frames before it have gathered from one
//! buffer and writes to the other; the frame counter tells which is which.
//! When the view or the resolution changes, what was gathered is void and the
//! counter starts again from 0.

use vstd::prelude::*;
use crate::math::Ext2;
use crate::uniform::CameraDescriptor;

verus! {

/// The number of accumulation buffers.
pub const COLLECTOR_COUNT: usize = 2;

/// The roles of the two buffers in one frame, each by its index.
#[derive(Copy, Clone, Debug, PartialEq, Eq)]
pub struct Buffers {
    /// The buffer that holds what was gathered so far.
    pub read: usize,
    /// The buffer that the frame writes and that is then shown.
    pub write: usize,
}

/// One frame to draw.
#[derive(Copy, Clone, Debug, PartialEq, Eq)]
pub struct Pass {
    /// The counter of the frame, for the system record.
    pub frame_index: u32,
    /// The buffer to gather from, and the buffer to write to and to present.
    pub buffers: Buffers,
    /// The size of the image on which the frame is presented.
    pub resolution: Ext2<u32>,
}

/// The roles of the buffers in the frame with this counter: the frame reads
/// the buffer of the counter's parity and writes the other one.
pub open spec fn spec_select_buffers(frame_index: u32) -> Buffers {
    Buffers { read: (frame_index % 2) as usize, write: ((frame_index + 1) % 2) as usize }
}

/// The counter of the frame after the one with this counter. After the
/// greatest counter comes 0, so that the buffers go on to alternate.
pub open spec fn spec_next_frame(frame_index: u32) -> u32 {
    if frame_index == u32::MAX {
        0
    } else {
        (frame_index + 1) as u32
    }
}

/// The counter after `ticks` frames from `frame_index` on, with nothing that
/// resets it in between.
pub open spec fn frame_after(frame_index: u32, ticks: nat) -> u32
    decreases ticks,
{
    if ticks == 0 {
        frame_index
    } else {
        spec_next_frame(frame_after(frame_index, (ticks - 1) as nat))
    }
}

/// The roles of the buffers in the frame with this counter.
pub fn select_buffers(frame_index: u32) -> (r: Buffers)
    ensures
        r == spec_select_buffers(frame_index),
        r.read < COLLECTOR_COUNT,
        r.write < COLLECTOR_COUNT,
        r.read != r.write,
{
    let parity: u32 = frame_index & 1;
    assert(parity == frame_index % 2) by (bit_vector)
        requires
            parity == frame_index & 1,
    ;
    let read: usize = parity as usize;
    Buffers { read, write: 1 - read }
}

/// The two buffers have different roles in every frame.
pub proof fn lemma_buffers_distinct(frame_index: u32)
    ensures
        spec_select_buffers(frame_index).read < COLLECTOR_COUNT,
        spec_select_buffers(frame_index).write < COLLECTOR_COUNT,
        spec_select_buffers(frame_index).read != spec_select_buffers(frame_index).write,
{
}

/// The roles swap from each frame to the next: what one frame has written,
/// the next frame reads, and it writes what the first has read.
pub proof fn lemma_buffers_swap(frame_index: u32)
    ensures
        spec_select_buffers(frame_index).read == spec_select_buffers(
            spec_next_frame(frame_index),
        ).write,
        spec_select_buffers(frame_index).write == spec_select_buffers(
            spec_next_frame(frame_index),
        ).read,
{
}

/// While nothing resets it, the counter goes up by 1 with each frame and
/// never falls back, as long as it stays within its range.
pub proof fn lemma_frames_count_up(frame_index: u32, ticks: nat)
    requires
        frame_index + ticks <= u32::MAX,
    ensures
        frame_after(frame_index, ticks) == frame_index + ticks,
        ticks > 0 ==> frame_after(frame_index, ticks) == frame_after(
            frame_index,
            (ticks - 1) as nat,
        ) + 1,
    decreases ticks,
{
    if ticks > 0 {
        lemma_frames_count_up(frame_index, (ticks - 1) as nat);
    }
}

/// The state of the accumulation: the size of its buffers and the counter of
/// the next frame.
pub struct Render {
    extent: Ext2<u32>,
    static_frame_index: u32,
}

impl Render {
    /// The size of the two buffers and of the surface.
    pub closed spec fn spec_extent(&self) -> Ext2<u32> {
        self.extent
    }

    /// The counter of the next frame.
    pub closed spec fn spec_frame_index(&self) -> u32 {
        self.static_frame_index
    }

    /// The accumulation at its start, for a surface of the given size.
    pub fn new(surface_ext: Ext2<u32>) -> (r: Self)
        ensures
            r.spec_extent() == surface_ext,
            r.spec_frame_index() == 0,
    {
        Render { extent: surface_ext, static_frame_index: 0 }
    }

    /// The size of the two buffers and of the surface.
    #[verifier::when_used_as_spec(spec_extent)]
    pub fn extent(&self) -> (r: Ext2<u32>)
        ensures
            r == self.spec_extent(),
    {
        self.extent
    }

    /// The counter of the next frame.
    #[verifier::when_used_as_spec(spec_frame_index)]
    pub fn frame_index(&self) -> (r: u32)
        ensures
            r == self.spec_frame_index(),
    {
        self.static_frame_index
    }

    /// The roles of the buffers in the next frame.
    pub fn select_buffers(&self) -> (r: Buffers)
        ensures
            r == spec_select_buffers(self.spec_frame_index()),
            r.read < COLLECTOR_COUNT,
            r.write < COLLECTOR_COUNT,
            r.read != r.write,
    {
        select_buffers(self.static_frame_index)
    }

    /// Takes a new size for the buffers and the surface. What was gathered is
    /// void: the counter is 0 afterwards, also where the size is the one it
    /// was.
    pub fn resize(&mut self, new_extent: Ext2<u32>)
        ensures
            final(self).spec_extent() == new_extent,
            final(self).spec_frame_index() == 0,
    {
        self.static_frame_index = 0;
        self.extent = new_extent;
    }

    /// Voids what was gathered: the counter is 0 afterwards, the size is
    /// kept.
    pub fn invalidate(&mut self)
        ensures
            final(self).spec_extent() == old(self).spec_extent(),
            final(self).spec_frame_index() == 0,
    {
        self.static_frame_index = 0;
    }

    /// Counts one frame.
    pub fn advance_frame(&mut self)
        ensures
            final(self).spec_extent() == old(self).spec_extent(),
            final(self).spec_frame_index() == spec_next_frame(old(self).spec_frame_index()),
    {
        self.static_frame_index = if self.static_frame_index == u32::MAX {
            0
        } else {
            self.static_frame_index + 1
        };
    }

    /// Takes a new view: returns the bytes of the camera record to upload,
    /// and voids what was gathered under the old view.
    pub fn set_camera(&mut self, camera_data: &CameraDescriptor) -> (bytes: Vec<u8>)
        ensures
            bytes@ == camera_data.spec_record_bytes(),
            final(self).spec_extent() == old(self).spec_extent(),
            final(self).spec_frame_index() == 0,
    {
        self.static_frame_index = 0;
        camera_data.record_bytes()
    }

    /// Plans one frame on a surface image of the given size, and counts it.
    pub fn render_frame(&mut self, resolution: Ext2<u32>) -> (pass: Pass)
        ensures
            pass == (Pass {
                frame_index: old(self).spec_frame_index(),
                buffers: spec_select_buffers(old(self).spec_frame_index()),
                resolution,
            }),
            final(self).spec_extent() == old(self).spec_extent(),
            final(self).spec_frame_index() == spec_next_frame(old(self).spec_frame_index()),
    {
        let pass = Pass {
            frame_index: self.static_frame_index,
            buffers: self.select_buffers(),
            resolution,
        };
        self.advance_frame();
        pass
    }

    /// Plans one frame on the surface image of the given size, and counts
    /// it. Where no image could be had there is no frame, and nothing
    /// changes.
    pub fn render(&mut self, image: Option<Ext2<u32>>) -> (pass: Option<Pass>)
        ensures
            final(self).spec_extent() == old(self).spec_extent(),
            match image {
                Some(resolution) => {
                    &&& pass == Some(
                        Pass {
                            frame_index: old(self).spec_frame_index(),
                            buffers: spec_select_buffers(old(self).spec_frame_index()),
                            resolution,
                        },
                    )
                    &&& final(self).spec_frame_index() == spec_next_frame(
                        old(self).spec_frame_index(),
                    )
                },
                None => {
                    &&& pass is None
                    &&& final(self).spec_frame_index() == old(self).spec_frame_index()
                },
            },
    {
        match image {
            Some(resolution) => Some(self.render_frame(resolution)),
            None => None,
        }
    }
}

} // verus!
