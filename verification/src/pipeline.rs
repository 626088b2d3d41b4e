//! The top-level pipeline: the context object that owns the negotiated
//! pixel format, the audio buffer pool, the audio FIFO and the single-slot
//! video mailbox, and exposes the sinks the computation core calls into and
//! the presenter the display thread runs.
//!
//! The sinks never block and never fail the core: a null frame is a no-op,
//! an exhausted pool allocates, and a full audio batch is always accepted.

use vstd::prelude::*;

use crate::audio::{AudioBuffer, AudioQueue, BufferPool};
use crate::format::{CorePixelFormat, EmulatorPixelFormat};
use crate::pixel::convert_pixel_array_from_rgb565_to_xrgb8888;
use crate::pixel::convert_565_seq;
use crate::video::{pack_xrgb8888, pack_8888_seq, render_frame, rendered_surface, VideoFrame};

verus! {

/// What one presenter pass did, so the display thread knows whether to
/// update the surface and whether to emit the once-only idle diagnostic.
pub enum PresentOutcome {
    /// A frame was waiting: here is the finished surface buffer.
    Updated(Vec<u32>),
    /// Nothing new arrived; the previously displayed frame stands.
    Retained,
    /// No frame has ever arrived: worth one diagnostic.
    NoFrameYet,
    /// Still no frame ever, already reported: stay silent.
    Idle,
}

/// The pipeline state shared by the sinks and the consumers.
pub struct Pipeline {
    /// The pixel format the core announced (32-bit until negotiated).
    pub pixel_format: EmulatorPixelFormat,
    /// Bytes per pixel of `pixel_format`, cached for the hot paths.
    pub bytes_per_pixel: u8,
    /// The free-list of reusable audio sample buffers.
    pub pool: BufferPool,
    /// The FIFO carrying filled audio buffers to the playback thread.
    pub audio_queue: AudioQueue,
    /// The single-slot video mailbox: each new frame overwrites the last
    /// unconsumed one, since only the latest frame is ever displayed.
    pub video_mailbox: Option<VideoFrame>,
    /// Whether any frame has ever been handed to the display surface.
    pub displayed_any: bool,
    /// Whether the "no frame yet" diagnostic has already been given.
    pub no_frame_reported: bool,
}

impl Pipeline {
    /// The pipeline invariant: the cached bytes-per-pixel value agrees with
    /// the negotiated format, the pool is conserving buffers, and a frame
    /// waiting in the mailbox has positive dimensions.
    pub open spec fn well_formed(&self) -> bool {
        &&& self.bytes_per_pixel == self.pixel_format.0.spec_bytes_per_pixel()
        &&& self.pool.well_formed()
        &&& match self.video_mailbox {
            Some(frame) => frame.width >= 1 && frame.height >= 1,
            None => true,
        }
    }

    /// A new pipeline: 32-bit frames assumed until the core negotiates
    /// otherwise, a pool of `pool_capacity` buffers of `chunk_len` samples,
    /// no audio queued, no frame received.
    pub fn new(pool_capacity: usize, chunk_len: usize) -> (pipeline: Self)
        ensures
            pipeline.well_formed(),
            pipeline.pixel_format.0 == CorePixelFormat::Xrgb8888,
            pipeline.bytes_per_pixel == 4,
            pipeline.pool.capacity() == pool_capacity,
            pipeline.pool.chunk_len() == chunk_len,
            pipeline.pool.free_buffers().len() == pool_capacity,
            pipeline.pool.handed_out() == 0,
            pipeline.pool.empty_acquires() == 0,
            pipeline.audio_queue@.len() == 0,
            pipeline.video_mailbox is None,
            !pipeline.displayed_any,
            !pipeline.no_frame_reported,
    {
        Pipeline {
            pixel_format: EmulatorPixelFormat(CorePixelFormat::Xrgb8888),
            bytes_per_pixel: 4,
            pool: BufferPool::new(pool_capacity, chunk_len),
            audio_queue: AudioQueue::new(),
            video_mailbox: None,
            displayed_any: false,
            no_frame_reported: false,
        }
    }

    /// Applies one pixel-format negotiation event: records the format and
    /// caches its bytes-per-pixel value for the video paths.
    pub fn on_pixel_format(&mut self, format: CorePixelFormat)
        requires
            old(self).well_formed(),
        ensures
            final(self).well_formed(),
            final(self).pixel_format.0 == format,
            final(self).bytes_per_pixel == format.spec_bytes_per_pixel(),
            final(self).pool == old(self).pool,
            final(self).audio_queue == old(self).audio_queue,
            final(self).video_mailbox == old(self).video_mailbox,
            final(self).displayed_any == old(self).displayed_any,
            final(self).no_frame_reported == old(self).no_frame_reported,
    {
        self.pixel_format = EmulatorPixelFormat(format);
        self.bytes_per_pixel = format.bytes_per_pixel();
    }

    /// Drains the queued pixel-format negotiation events; the last one wins.
    /// With no event pending the format is left as it is.
    pub fn set_up_pixel_format(&mut self, events: &Vec<CorePixelFormat>)
        requires
            old(self).well_formed(),
        ensures
            final(self).well_formed(),
            events@.len() == 0 ==> *final(self) == *old(self),
            events@.len() > 0 ==> {
                &&& final(self).pixel_format.0 == events@.last()
                &&& final(self).bytes_per_pixel == events@.last().spec_bytes_per_pixel()
            },
            final(self).pool == old(self).pool,
            final(self).audio_queue == old(self).audio_queue,
            final(self).video_mailbox == old(self).video_mailbox,
            final(self).displayed_any == old(self).displayed_any,
            final(self).no_frame_reported == old(self).no_frame_reported,
    {
        let mut i: usize = 0;
        while i < events.len()
            invariant
                old(self).well_formed(),
                self.well_formed(),
                i <= events@.len(),
                i == 0 ==> self == old(self),
                i > 0 ==> self.pixel_format.0 == events@[i - 1]
                    && self.bytes_per_pixel == events@[i - 1].spec_bytes_per_pixel(),
                self.pool == old(self).pool,
                self.audio_queue == old(self).audio_queue,
                self.video_mailbox == old(self).video_mailbox,
                self.displayed_any == old(self).displayed_any,
                self.no_frame_reported == old(self).no_frame_reported,
            decreases events@.len() - i,
        {
            self.on_pixel_format(events[i]);
            i = i + 1;
        }
    }

    /// The video refresh sink, called by the core once per simulated frame.
    ///
    /// A `None` frame means "duplicate the previous frame": the call is a
    /// no-op and the pipeline is left exactly as it was. Otherwise the raw
    /// bytes — `pitch` bytes per row, `height` rows — are normalized to
    /// 32-bit pixels (converted from 5-6-5 when the negotiated format is
    /// 16-bit, reassembled as-is when it is already 32-bit) and the result
    /// overwrites whatever older frame was still waiting in the mailbox.
    pub fn video_refresh(
        &mut self,
        frame_data: Option<&[u8]>,
        width: u32,
        height: u32,
        pitch: u32,
    )
        requires
            old(self).well_formed(),
            frame_data matches Some(bytes) ==> {
                &&& width >= 1
                &&& height >= 1
                &&& bytes@.len() == pitch as int * height as int
                &&& bytes@.len() as int % old(self).bytes_per_pixel as int == 0
            },
        ensures
            final(self).well_formed(),
            frame_data is None ==> *final(self) == *old(self),
            frame_data matches Some(bytes) ==> {
                &&& final(self).video_mailbox matches Some(frame)
                &&& frame.width == width
                &&& frame.height == height
                &&& frame.pitch == pitch
                &&& frame.frame_buffer@ == if old(self).bytes_per_pixel == 2 {
                    convert_565_seq(bytes@)
                } else {
                    pack_8888_seq(bytes@)
                }
                &&& final(self).pixel_format == old(self).pixel_format
                &&& final(self).bytes_per_pixel == old(self).bytes_per_pixel
                &&& final(self).pool == old(self).pool
                &&& final(self).audio_queue == old(self).audio_queue
                &&& final(self).displayed_any == old(self).displayed_any
                &&& final(self).no_frame_reported == old(self).no_frame_reported
            },
    {
        match frame_data {
            None => {
                // Some cores signal "duplicate the previous frame" this way.
            },
            Some(bytes) => {
                let frame_buffer: Vec<u32> = if self.bytes_per_pixel == 2 {
                    convert_pixel_array_from_rgb565_to_xrgb8888(bytes)
                } else {
                    pack_xrgb8888(bytes)
                };
                self.video_mailbox = Some(
                    VideoFrame { frame_buffer, width, height, pitch },
                );
            },
        }
    }

    /// The audio sink, called by the core with a batch of `frames`
    /// interleaved stereo frames (`frames * 2` samples). A pooled buffer is
    /// acquired (never blocking — the pool allocates when exhausted),
    /// cleared, filled with a copy of the samples, and queued behind every
    /// chunk submitted before it. The whole batch is always accepted.
    pub fn audio_sample_batch(&mut self, samples: &[i16], frames: usize) -> (accepted: usize)
        requires
            old(self).well_formed(),
            samples@.len() == frames * 2,
        ensures
            final(self).well_formed(),
            accepted == frames,
            final(self).audio_queue@.len() == old(self).audio_queue@.len() + 1,
            forall|i: int|
                0 <= i < old(self).audio_queue@.len() ==> final(self).audio_queue@[i] == old(self).audio_queue@[i],
            final(self).audio_queue@.last()@ == samples@,
            final(self).pool.capacity() == old(self).pool.capacity(),
            final(self).pool.chunk_len() == old(self).pool.chunk_len(),
            final(self).pool.handed_out() == old(self).pool.handed_out() + 1,
            old(self).pool.free_buffers().len() > 0 ==> {
                &&& final(self).pool.free_buffers() == old(self).pool.free_buffers().drop_last()
                &&& final(self).pool.empty_acquires() == old(self).pool.empty_acquires()
            },
            old(self).pool.free_buffers().len() == 0 ==> {
                &&& final(self).pool.free_buffers() == old(self).pool.free_buffers()
                &&& final(self).pool.empty_acquires() == old(self).pool.empty_acquires() + 1
            },
            final(self).pixel_format == old(self).pixel_format,
            final(self).bytes_per_pixel == old(self).bytes_per_pixel,
            final(self).video_mailbox == old(self).video_mailbox,
            final(self).displayed_any == old(self).displayed_any,
            final(self).no_frame_reported == old(self).no_frame_reported,
    {
        let mut buffer = self.pool.acquire();
        buffer.clear();
        buffer.extend_from_slice(samples);
        self.audio_queue.send(buffer);
        frames
    }

    /// Hands a drained buffer back to the pool once the playback thread has
    /// finished with it.
    pub fn return_audio_buffer(&mut self, buffer: AudioBuffer)
        requires
            old(self).well_formed(),
            old(self).pool.handed_out() >= 1,
        ensures
            final(self).well_formed(),
            final(self).pool.handed_out() == old(self).pool.handed_out() - 1,
            final(self).pool.capacity() == old(self).pool.capacity(),
            final(self).pool.chunk_len() == old(self).pool.chunk_len(),
            final(self).pool.empty_acquires() == old(self).pool.empty_acquires(),
            old(self).pool.free_buffers().len() < old(self).pool.capacity() ==> final(self).pool.free_buffers() == old(self).pool.free_buffers().push(buffer),
            old(self).pool.free_buffers().len() >= old(self).pool.capacity() ==> final(self).pool.free_buffers() == old(self).pool.free_buffers(),
            final(self).pixel_format == old(self).pixel_format,
            final(self).bytes_per_pixel == old(self).bytes_per_pixel,
            final(self).audio_queue == old(self).audio_queue,
            final(self).video_mailbox == old(self).video_mailbox,
            final(self).displayed_any == old(self).displayed_any,
            final(self).no_frame_reported == old(self).no_frame_reported,
    {
        self.pool.release(buffer);
    }

    /// One pass of the presenter on the display thread.
    ///
    /// A waiting frame is taken from the mailbox, scaled by the largest
    /// integer factor that fits the surface, centered, and blitted into a
    /// fresh surface buffer. With nothing waiting the surface is left
    /// untouched: the previously displayed frame stands, and only the very
    /// first frameless pass is worth a diagnostic.
    pub fn present(&mut self, surface_width: usize, surface_height: usize) -> (outcome:
        PresentOutcome)
        requires
            old(self).well_formed(),
            surface_width * surface_height <= usize::MAX,
        ensures
            final(self).well_formed(),
            final(self).pixel_format == old(self).pixel_format,
            final(self).bytes_per_pixel == old(self).bytes_per_pixel,
            final(self).pool == old(self).pool,
            final(self).audio_queue == old(self).audio_queue,
            final(self).video_mailbox is None,
            old(self).video_mailbox matches Some(frame) ==> {
                &&& outcome matches PresentOutcome::Updated(surface)
                    && surface@ == rendered_surface(
                    frame,
                    old(self).bytes_per_pixel,
                    surface_width as int,
                    surface_height as int,
                )
                &&& final(self).displayed_any
                &&& final(self).no_frame_reported == old(self).no_frame_reported
            },
            old(self).video_mailbox is None ==> {
                &&& final(self).displayed_any == old(self).displayed_any
                &&& old(self).displayed_any ==> outcome is Retained && final(self).no_frame_reported == old(self).no_frame_reported
                &&& !old(self).displayed_any && !old(self).no_frame_reported ==> outcome
                    is NoFrameYet && final(self).no_frame_reported
                &&& !old(self).displayed_any && old(self).no_frame_reported ==> outcome is Idle
                    && final(self).no_frame_reported
            },
    {
        match self.video_mailbox.take() {
            Some(frame) => {
                let surface = render_frame(
                    &frame,
                    self.bytes_per_pixel,
                    surface_width,
                    surface_height,
                );
                self.displayed_any = true;
                PresentOutcome::Updated(surface)
            },
            None => {
                if self.displayed_any {
                    PresentOutcome::Retained
                } else if !self.no_frame_reported {
                    self.no_frame_reported = true;
                    PresentOutcome::NoFrameYet
                } else {
                    PresentOutcome::Idle
                }
            },
        }
    }
}

} // verus!
