//! Bounded frame queue: keeps the newest frames, dropping the oldest when full.
use vstd::prelude::*;
use crate::frame::{Frame, PixelFormat};

verus! {

pub const MAX_QUEUED_FRAMES: usize = 3;

/// Two frames with the same fields.
pub open spec fn same_frame(a: Frame, b: Frame) -> bool {
    &&& a.timestamp == b.timestamp
    &&& a.width == b.width
    &&& a.height == b.height
    &&& a.format == b.format
    &&& a.data@ == b.data@
    &&& a.frame_id == b.frame_id
}

/// Frame queue holding at most MAX_QUEUED_FRAMES frames, oldest first.
pub struct FrameQueue {
    frames: Vec<Frame>,
}

impl FrameQueue {
    /// The queued frames, oldest first.
    pub closed spec fn contents(&self) -> Seq<Frame> {
        self.frames@
    }

    pub open spec fn wf(&self) -> bool {
        self.contents().len() <= MAX_QUEUED_FRAMES
    }

    pub fn new() -> (q: Self)
        ensures
            q.contents() == Seq::<Frame>::empty(),
            q.wf(),
    {
        FrameQueue { frames: Vec::new() }
    }

    /// Appends a frame, first dropping the oldest when the queue is full.
    pub fn push(&mut self, frame: Frame)
        requires
            old(self).wf(),
        ensures
            final(self).wf(),
            final(self).contents() == (if old(self).contents().len() >= MAX_QUEUED_FRAMES {
                old(self).contents().drop_first()
            } else {
                old(self).contents()
            }).push(frame),
    {
        if self.frames.len() >= MAX_QUEUED_FRAMES {
            self.frames.remove(0);
        }
        self.frames.push(frame);
    }

    /// A copy of the newest frame, if any.
    pub fn peek_frame(&self) -> (r: Option<Frame>)
        ensures
            r is None <==> self.contents().len() == 0,
            r matches Some(f) ==> same_frame(f, self.contents().last()),
    {
        let n = self.frames.len();
        if n == 0 {
            None
        } else {
            Some(self.frames[n - 1].duplicate())
        }
    }

    /// Takes the oldest frame, if any.
    pub fn recv(&mut self) -> (r: Option<Frame>)
        requires
            old(self).wf(),
        ensures
            final(self).wf(),
            old(self).contents().len() == 0 ==> r is None && final(self).contents() == old(self).contents(),
            old(self).contents().len() > 0 ==> r == Some(old(self).contents()[0]) && final(self).contents()
                == old(self).contents().drop_first(),
    {
        if self.frames.len() == 0 {
            None
        } else {
            Some(self.frames.remove(0))
        }
    }
}

/// A captured frame after the encoder ran on it: on success it carries the
/// encoded bytes as H.264; on failure it is queued as captured.
pub fn encoded_frame(frame: Frame, encoded: Result<Vec<u8>, String>) -> (r: Frame)
    ensures
        r.timestamp == frame.timestamp && r.width == frame.width && r.height == frame.height
            && r.frame_id == frame.frame_id,
        encoded matches Ok(d) ==> r.data == d && r.format == PixelFormat::H264,
        encoded is Err ==> r == frame,
{
    match encoded {
        Ok(d) => {
            let mut f = frame;
            f.data = d;
            f.format = PixelFormat::H264;
            f
        },
        Err(_) => frame,
    }
}

/// Frames come out of the queue in the order they went in: pushing into a
/// queue with room and then receiving from a non-empty queue yields its
/// oldest frame, and the pushed frame stays last.
pub proof fn queue_is_fifo(before: Seq<Frame>, f: Frame)
    requires
        before.len() < MAX_QUEUED_FRAMES,
    ensures
        before.push(f).last() == f,
        before.len() > 0 ==> before.push(f)[0] == before[0],
        before.len() > 0 ==> before.push(f).drop_first() == before.drop_first().push(f),
{
    if before.len() > 0 {
        assert(before.push(f).drop_first() =~= before.drop_first().push(f));
    }
}

} // verus!
