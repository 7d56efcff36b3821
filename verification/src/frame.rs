use vstd::prelude::*;

verus! {

/// The mathematical content of a frame: its dimensions and its RGBA bytes,
/// four bytes (red, green, blue, alpha) per pixel, rows packed tightly with
/// a stride of `4 * width` bytes, top row first.
pub ghost struct FramePixels {
    pub width: nat,
    pub height: nat,
    pub data: Seq<u8>,
}

impl FramePixels {
    /// A frame is well formed when it holds exactly `4 * width * height` bytes.
    pub open spec fn wf(self) -> bool {
        self.data.len() == 4 * self.width * self.height
    }
}

/// An immutable RGBA pixel buffer with its dimensions, produced once per
/// capture iteration. Ownership moves from the capture worker to the
/// consumer over the frame channel; a frame is never mutated after it is
/// built.
pub struct Frame {
    width: u32,
    height: u32,
    data: Vec<u8>,
}

impl View for Frame {
    type V = FramePixels;

    closed spec fn view(&self) -> FramePixels {
        FramePixels {
            width: self.width as nat,
            height: self.height as nat,
            data: self.data@,
        }
    }
}

impl Frame {
    #[verifier::type_invariant]
    closed spec fn inv(self) -> bool {
        self@.wf()
    }

    /// Builds a frame from raw RGBA bytes; refuses a buffer whose length
    /// does not match the dimensions.
    pub fn new(width: u32, height: u32, data: Vec<u8>) -> (r: Option<Frame>)
        ensures
            r is Some <==> data@.len() == 4 * width * height,
            r matches Some(f) ==> f@ == (FramePixels {
                width: width as nat,
                height: height as nat,
                data: data@,
            }),
    {
        proof {
            assert(4u128 * (width as u128) * (height as u128) <= 0x4_0000_0000_0000_0000u128)
                by (nonlinear_arith)
                requires width <= 0x1_0000_0000u128 && height <= 0x1_0000_0000u128;
        }
        if (data.len() as u128) == 4u128 * (width as u128) * (height as u128) {
            Some(Frame { width, height, data })
        } else {
            None
        }
    }

    pub fn width(&self) -> (r: u32)
        ensures
            r == self@.width,
    {
        self.width
    }

    pub fn height(&self) -> (r: u32)
        ensures
            r == self@.height,
    {
        self.height
    }

    /// The raw RGBA bytes, row-major, `4 * width` bytes per row.
    pub fn bytes(&self) -> (r: &Vec<u8>)
        ensures
            r@ == self@.data,
    {
        &self.data
    }

    /// An owned copy of the frame, byte for byte.
    pub fn duplicate(&self) -> (r: Frame)
        ensures
            r@ == self@,
    {
        proof {
            use_type_invariant(self);
        }
        Frame { width: self.width, height: self.height, data: self.data.clone() }
    }

    /// Every frame that exists satisfies well-formedness; this makes the
    /// fact available to callers outside this module.
    pub fn check_wf(&self)
        ensures
            self@.wf(),
    {
        proof {
            use_type_invariant(self);
        }
    }
}

/// The single latest-frame buffer visible to the render pipeline,
/// overwritten in place once per consumer tick by the coalescing step.
pub struct BackgroundImage(pub Frame);

impl BackgroundImage {
    /// A fresh background image of the given dimensions with every byte
    /// zero, mirroring the all-black buffer the pipeline starts from.
    pub fn new(width: u32, height: u32) -> (r: BackgroundImage)
        requires
            4 * (width as int) * (height as int) <= usize::MAX as int,
        ensures
            r.0@.width == width,
            r.0@.height == height,
            r.0@.data.len() == 4 * width * height,
            forall|i: int| 0 <= i < r.0@.data.len() ==> r.0@.data[i] == 0u8,
    {
        proof {
            assert(4 * (width as int) * (height as int) == 4 * ((width as u128) * (height as u128)))
                by (nonlinear_arith);
        }
        let n: usize = (4u128 * (width as u128) * (height as u128)) as usize;
        let mut data: Vec<u8> = Vec::new();
        let mut i: usize = 0;
        while i < n
            invariant
                i <= n,
                data@.len() == i,
                forall|j: int| 0 <= j < i ==> data@[j] == 0u8,
            decreases n - i,
        {
            data.push(0u8);
            i = i + 1;
        }
        // the buffer was built with exactly 4 * width * height bytes
        BackgroundImage(Frame::new(width, height, data).unwrap())
    }
}

/// The sequence of abstract frames behind a sequence of concrete ones.
pub open spec fn views_of(frames: Seq<Frame>) -> Seq<FramePixels> {
    frames.map_values(|f: Frame| f@)
}

/// The coalescing policy: of all frames queued since the previous tick,
/// only the most recent one becomes the shared image; when none arrived
/// the image is left as it was.
pub open spec fn coalesced(queued: Seq<FramePixels>, current: FramePixels) -> FramePixels {
    if queued.len() > 0 {
        queued.last()
    } else {
        current
    }
}

/// One coalescing pass over the frames drained from the channel this tick:
/// keeps only the last frame, or leaves the image unchanged when no frame
/// arrived.
pub fn apply_drained(image: &mut BackgroundImage, drained: Vec<Frame>)
    ensures
        final(image).0@ == coalesced(views_of(drained@), old(image).0@),
{
    let mut drained = drained;
    let last = drained.pop();
    match last {
        Some(f) => {
            proof {
                assert(views_of(drained@.push(f)).last() == f@);
            }
            image.0 = f;
        },
        None => {},
    }
}

/// Coalescing correctness: whenever at least one frame was pushed between
/// two consumer ticks, one coalescing pass makes the shared image exactly
/// the last pushed frame.
pub proof fn lemma_coalescing_correctness(queued: Seq<FramePixels>, current: FramePixels)
    requires
        queued.len() > 0,
    ensures
        coalesced(queued, current) == queued.last(),
{
}

/// No-new-frame idempotence: when zero frames arrive between two ticks, a
/// coalescing pass leaves the shared image exactly as it was.
pub proof fn lemma_no_new_frame_idempotence(current: FramePixels)
    ensures
        coalesced(Seq::<FramePixels>::empty(), current) == current,
{
}

} // verus!
