use vstd::prelude::*;

verus! {

/// Lifecycle of the GPU-side resources behind the composite draw: nothing
/// exists until the first non-empty frame; afterwards the cached texture
/// is keyed by the dimensions it was built for.
#[derive(Clone, Copy, Debug, PartialEq, Eq, Structural)]
pub enum UploadState {
    Uninitialized,
    Ready { width: u32, height: u32 },
}

/// What the render back end must execute this render frame. The node only
/// decides; the host's GPU device performs the work.
#[derive(Clone, Copy, Debug, PartialEq, Eq, Structural)]
pub enum UploadAction {
    /// No usable image yet: touch nothing and draw nothing.
    Wait,
    /// First non-empty frame: create the full-screen quad vertex and index
    /// buffers (kept forever after), a texture of the frame's dimensions
    /// with a tightly packed row stride of four bytes per pixel, its
    /// sampler and bind group, and upload the pixels.
    CreateAll { width: u32, height: u32 },
    /// Dimensions unchanged: write the pixels into the existing texture;
    /// no buffer or bind-group churn.
    Reupload,
    /// Dimensions changed: discard and recreate the texture, view, sampler
    /// and bind group (the quad buffers are dimension-independent and
    /// persist), then upload the pixels.
    Rebuild { width: u32, height: u32 },
}

/// An image drives the pipeline only once it has pixels.
pub open spec fn image_nonempty(width: u32, height: u32) -> bool {
    width > 0 && height > 0
}

/// The single rebuild predicate: what consuming an image of the given
/// dimensions asks of the GPU, from each state.
pub open spec fn upload_action(s: UploadState, width: u32, height: u32) -> UploadAction {
    if !image_nonempty(width, height) {
        UploadAction::Wait
    } else {
        match s {
            UploadState::Uninitialized => UploadAction::CreateAll { width, height },
            UploadState::Ready { width: w0, height: h0 } => {
                if w0 == width && h0 == height {
                    UploadAction::Reupload
                } else {
                    UploadAction::Rebuild { width, height }
                }
            },
        }
    }
}

/// The state after consuming an image of the given dimensions.
pub open spec fn next_upload_state(s: UploadState, width: u32, height: u32) -> UploadState {
    if !image_nonempty(width, height) {
        s
    } else {
        UploadState::Ready { width, height }
    }
}

/// The per-render-target background node: consumes the shared image once
/// per render frame and decides what the GPU must do, per the
/// dimension-rebuild policy. One instance exists per active pass type; the
/// host render graph runs it immediately before the main pass.
pub struct BackgroundNode {
    pub state: UploadState,
}

impl BackgroundNode {
    pub fn new() -> (r: BackgroundNode)
        ensures
            r.state == UploadState::Uninitialized,
    {
        BackgroundNode { state: UploadState::Uninitialized }
    }

    /// Once per render frame, with the shared image's current dimensions:
    /// returns the action the GPU back end must execute and advances the
    /// cached-texture state accordingly.
    pub fn update(&mut self, width: u32, height: u32) -> (a: UploadAction)
        ensures
            a == upload_action(old(self).state, width, height),
            final(self).state == next_upload_state(old(self).state, width, height),
    {
        if width == 0 || height == 0 {
            return UploadAction::Wait;
        }
        let a = match self.state {
            UploadState::Uninitialized => UploadAction::CreateAll { width, height },
            UploadState::Ready { width: w0, height: h0 } => {
                if w0 == width && h0 == height {
                    UploadAction::Reupload
                } else {
                    UploadAction::Rebuild { width, height }
                }
            },
        };
        self.state = UploadState::Ready { width, height };
        a
    }
}

/// Dimension-change rebuild: once a frame of one size has been consumed,
/// a frame of a different size forces exactly a rebuild of the
/// dimension-dependent resources, and a frame of the same size forces
/// none — only a pixel re-upload.
pub proof fn lemma_dimension_change_rebuild(w0: u32, h0: u32, w1: u32, h1: u32)
    requires
        image_nonempty(w0, h0),
        image_nonempty(w1, h1),
    ensures
        next_upload_state(UploadState::Uninitialized, w0, h0) == (UploadState::Ready {
            width: w0,
            height: h0,
        }),
        (w1 != w0 || h1 != h0) ==> upload_action(
            UploadState::Ready { width: w0, height: h0 },
            w1,
            h1,
        ) == (UploadAction::Rebuild { width: w1, height: h1 }),
        (w1 == w0 && h1 == h0) ==> upload_action(
            UploadState::Ready { width: w0, height: h0 },
            w1,
            h1,
        ) == UploadAction::Reupload,
{
}

} // verus!
