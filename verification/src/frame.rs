//! The decisions of one frame.
//!
//! Each frame the iteration budget is derived from the zoom, the centre of
//! the view (the camera) and the current reference point are scored against
//! it, and the reference is kept, replaced by the camera, or searched for
//! anew. The renderer is then told the zoom, the aspect ratio, the offset of
//! the camera from the reference and the number of meaningful orbit entries.
//!
//! Single-precision numbers are held as their bit patterns throughout.

use vstd::prelude::*;
use crate::bits::{hundredfold, hundredfold_of, ONE, ZERO};

verus! {

/// The largest iteration budget, and the length of the orbit buffer.
pub const MAX_ITER: u32 = 20000;

/// The iteration budget at zoom one.
pub const BASE_ITERS: u32 = 500;

/// The iteration budget for a zoom whose decimal logarithm, times one
/// hundred and cut to an integer, is `log_term`: the base plus that term,
/// capped from above. A zoom below one has a negative term and less than the
/// base; a budget cannot go below zero.
pub open spec fn target_for(log_term: int) -> u32 {
    if BASE_ITERS + log_term > MAX_ITER {
        MAX_ITER
    } else if BASE_ITERS + log_term >= 0 {
        (BASE_ITERS + log_term) as u32
    } else {
        0
    }
}

/// The iteration budget of a frame. `log_term` is one hundred times the
/// decimal logarithm of the zoom, cut to an integer.
pub fn target_iterations(log_term: i64) -> (target: u32)
    ensures
        target == target_for(log_term as int),
        target <= MAX_ITER,
{
    if log_term > (MAX_ITER - BASE_ITERS) as i64 {
        MAX_ITER
    } else if log_term >= -(BASE_ITERS as i64) {
        (BASE_ITERS as i64 + log_term) as u32
    } else {
        0
    }
}

/// The point that a frame's orbit is anchored on.
#[derive(Clone, Copy, Debug, PartialEq, Eq, Structural)]
pub enum Reference {
    /// The camera survives the budget: the reference becomes the camera,
    /// exactly, and the offset is zero.
    Camera,
    /// The point that the search returned becomes the reference.
    Found,
    /// The reference of the frame before is kept, whether it survives the
    /// budget or not.
    Previous,
}

/// Where the update of a frame stands.
#[derive(Clone, Copy, Debug, PartialEq, Eq, Structural)]
pub enum FrameStage {
    /// The caller is to score the camera and the current reference against
    /// the budget.
    Scoring,
    /// Neither survives: the caller is to search around the camera. The
    /// reference scored this much.
    Searching { reference_score: u32 },
    /// The reference of the frame is decided.
    Settled { reference: Reference },
}

/// The stage after camera and reference were scored. A score equal to the
/// budget means that the point survived. A camera that survived is the
/// reference; failing that, a reference that survived stays; failing that,
/// a search is due.
pub open spec fn after_scores(target: u32, camera_score: u32, reference_score: u32) -> FrameStage {
    if camera_score == target {
        FrameStage::Settled { reference: Reference::Camera }
    } else if reference_score != target {
        FrameStage::Searching { reference_score }
    } else {
        FrameStage::Settled { reference: Reference::Previous }
    }
}

/// The stage after a search that was due returned a point with this score:
/// the point is taken only where it scores strictly higher than the
/// reference did.
pub open spec fn after_search(reference_score: u32, found_score: u32) -> FrameStage {
    if found_score > reference_score {
        FrameStage::Settled { reference: Reference::Found }
    } else {
        FrameStage::Settled { reference: Reference::Previous }
    }
}

/// The update of one frame in progress.
pub struct FrameUpdate {
    target: u32,
    stage: FrameStage,
}

impl FrameUpdate {
    /// The iteration budget of the frame.
    pub closed spec fn budget(&self) -> u32 {
        self.target
    }

    /// Where the update stands.
    pub closed spec fn progress(&self) -> FrameStage {
        self.stage
    }

    /// Starts the update of a frame. `log_zoom` is the decimal logarithm of
    /// the zoom, narrowed to single precision.
    pub fn begin(log_zoom: u32) -> (update: Self)
        ensures
            update.budget() == target_for(hundredfold_of(log_zoom)),
            update.progress() == FrameStage::Scoring,
    {
        FrameUpdate {
            target: target_iterations(hundredfold(log_zoom)),
            stage: FrameStage::Scoring,
        }
    }

    /// The iteration budget of the frame.
    pub fn target(&self) -> (t: u32)
        ensures
            t == self.budget(),
    {
        self.target
    }

    /// What the caller is to do next.
    pub fn stage(&self) -> (s: FrameStage)
        ensures
            s == self.progress(),
    {
        self.stage
    }

    /// Takes the escape times of the camera and of the current reference
    /// under the frame's budget. Past the scoring stage nothing changes.
    pub fn scored(&mut self, camera_score: u32, reference_score: u32)
        ensures
            final(self).budget() == old(self).budget(),
            final(self).progress() == (match old(self).progress() {
                FrameStage::Scoring => after_scores(
                    old(self).budget(),
                    camera_score,
                    reference_score,
                ),
                stage => stage,
            }),
    {
        if let FrameStage::Scoring = self.stage {
            if camera_score == self.target {
                self.stage = FrameStage::Settled { reference: Reference::Camera };
            } else if reference_score != self.target {
                self.stage = FrameStage::Searching { reference_score };
            } else {
                self.stage = FrameStage::Settled { reference: Reference::Previous };
            }
        }
    }

    /// Takes the score of the point that the search returned. Where no
    /// search was due nothing changes.
    pub fn searched(&mut self, found_score: u32)
        ensures
            final(self).budget() == old(self).budget(),
            final(self).progress() == (match old(self).progress() {
                FrameStage::Searching { reference_score } => after_search(
                    reference_score,
                    found_score,
                ),
                stage => stage,
            }),
    {
        if let FrameStage::Searching { reference_score } = self.stage {
            if found_score > reference_score {
                self.stage = FrameStage::Settled { reference: Reference::Found };
            } else {
                self.stage = FrameStage::Settled { reference: Reference::Previous };
            }
        }
    }

    /// The reference of the frame, once it is decided.
    pub fn reference(&self) -> (r: Option<Reference>)
        ensures
            r == (match self.progress() {
                FrameStage::Settled { reference } => Some(reference),
                _ => None,
            }),
    {
        match self.stage {
            FrameStage::Settled { reference } => Some(reference),
            _ => None,
        }
    }

    /// The parameters of the frame, once its reference is decided.
    /// `measured` is the difference of camera and reference, scaled by the
    /// zoom and narrowed; `valid_len` is the number of meaningful entries of
    /// the reference's orbit.
    pub fn uniforms(&self, zoom: u32, aspect: u32, measured: (u32, u32), valid_len: u32) -> (r:
        Option<Uniforms>)
        ensures
            r == (match self.progress() {
                FrameStage::Settled { reference } => Some(
                    uniforms_for(reference, zoom, aspect, measured, valid_len),
                ),
                _ => None,
            }),
    {
        match self.stage {
            FrameStage::Settled { reference } => Some(
                Uniforms::for_frame(reference, zoom, aspect, measured, valid_len),
            ),
            _ => None,
        }
    }
}

/// Whether the offset of the camera from the reference has to be measured:
/// in every frame that is not anchored on the camera itself.
pub fn needs_offset(reference: Reference) -> (r: bool)
    ensures
        r == (reference != Reference::Camera),
{
    match reference {
        Reference::Camera => false,
        _ => true,
    }
}

/// The parameters that the renderer reads, in the order in which it reads
/// them. Each is four bytes wide; twelve bytes of padding follow them in the
/// record, which has 32 bytes in all.
#[derive(Clone, Copy, Debug, PartialEq, Eq, Structural)]
pub struct Uniforms {
    /// The zoom, narrowed to single precision.
    pub zoom: u32,
    /// The width of the viewport over its height, in single precision.
    pub aspect: u32,
    /// The real part of the camera's offset from the reference, scaled by
    /// the zoom, in single precision.
    pub offset_re: u32,
    /// The imaginary part of that offset.
    pub offset_im: u32,
    /// The number of meaningful entries of the orbit.
    pub iter_count: u32,
}

/// The parameters of a frame.
pub open spec fn uniforms_for(
    reference: Reference,
    zoom: u32,
    aspect: u32,
    measured: (u32, u32),
    valid_len: u32,
) -> Uniforms {
    Uniforms {
        zoom,
        aspect,
        offset_re: if reference == Reference::Camera {
            ZERO
        } else {
            measured.0
        },
        offset_im: if reference == Reference::Camera {
            ZERO
        } else {
            measured.1
        },
        iter_count: valid_len,
    }
}

impl Uniforms {
    /// The parameters before the first frame: zoom and aspect one, no
    /// offset, no orbit.
    pub fn new() -> (u: Self)
        ensures
            u == (Uniforms {
                zoom: ONE,
                aspect: ONE,
                offset_re: ZERO,
                offset_im: ZERO,
                iter_count: 0,
            }),
    {
        Uniforms {
            zoom: ONE,
            aspect: ONE,
            offset_re: ZERO,
            offset_im: ZERO,
            iter_count: 0,
        }
    }

    /// The parameters of a frame. `measured` is the difference of camera and
    /// reference, scaled by the zoom and narrowed; it is read only where the
    /// frame's reference is not the camera, whose offset is zero by
    /// construction. `valid_len` is the number of meaningful orbit entries.
    pub fn for_frame(reference: Reference, zoom: u32, aspect: u32, measured: (u32, u32), valid_len: u32)
        -> (u: Self)
        ensures
            u == uniforms_for(reference, zoom, aspect, measured, valid_len),
    {
        let (offset_re, offset_im) = match reference {
            Reference::Camera => (ZERO, ZERO),
            _ => measured,
        };
        Uniforms { zoom, aspect, offset_re, offset_im, iter_count: valid_len }
    }

    /// The record as the renderer reads it: eight words of four bytes, the
    /// last three of them padding.
    pub fn words(&self) -> (w: [u32; 8])
        ensures
            w@ == seq![
                self.zoom,
                self.aspect,
                self.offset_re,
                self.offset_im,
                self.iter_count,
                0u32,
                0u32,
                0u32,
            ],
    {
        let w: [u32; 8] = [
            self.zoom,
            self.aspect,
            self.offset_re,
            self.offset_im,
            self.iter_count,
            0,
            0,
            0,
        ];
        assert(w@ =~= seq![
            self.zoom,
            self.aspect,
            self.offset_re,
            self.offset_im,
            self.iter_count,
            0u32,
            0u32,
            0u32,
        ]);
        w
    }
}

/// What went wrong when a frame was to be presented.
#[derive(Clone, Copy, Debug, PartialEq, Eq, Structural)]
pub enum SurfaceFailure {
    /// The surface was lost.
    Lost,
    /// The device is out of memory.
    OutOfMemory,
    /// Anything else.
    Other,
}

/// What to do about a failed frame.
#[derive(Clone, Copy, Debug, PartialEq, Eq, Structural)]
pub enum Recovery {
    /// Configure the surface again; the next frame retries.
    Reconfigure,
    /// Give up and end the program.
    Exit,
    /// Report the failure and skip the frame.
    Skip,
}

/// The response to a failed frame. The view is untouched in each case.
pub fn recovery_for(failure: SurfaceFailure) -> (r: Recovery)
    ensures
        r == (match failure {
            SurfaceFailure::Lost => Recovery::Reconfigure,
            SurfaceFailure::OutOfMemory => Recovery::Exit,
            SurfaceFailure::Other => Recovery::Skip,
        }),
{
    match failure {
        SurfaceFailure::Lost => Recovery::Reconfigure,
        SurfaceFailure::OutOfMemory => Recovery::Exit,
        SurfaceFailure::Other => Recovery::Skip,
    }
}

/// A camera that survives the budget becomes the reference, whatever the
/// reference scores, and the offset of such a frame is zero in both parts.
pub proof fn valid_camera_syncs(
    target: u32,
    reference_score: u32,
    zoom: u32,
    aspect: u32,
    measured: (u32, u32),
    valid_len: u32,
)
    ensures
        after_scores(target, target, reference_score) == (FrameStage::Settled {
            reference: Reference::Camera,
        }),
        uniforms_for(Reference::Camera, zoom, aspect, measured, valid_len).offset_re == 0,
        uniforms_for(Reference::Camera, zoom, aspect, measured, valid_len).offset_im == 0,
{
}

/// The offset of a frame is zero where the camera is the reference, and is
/// otherwise the measured difference, unchanged.
pub proof fn offset_follows_reference(
    reference: Reference,
    zoom: u32,
    aspect: u32,
    measured: (u32, u32),
    valid_len: u32,
)
    ensures
        ({
            let u = uniforms_for(reference, zoom, aspect, measured, valid_len);
            &&& reference == Reference::Camera ==> u.offset_re == 0 && u.offset_im == 0
            &&& reference != Reference::Camera ==> u.offset_re == measured.0 && u.offset_im
                == measured.1
        }),
{
}

/// A search is due only where neither the camera nor the reference survives
/// the budget, and its point replaces the reference only with a strictly
/// higher score.
pub proof fn reference_replaced_by_rule(
    target: u32,
    camera_score: u32,
    reference_score: u32,
    found_score: u32,
)
    ensures
        after_scores(target, camera_score, reference_score) == (FrameStage::Searching {
            reference_score,
        }) <==> (camera_score != target && reference_score != target),
        after_search(reference_score, found_score) == (FrameStage::Settled {
            reference: Reference::Found,
        }) <==> found_score > reference_score,
{
}

} // verus!
