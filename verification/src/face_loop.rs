//! One frame's way through the pipeline: detection, the choice of the best
//! box, alignment, landmarks. The work itself (inference, resampling) is the
//! caller's; what is decided here is what comes next.

use crate::face_detector::{reference_options, FaceDetector};
use crate::face_landmark::FaceLandmark;
use crate::ssd::anchor_grid;
use vstd::prelude::*;

verus! {

/// The detector and the landmark model of one pipeline.
pub struct FaceLoop {
    detector: FaceDetector,
    landmark: FaceLandmark,
}

/// Whether box `best` has the highest score, and is the first to have it.
pub open spec fn is_best(scores: Seq<u32>, best: int) -> bool {
    &&& 0 <= best < scores.len()
    &&& forall|j: int| 0 <= j < scores.len() ==> scores[j] <= scores[best]
    &&& forall|j: int| 0 <= j < best ==> scores[j] < scores[best]
}

/// There is one best box at most: the choice does not depend on how it is
/// made.
pub proof fn lemma_best_unique(scores: Seq<u32>, a: int, b: int)
    requires
        is_best(scores, a),
        is_best(scores, b),
    ensures
        a == b,
{
    if a < b {
        assert(scores[a] < scores[b]);
        assert(scores[b] <= scores[a]);
    } else if b < a {
        assert(scores[b] < scores[a]);
        assert(scores[a] <= scores[b]);
    }
}

/// Picks the box with the highest score; of several with that score, the
/// first. Each score is given by an integer that orders as the score does.
pub fn select_best(scores: &Vec<u32>) -> (best: Option<usize>)
    ensures
        best is None <==> scores@.len() == 0,
        best matches Some(i) ==> is_best(scores@, i as int),
{
    if scores.len() == 0 {
        return None;
    }
    let mut best: usize = 0;
    let mut i: usize = 1;
    while i < scores.len()
        invariant
            1 <= i <= scores.len(),
            best < i,
            forall|j: int| 0 <= j < i ==> scores@[j] <= scores@[best as int],
            forall|j: int| 0 <= j < best ==> scores@[j] < scores@[best as int],
        decreases scores.len() - i,
    {
        if scores[i] > scores[best] {
            best = i;
        }
        i += 1;
    }
    Some(best)
}

/// Where a frame stands between two steps.
#[derive(Clone, Copy, Debug, PartialEq, Eq, Structural)]
pub enum Stage {
    /// No frame is in work.
    Idle,
    /// The detector is running on the frame.
    Detecting,
    /// The face of box `best` is being aligned and cropped.
    Aligning { best: usize },
    /// The landmark model is running on the crop of box `best`.
    Landmarking { best: usize },
}

/// What the caller reports of the work it was asked to do.
pub enum Event {
    /// A frame is there.
    Frame,
    /// The detector ran; for each box, in order, the integer that stands for
    /// its score.
    Detected { scores: Vec<u32> },
    /// The face was aligned and cropped.
    Aligned,
    /// The two key points that give the face its direction coincide.
    Degenerate,
    /// The landmark model ran.
    Landmarked,
    /// The engine failed to run a model.
    EngineFailed,
}

/// Why a frame is given up without landmarks.
#[derive(Clone, Copy, Debug, PartialEq, Eq, Structural)]
pub enum Skip {
    /// The detector proposed no box: there is no face.
    NoDetection,
    /// The direction of the face cannot be told.
    DegenerateGeometry,
    /// The engine failed; the frame is dropped, the next one is taken as usual.
    Inference,
    /// The report does not answer what was asked for.
    OutOfTurn,
}

/// What the caller is to do next.
#[derive(Clone, Copy, Debug, PartialEq, Eq, Structural)]
pub enum Action {
    /// Fit the frame into the detector's input and run the detector.
    Detect,
    /// Align and crop the face of box `best`.
    Align { best: usize },
    /// Fit the crop into the landmark model's input and run the model.
    Landmark,
    /// Map the landmarks back into the frame through the inverse of the
    /// alignment of box `best`, and hand them out.
    MapBack { best: usize },
    /// Give the frame up.
    Skip(Skip),
}

/// Whether `next` and `action` are what follows `event` at `stage`.
pub open spec fn follows(stage: Stage, event: Event, next: Stage, action: Action) -> bool {
    match (stage, event) {
        (Stage::Idle, Event::Frame) => next == Stage::Detecting && action == Action::Detect,
        (Stage::Detecting, Event::Detected { scores }) => if scores@.len() == 0 {
            next == Stage::Idle && action == Action::Skip(Skip::NoDetection)
        } else {
            exists|best: usize|
                is_best(scores@, best as int) && next == (Stage::Aligning { best }) && action == (
                Action::Align { best })
        },
        (Stage::Aligning { best }, Event::Aligned) => next == (Stage::Landmarking { best })
            && action == Action::Landmark,
        (Stage::Aligning { best }, Event::Degenerate) => next == Stage::Idle && action
            == Action::Skip(Skip::DegenerateGeometry),
        (Stage::Landmarking { best }, Event::Landmarked) => next == Stage::Idle && action == (
        Action::MapBack { best }),
        (Stage::Detecting, Event::EngineFailed) => next == Stage::Idle && action == Action::Skip(
            Skip::Inference,
        ),
        (Stage::Landmarking { best }, Event::EngineFailed) => next == Stage::Idle && action
            == Action::Skip(Skip::Inference),
        _ => next == Stage::Idle && action == Action::Skip(Skip::OutOfTurn),
    }
}

/// How far a frame has come: the number of steps behind it.
pub open spec fn progress(stage: Stage) -> nat {
    match stage {
        Stage::Idle => 0,
        Stage::Detecting => 1,
        Stage::Aligning { .. } => 2,
        Stage::Landmarking { .. } => 3,
    }
}

/// Every step ends the frame or takes it one stage further, so a frame is done
/// after four steps at most; and it ends with landmarks only after the
/// landmark model ran.
pub proof fn lemma_frame_advances(stage: Stage, event: Event, next: Stage, action: Action)
    requires
        follows(stage, event, next, action),
    ensures
        next == Stage::Idle || progress(next) == progress(stage) + 1,
        next == Stage::Idle <==> (action is MapBack || action is Skip),
        action is MapBack ==> stage is Landmarking && event is Landmarked,
        action is Detect <==> stage == Stage::Idle && event is Frame,
{
}

impl FaceLoop {
    /// The detector's fixed data.
    pub closed spec fn spec_detector(&self) -> FaceDetector {
        self.detector
    }

    /// The landmark model's fixed data.
    pub closed spec fn spec_landmark(&self) -> FaceLandmark {
        self.landmark
    }

    /// The reference pipeline: the reference detector and landmark model.
    pub fn new() -> (face_loop: Self)
        ensures
            face_loop.spec_detector().spec_size() == 128,
            face_loop.spec_detector().spec_anchors() == anchor_grid(reference_options()),
            face_loop.spec_detector().spec_anchors().len() == 896,
            face_loop.spec_landmark().spec_size() == 192,
    {
        FaceLoop { detector: FaceDetector::new(), landmark: FaceLandmark::new() }
    }

    /// The detector's fixed data.
    pub fn detector(&self) -> (detector: &FaceDetector)
        ensures
            *detector == self.spec_detector(),
    {
        &self.detector
    }

    /// The landmark model's fixed data.
    pub fn landmark(&self) -> (landmark: &FaceLandmark)
        ensures
            *landmark == self.spec_landmark(),
    {
        &self.landmark
    }

    /// Decides what follows a report: the next stage of the frame and what
    /// the caller is to do. A frame ends with `MapBack` or with `Skip`, and the
    /// stage is then `Idle` again: nothing is kept from one frame to the next.
    pub fn step(&self, stage: Stage, event: &Event) -> (out: (Stage, Action))
        ensures
            follows(stage, *event, out.0, out.1),
            (out.1 is MapBack || out.1 is Skip) <==> out.0 == Stage::Idle,
    {
        match (stage, event) {
            (Stage::Idle, Event::Frame) => (Stage::Detecting, Action::Detect),
            (Stage::Detecting, Event::Detected { scores }) => match select_best(scores) {
                Some(best) => (Stage::Aligning { best }, Action::Align { best }),
                None => (Stage::Idle, Action::Skip(Skip::NoDetection)),
            },
            (Stage::Aligning { best }, Event::Aligned) => (
                Stage::Landmarking { best },
                Action::Landmark,
            ),
            (Stage::Aligning { best }, Event::Degenerate) => (
                Stage::Idle,
                Action::Skip(Skip::DegenerateGeometry),
            ),
            (Stage::Landmarking { best }, Event::Landmarked) => (
                Stage::Idle,
                Action::MapBack { best },
            ),
            (Stage::Detecting, Event::EngineFailed) => (Stage::Idle, Action::Skip(Skip::Inference)),
            (Stage::Landmarking { best }, Event::EngineFailed) => (
                Stage::Idle,
                Action::Skip(Skip::Inference),
            ),
            _ => (Stage::Idle, Action::Skip(Skip::OutOfTurn)),
        }
    }
}

} // verus!
