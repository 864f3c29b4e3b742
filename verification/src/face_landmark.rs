//! The landmark model: the side of its input and where the values of each
//! landmark stand in its raw output.

use vstd::prelude::*;

verus! {

/// Values that the raw landmark tensor holds for each landmark.
pub const LANDMARK_VALUES: usize = 3;

/// Where the three values of one landmark stand in the raw landmark tensor.
#[derive(Clone, Copy, Debug, PartialEq, Eq, Structural)]
pub struct LandmarkSlot {
    /// Index of the column value (x).
    pub x: usize,
    /// Index of the row value (y).
    pub y: usize,
    /// Index of the depth (z).
    pub z: usize,
}

/// Where the values of landmark number `i` stand.
pub open spec fn landmark_slot(i: int) -> LandmarkSlot {
    LandmarkSlot { x: (3 * i) as usize, y: (3 * i + 1) as usize, z: (3 * i + 2) as usize }
}

/// The landmark model's fixed data: the side of its square input.
pub struct FaceLandmark {
    size: usize,
}

impl FaceLandmark {
    /// The side of the square input.
    pub closed spec fn spec_size(&self) -> usize {
        self.size
    }

    /// The reference landmark model, with a square input of 192 pixels.
    pub fn new() -> (landmark: Self)
        ensures
            landmark.spec_size() == 192,
    {
        FaceLandmark { size: 192 }
    }

    /// The side of the square input.
    pub fn size(&self) -> (size: usize)
        ensures
            size == self.spec_size(),
    {
        self.size
    }

    /// Where the values of each landmark stand in a raw landmark tensor of
    /// `landmarks_len` values, in the order of the model's output. There is
    /// none if the tensor does not hold three values for each landmark, or if
    /// the likelihood tensor, of `likelihood_len` values, is empty: the
    /// likelihood of the whole set is its first value, taken as it is.
    pub fn landmark_slots(&self, landmarks_len: usize, likelihood_len: usize) -> (slots: Option<
        Vec<LandmarkSlot>,
    >)
        ensures
            slots is Some <==> landmarks_len % 3 == 0 && likelihood_len >= 1,
            slots matches Some(list) ==> {
                &&& 3 * list@.len() == landmarks_len
                &&& forall|i: int| 0 <= i < list@.len() ==> #[trigger] list@[i] == landmark_slot(i)
            },
    {
        if landmarks_len % LANDMARK_VALUES != 0 || likelihood_len == 0 {
            return None;
        }
        let count = landmarks_len / LANDMARK_VALUES;
        let mut list: Vec<LandmarkSlot> = Vec::new();
        let mut i: usize = 0;
        while i < count
            invariant
                i <= count,
                3 * count == landmarks_len,
                list@.len() == i,
                forall|k: int| 0 <= k < i ==> #[trigger] list@[k] == landmark_slot(k),
            decreases count - i,
        {
            list.push(LandmarkSlot { x: 3 * i, y: 3 * i + 1, z: 3 * i + 2 });
            i += 1;
        }
        Some(list)
    }
}

} // verus!
