//! Geometry of a two-stage face pipeline: the anchor grid of the detector, the
//! resize-and-pad mapping between a frame and a square model input, the layout of
//! the model tensors, and the decisions that lead one frame from detection to
//! landmarks.
//!
//! Everything here works on integers. Coordinates that are fractions in the
//! mathematical description are kept as exact ratios of integers; turning them
//! into machine fractions is left to the caller.

pub mod face_detector;
pub mod face_landmark;
pub mod face_loop;
pub mod image_util;
pub mod row_major;
pub mod ssd;
pub mod tflite;
