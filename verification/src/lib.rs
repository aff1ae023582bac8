//! Hand-pose ingestion and grab-gesture recognition on integer geometry.
//!
//! A tracking sensor reports up to a few hands per frame.  This library turns
//! such a frame into a pose with a fixed digit order, lays the pose out over a
//! fixed pool of visual slots, and recognises a grab of a target from the
//! finger tips that close around it.  Every length is a whole number of
//! micrometres and every quaternion component a whole number of billionths,
//! so that all arithmetic is exact.

pub mod constant;
pub mod digit_set;
pub mod display;
pub mod geometry;
pub mod grab_gesture;
pub mod hand_models;
pub mod pipeline;
pub mod pose_store;
pub mod sensor;
pub mod slots;
