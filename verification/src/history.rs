//! Ping-pong history images.
//!
//! Temporal passes keep two history images and swap their roles every
//! frame: with write index 0 the first is written and the second read, with
//! any other write index the other way round.
use vstd::prelude::*;

verus! {

/// The roles of the two history images under a write index: (written, read).
pub open spec fn history_roles<T>(history_write_index: u32, a: T, b: T) -> (T, T) {
    if history_write_index == 0 {
        (a, b)
    } else {
        (b, a)
    }
}

/// The history image a pass writes this frame and the one it reads.
pub fn history_pair<T: Copy>(history_write_index: u32, a: T, b: T) -> (pair: (T, T))
    ensures
        pair == history_roles(history_write_index, a, b),
{
    if history_write_index == 0 {
        (a, b)
    } else {
        (b, a)
    }
}

/// The history image written this frame.
pub fn history_current<T: Copy>(history_write_index: u32, a: T, b: T) -> (current: T)
    ensures
        current == history_roles(history_write_index, a, b).0,
{
    if history_write_index == 0 {
        a
    } else {
        b
    }
}

/// The image of a two-element history selected by the write index.
pub fn history_at<T: Copy>(history: &[T; 2], history_write_index: u32) -> (image: T)
    requires
        history_write_index < 2,
    ensures
        image == history@[history_write_index as int],
{
    history[history_write_index as usize]
}

/// With the write index alternating between 0 and 1 from frame to frame,
/// the image written in one frame is the one read in the next and the image
/// read in one frame is the one written in the next.
pub proof fn lemma_history_alternates<T>(history_write_index: u32, a: T, b: T)
    requires
        history_write_index < 2,
    ensures
        history_roles(history_write_index, a, b).0 == history_roles((1 - history_write_index) as u32, a, b).1,
        history_roles(history_write_index, a, b).1 == history_roles((1 - history_write_index) as u32, a, b).0,
{
}

/// Under write index 0 the first image is written and the second read;
/// under any other index the second is written and the first read.
pub proof fn lemma_history_roles<T>(history_write_index: u32, a: T, b: T)
    ensures
        history_write_index == 0 ==> history_roles(history_write_index, a, b) == (a, b),
        history_write_index != 0 ==> history_roles(history_write_index, a, b) == (b, a),
{
}

} // verus!
