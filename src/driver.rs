//! The decisions of the frame-polling loop: reading the status register, tracking which
//! subpages of the current image have arrived, and storing a converted subpage in the
//! caller's buffer.
use vstd::prelude::*;

use crate::error::LibraryError;
use crate::register::Subpage;

verus! {

/// Mask of the status bits naming the subpage measured last.
pub const STATUS_SUBPAGE_MASK: u16 = 0x0007;

/// Status bit set when a new subpage is ready.
pub const STATUS_NEW_DATA: u16 = 0x0008;

/// What a status register value says: `None` when no new subpage is ready, the subpage
/// that is ready otherwise, and an error when the subpage field names no subpage.
pub open spec fn status_meaning(word: u16) -> Result<Option<Subpage>, LibraryError> {
    if word & STATUS_SUBPAGE_MASK > 1 {
        Err(LibraryError::Status(word))
    } else if word & STATUS_NEW_DATA == 0 {
        Ok(None)
    } else if word & STATUS_SUBPAGE_MASK == 0 {
        Ok(Some(Subpage::Zero))
    } else {
        Ok(Some(Subpage::One))
    }
}

/// Reads a status register value.
pub fn decode_status(word: u16) -> (r: Result<Option<Subpage>, LibraryError>)
    ensures
        r == status_meaning(word),
{
    let subpage_bits = word & STATUS_SUBPAGE_MASK;
    if subpage_bits > 1 {
        Err(LibraryError::Status(word))
    } else if word & STATUS_NEW_DATA == 0 {
        Ok(None)
    } else if subpage_bits == 0 {
        Ok(Some(Subpage::Zero))
    } else {
        Ok(Some(Subpage::One))
    }
}

/// Which subpages of the image being assembled have arrived.
#[derive(Clone, Copy, Debug, PartialEq, Eq, Structural)]
pub struct FrameTracker {
    /// Whether an image needs both subpages, or any one of them.
    pub two_subpages: bool,
    /// Subpage 0 has arrived since the last complete image.
    pub seen_zero: bool,
    /// Subpage 1 has arrived since the last complete image.
    pub seen_one: bool,
}

/// The tracker after subpage `s` arrives, and whether the image is then complete.
pub open spec fn track(t: FrameTracker, s: Subpage) -> (FrameTracker, bool) {
    let seen_zero = t.seen_zero || s == Subpage::Zero;
    let seen_one = t.seen_one || s == Subpage::One;
    let complete = !t.two_subpages || (seen_zero && seen_one);
    if complete {
        (FrameTracker { two_subpages: t.two_subpages, seen_zero: false, seen_one: false }, true)
    } else {
        (FrameTracker { two_subpages: t.two_subpages, seen_zero, seen_one }, false)
    }
}

impl FrameTracker {
    /// A tracker with no subpage received yet.
    pub fn new(two_subpages: bool) -> (r: FrameTracker)
        ensures
            r == (FrameTracker { two_subpages, seen_zero: false, seen_one: false }),
    {
        FrameTracker { two_subpages, seen_zero: false, seen_one: false }
    }

    /// Records that subpage `s` has been stored; returns whether the buffer now holds a
    /// complete image.
    pub fn record(&mut self, s: Subpage) -> (complete: bool)
        ensures
            (*final(self), complete) == track(*old(self), s),
    {
        let seen_zero = self.seen_zero || s == Subpage::Zero;
        let seen_one = self.seen_one || s == Subpage::One;
        let complete = !self.two_subpages || (seen_zero && seen_one);
        if complete {
            self.seen_zero = false;
            self.seen_one = false;
        } else {
            self.seen_zero = seen_zero;
            self.seen_one = seen_one;
        }
        complete
    }
}

/// Where an image needs both subpages, no single subpage completes it from a fresh
/// tracker, and two subpages complete it exactly when they differ.
pub proof fn lemma_two_subpages_need_two_polls(t: FrameTracker, first: Subpage, second: Subpage)
    requires
        t.two_subpages,
        !t.seen_zero,
        !t.seen_one,
    ensures
        !track(t, first).1,
        track(track(t, first).0, second).1 <==> first != second,
{
}

/// Stores one converted subpage in the caller's buffer: each pixel of the subpage takes its
/// value, or `sentinel` where the pixel has failed; the other pixels keep theirs. A buffer
/// whose length is not the pixel count is refused and left untouched.
pub fn store_subpage<T: Copy>(
    out: &mut [T],
    values: &[T],
    in_subpage: &[bool],
    failed: &[bool],
    sentinel: T,
) -> (r: Result<(), LibraryError>)
    requires
        values@.len() == in_subpage@.len(),
        failed@.len() == in_subpage@.len(),
    ensures
        old(out)@.len() != in_subpage@.len() ==> r == Err::<(), LibraryError>(
            LibraryError::InvalidData("output buffer length differs from the pixel count"),
        ) && final(out)@ == old(out)@,
        old(out)@.len() == in_subpage@.len() ==> r is Ok && final(out)@.len() == old(out)@.len()
            && forall|i: int|
            0 <= i < in_subpage@.len() ==> #[trigger] final(out)@[i] == if !in_subpage@[i] {
                old(out)@[i]
            } else if failed@[i] {
                sentinel
            } else {
                values@[i]
            },
{
    if out.len() != in_subpage.len() {
        return Err(LibraryError::InvalidData("output buffer length differs from the pixel count"));
    }
    let ghost before = out@;
    let mut i: usize = 0;
    while i < in_subpage.len()
        invariant
            i <= in_subpage@.len(),
            values@.len() == in_subpage@.len(),
            failed@.len() == in_subpage@.len(),
            out@.len() == before.len(),
            before.len() == in_subpage@.len(),
            forall|j: int|
                0 <= j < i ==> #[trigger] out@[j] == if !in_subpage@[j] {
                    before[j]
                } else if failed@[j] {
                    sentinel
                } else {
                    values@[j]
                },
            forall|j: int| i <= j < out@.len() ==> #[trigger] out@[j] == before[j],
        decreases in_subpage@.len() - i,
    {
        if in_subpage[i] {
            if failed[i] {
                out[i] = sentinel;
            } else {
                out[i] = values[i];
            }
        }
        i += 1;
    }
    Ok(())
}

} // verus!
