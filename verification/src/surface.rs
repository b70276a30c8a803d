use crate::geometry::Scalar;
use vstd::prelude::*;

verus! {

/// The width and the height that the drawing surface is taken to have until
/// its size is known: 1000 units, as the bits of a double.
pub const DEFAULT_SURFACE_EXTENT_BITS: u64 = 0x408F_4000_0000_0000;

/// The size of the drawing surface on screen.
#[derive(Debug, Clone, Copy, PartialEq, Eq, Structural)]
pub struct SurfaceSize {
    pub width: Scalar,
    pub height: Scalar,
}

/// Keeps the size of the drawing surface, which is learned by asking and
/// getting an answer later. Every question gets a number, each larger than
/// the one before; only the answer to the latest question counts, so a late
/// answer to an earlier question cannot overwrite a newer one.
#[derive(Debug, Clone, Copy, PartialEq, Eq, Structural)]
pub struct SurfaceTracker {
    /// The number of the latest question; 0 before the first.
    pub latest_request: u64,
    pub size: SurfaceSize,
}

impl SurfaceTracker {
    /// The tracker before any question was asked.
    pub open spec fn initial() -> SurfaceTracker {
        SurfaceTracker {
            latest_request: 0,
            size: SurfaceSize {
                width: Scalar { bits: DEFAULT_SURFACE_EXTENT_BITS },
                height: Scalar { bits: DEFAULT_SURFACE_EXTENT_BITS },
            },
        }
    }

    /// Whether the numbers have run out.
    pub open spec fn exhausted(self) -> bool {
        self.latest_request == u64::MAX
    }

    /// The tracker after one more question was asked.
    pub open spec fn after_request(self) -> SurfaceTracker {
        if self.exhausted() {
            self
        } else {
            SurfaceTracker { latest_request: (self.latest_request + 1) as u64, ..self }
        }
    }

    /// Whether an answer to the question `request` counts.
    pub open spec fn accepts(self, request: u64) -> bool {
        request != 0 && request == self.latest_request
    }

    /// The tracker after the answer `size` to the question `request` arrived.
    pub open spec fn after_response(self, request: u64, size: SurfaceSize) -> SurfaceTracker {
        if self.accepts(request) {
            SurfaceTracker { size, ..self }
        } else {
            self
        }
    }

    /// A tracker that holds the default size and has asked nothing.
    pub fn new() -> (r: Self)
        ensures
            r == Self::initial(),
    {
        SurfaceTracker {
            latest_request: 0,
            size: SurfaceSize {
                width: Scalar::from_bits(DEFAULT_SURFACE_EXTENT_BITS),
                height: Scalar::from_bits(DEFAULT_SURFACE_EXTENT_BITS),
            },
        }
    }

    /// Numbers a new question. None when the numbers have run out; then
    /// nothing changes.
    pub fn request(&mut self) -> (r: Option<u64>)
        ensures
            *final(self) == old(self).after_request(),
            r == if old(self).exhausted() {
                None
            } else {
                Some(final(self).latest_request)
            },
    {
        if self.latest_request == u64::MAX {
            None
        } else {
            self.latest_request = self.latest_request + 1;
            Some(self.latest_request)
        }
    }

    /// Takes the answer to the question `request`; returns whether it counted.
    pub fn respond(&mut self, request: u64, size: SurfaceSize) -> (applied: bool)
        ensures
            *final(self) == old(self).after_response(request, size),
            applied == old(self).accepts(request),
    {
        if request != 0 && request == self.latest_request {
            self.size = size;
            true
        } else {
            false
        }
    }
}

/// Once a newer question was asked, the answer to an older one is dropped.
pub proof fn lemma_stale_response_dropped(t: SurfaceTracker, request: u64, size: SurfaceSize)
    requires
        request <= t.latest_request,
        !t.exhausted(),
    ensures
        t.after_request().after_response(request, size) == t.after_request(),
{
}

/// The answer to the latest question sets the size, whatever was asked before.
pub proof fn lemma_latest_response_applied(t: SurfaceTracker, size: SurfaceSize)
    requires
        !t.exhausted(),
    ensures
        t.after_request().after_response(t.after_request().latest_request, size).size == size,
{
}

} // verus!
