//! Samples: the uniquely owned, writable byte regions that carry output
//! payloads, and the policy that decides where a sample comes from.

use vstd::prelude::*;
use crate::buffer::{
    aligned_alignment, aligned_bytes, aligned_filled, aligned_len, aligned_overwrite, aligned_to_vec,
    AlignedBuffer, SAMPLE_ALIGNMENT,
};

verus! {

/// Payload size above which a sample is loaned by the transport instead
/// of being allocated privately.
pub const ZERO_COPY_THRESHOLD: usize = 4096;

#[derive(Debug, PartialEq, Eq)]
enum Storage {
    Private(AlignedBuffer),
    Loaned { handle: u64, region: Vec<u8> },
}

/// A writable byte region: a private aligned buffer or a region loaned by
/// the transport. Which of the two is not visible to the operator.
#[derive(Debug, PartialEq, Eq)]
pub struct Sample {
    storage: Storage,
}

/// True of the sizes that a private region can have: rounded up to the
/// alignment they stay within `isize::MAX`.
pub open spec fn fits_private(len: usize) -> bool {
    len <= isize::MAX - 128
}

/// `len` zero bytes.
pub open spec fn zeros(len: nat) -> Seq<u8> {
    Seq::new(len, |i: int| 0u8)
}

impl View for Sample {
    type V = Seq<u8>;

    /// The bytes of the region.
    closed spec fn view(&self) -> Seq<u8> {
        match self.storage {
            Storage::Private(buffer) => aligned_bytes(buffer),
            Storage::Loaned { handle, region } => region@,
        }
    }
}

impl Sample {
    /// The transport's handle of the loan, if the region is loaned.
    pub closed spec fn loan(&self) -> Option<u64> {
        match self.storage {
            Storage::Private(_) => None,
            Storage::Loaned { handle, region } => Some(handle),
        }
    }

    /// Tells whether a private region of `len` bytes can be had.
    pub fn can_be_private(len: usize) -> (r: bool)
        ensures
            r == fits_private(len),
    {
        len <= isize::MAX as usize - 128
    }

    /// A private, 128-byte-aligned, zero-initialized region of exactly
    /// `len` bytes.
    pub fn private(len: usize) -> (sample: Sample)
        requires
            fits_private(len),
        ensures
            sample@ == zeros(len as nat),
            sample.loan() is None,
    {
        Sample { storage: Storage::Private(aligned_filled(SAMPLE_ALIGNMENT, 0u8, len)) }
    }

    /// Wraps a region that the transport loaned under `handle`.
    pub fn from_loan(handle: u64, region: Vec<u8>) -> (sample: Sample)
        ensures
            sample@ == region@,
            sample.loan() == Some(handle),
    {
        Sample { storage: Storage::Loaned { handle, region } }
    }

    /// The number of bytes in the region.
    pub fn len(&self) -> (len: usize)
        ensures
            len == self@.len(),
    {
        match &self.storage {
            Storage::Private(buffer) => aligned_len(buffer),
            Storage::Loaned { handle: _, region } => region.len(),
        }
    }

    /// The handle under which the transport finds its loan again; `None`
    /// for a private region.
    pub fn loan_handle(&self) -> (handle: Option<u64>)
        ensures
            handle == self.loan(),
    {
        match &self.storage {
            Storage::Private(_) => None,
            Storage::Loaned { handle, region: _ } => Some(*handle),
        }
    }

    /// The alignment that the region is known to have: 128 bytes for a
    /// private region; that of a loaned region is the transport's to say.
    pub fn alignment(&self) -> (align: Option<usize>)
        ensures
            align == if self.loan() is None {
                Some(SAMPLE_ALIGNMENT)
            } else {
                None
            },
    {
        match &self.storage {
            Storage::Private(buffer) => Some(aligned_alignment(buffer)),
            Storage::Loaned { handle: _, region: _ } => None,
        }
    }

    /// Overwrites the whole region with `data`. The region stays where it
    /// is: a loan stays the same loan.
    pub fn copy_from_slice(&mut self, data: &[u8])
        requires
            data@.len() == old(self)@.len(),
        ensures
            final(self)@ == data@,
            final(self).loan() == old(self).loan(),
    {
        match &mut self.storage {
            Storage::Private(buffer) => {
                aligned_overwrite(buffer, data);
            },
            Storage::Loaned { handle: _, region } => {
                let mut i: usize = 0;
                while i < data.len()
                    invariant
                        i <= data@.len(),
                        region@.len() == data@.len(),
                        forall|j: int| 0 <= j < i ==> region@[j] == data@[j],
                    decreases data@.len() - i,
                {
                    region[i] = data[i];
                    i += 1;
                }
                assert(region@ =~= data@);
            },
        }
    }

    /// A copy of the bytes of the region.
    pub fn to_vec(&self) -> (bytes: Vec<u8>)
        ensures
            bytes@ == self@,
    {
        match &self.storage {
            Storage::Private(buffer) => aligned_to_vec(buffer),
            Storage::Loaned { handle: _, region } => {
                let mut bytes: Vec<u8> = Vec::new();
                let mut i: usize = 0;
                while i < region.len()
                    invariant
                        i <= region@.len(),
                        bytes@ == region@.take(i as int),
                    decreases region@.len() - i,
                {
                    bytes.push(region[i]);
                    assert(region@.take(i + 1) == region@.take(i as int).push(region@[i as int]));
                    i += 1;
                }
                assert(region@.take(i as int) == region@);
                bytes
            },
        }
    }
}

/// Where the sample for a payload comes from.
#[derive(Debug, Clone, Copy, PartialEq, Eq, Structural)]
pub enum Route {
    /// A private aligned buffer.
    Private,
    /// A region loaned by the transport.
    Loan,
}

/// The route that a payload of `len` bytes takes under `threshold`.
pub open spec fn route_of(len: usize, threshold: usize) -> Route {
    if len > threshold {
        Route::Loan
    } else {
        Route::Private
    }
}

/// Chooses the route for a payload of `len` bytes: a loan exactly when
/// `len` exceeds the threshold.
pub fn choose_route(len: usize, threshold: usize) -> (route: Route)
    ensures
        route == route_of(len, threshold),
        route == Route::Loan <==> len > threshold,
{
    if len > threshold {
        Route::Loan
    } else {
        Route::Private
    }
}

/// The transport's answer to a request for a loaned region.
#[derive(Debug, PartialEq, Eq)]
pub enum LoanReply {
    /// The region, and the handle under which the transport knows it.
    Granted { handle: u64, region: Vec<u8> },
    /// The transport could not allocate the region.
    Refused,
    /// The reply channel was dropped before an answer came.
    Dropped,
}

} // verus!
