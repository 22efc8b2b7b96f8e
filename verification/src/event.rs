//! The records that the notification queue delivers.

use vstd::prelude::*;

verus! {

/// The mask bit of a request for permission to open a file.
pub const OPEN_PERMISSION: u64 = 0x0001_0000;

/// The mask bit of the notice that a file open for writing was closed.
pub const CLOSE_AFTER_WRITE: u64 = 0x0000_0008;

/// One record read from the notification queue.
#[derive(Clone, Copy, Debug, PartialEq, Eq, Structural)]
pub struct RawEvent {
    /// The bits that say what happened.
    pub mask: u64,
    /// The descriptor that the kernel opened on the file concerned. `None`
    /// marks a record that stands for events lost to a full queue.
    pub file: Option<i32>,
    /// The process that caused the event.
    pub pid: i32,
}

/// Which of the two kinds of event that the monitor knows a mask holds. The
/// two are independent; one record may hold both.
#[derive(Clone, Copy, Debug, PartialEq, Eq, Structural)]
pub struct EventKinds {
    /// A process asks for permission to open the file and waits for the answer.
    pub open_permission: bool,
    /// A file that was open for writing has been closed.
    pub close_write: bool,
}

/// What a record amounts to.
#[derive(Clone, Copy, Debug, PartialEq, Eq, Structural)]
pub enum Delivery {
    /// Events were lost; which ones cannot be known.
    Overflow,
    /// An event on an open file.
    Delivered { file: i32, pid: i32, kinds: EventKinds },
}

/// Whether every bit of `flag` is set in `mask`.
pub open spec fn holds(mask: u64, flag: u64) -> bool {
    mask & flag == flag
}

/// The kinds of event in `mask`.
pub open spec fn kinds_of(mask: u64) -> EventKinds {
    EventKinds {
        open_permission: holds(mask, OPEN_PERMISSION),
        close_write: holds(mask, CLOSE_AFTER_WRITE),
    }
}

/// Tells which kinds of event a mask holds.
pub fn classify(mask: u64) -> (kinds: EventKinds)
    ensures
        kinds == kinds_of(mask),
{
    EventKinds {
        open_permission: mask & OPEN_PERMISSION == OPEN_PERMISSION,
        close_write: mask & CLOSE_AFTER_WRITE == CLOSE_AFTER_WRITE,
    }
}

impl RawEvent {
    /// What the record amounts to.
    pub open spec fn delivered(self) -> Delivery {
        match self.file {
            None => Delivery::Overflow,
            Some(file) => Delivery::Delivered { file, pid: self.pid, kinds: kinds_of(self.mask) },
        }
    }

    /// Tells an overflow marker from a delivered event, and classifies the
    /// latter.
    pub fn delivery(&self) -> (d: Delivery)
        ensures
            d == self.delivered(),
    {
        match self.file {
            None => Delivery::Overflow,
            Some(file) => Delivery::Delivered { file, pid: self.pid, kinds: classify(self.mask) },
        }
    }
}

/// The two kinds are told by separate bits: setting or clearing the bit of
/// one in a mask leaves the other as it was, and a mask of both bits holds
/// both.
pub proof fn law_kinds_are_independent(mask: u64)
    ensures
        kinds_of(mask | OPEN_PERMISSION).open_permission,
        kinds_of(mask | OPEN_PERMISSION).close_write == kinds_of(mask).close_write,
        !kinds_of(mask & !OPEN_PERMISSION).open_permission,
        kinds_of(mask & !OPEN_PERMISSION).close_write == kinds_of(mask).close_write,
        kinds_of(mask | CLOSE_AFTER_WRITE).close_write,
        kinds_of(mask | CLOSE_AFTER_WRITE).open_permission == kinds_of(mask).open_permission,
        !kinds_of(mask & !CLOSE_AFTER_WRITE).close_write,
        kinds_of(mask & !CLOSE_AFTER_WRITE).open_permission == kinds_of(mask).open_permission,
        kinds_of(0) == (EventKinds { open_permission: false, close_write: false }),
        kinds_of(OPEN_PERMISSION | CLOSE_AFTER_WRITE) == (EventKinds {
            open_permission: true,
            close_write: true,
        }),
{
    assert((mask | 0x0001_0000u64) & 0x0001_0000u64 == 0x0001_0000u64) by (bit_vector);
    assert(((mask | 0x0001_0000u64) & 0x0000_0008u64 == 0x0000_0008u64) == (mask & 0x0000_0008u64
        == 0x0000_0008u64)) by (bit_vector);
    assert((mask & !0x0001_0000u64) & 0x0001_0000u64 != 0x0001_0000u64) by (bit_vector);
    assert(((mask & !0x0001_0000u64) & 0x0000_0008u64 == 0x0000_0008u64) == (mask & 0x0000_0008u64
        == 0x0000_0008u64)) by (bit_vector);
    assert((mask | 0x0000_0008u64) & 0x0000_0008u64 == 0x0000_0008u64) by (bit_vector);
    assert(((mask | 0x0000_0008u64) & 0x0001_0000u64 == 0x0001_0000u64) == (mask & 0x0001_0000u64
        == 0x0001_0000u64)) by (bit_vector);
    assert((mask & !0x0000_0008u64) & 0x0000_0008u64 != 0x0000_0008u64) by (bit_vector);
    assert(((mask & !0x0000_0008u64) & 0x0001_0000u64 == 0x0001_0000u64) == (mask & 0x0001_0000u64
        == 0x0001_0000u64)) by (bit_vector);
    assert(0u64 & 0x0001_0000u64 != 0x0001_0000u64) by (bit_vector);
    assert(0u64 & 0x0000_0008u64 != 0x0000_0008u64) by (bit_vector);
    assert((0x0001_0000u64 | 0x0000_0008u64) & 0x0001_0000u64 == 0x0001_0000u64) by (bit_vector);
    assert((0x0001_0000u64 | 0x0000_0008u64) & 0x0000_0008u64 == 0x0000_0008u64) by (bit_vector);
}

} // verus!
