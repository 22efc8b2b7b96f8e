//! The core of a monitor of file accesses on a kernel notification queue.
//!
//! The monitor watches for two kinds of event: a request for permission to
//! open a file, which it always allows, and the closing of a file that was
//! open for writing. For each event it reports the file and the program that
//! caused it.
//!
//! The crate decides; it makes no system call. Whoever drives it reads the
//! kernel's release string and the queue, and does what the monitor asks for.
//!
//! - `version` reads a kernel version from text and orders versions.
//! - `scope` chooses between a watch on a mount and one on a whole
//!   filesystem, by the kernel's release string.
//! - `event` holds the records of the queue and tells their kinds.
//! - `report` holds what is reported of an event and writes it as a line.
//! - `monitor` is the loop as a machine: it takes the outcome of one action
//!   and names the next.
//! - `trace` states what the machine does over whole batches.
//! - `text` holds what the others need of character search and numerals.

pub mod event;
pub mod monitor;
pub mod report;
pub mod scope;
pub mod text;
pub mod trace;
pub mod version;
