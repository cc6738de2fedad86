//! One-shot capture of a block of analog samples and the bookkeeping around it.
//!
//! The crate holds the decisions of a capture pipeline: how the sample block
//! comes into being, when a transfer may start and when it counts as finished,
//! how the mean of a block is taken out, exactly, before a transform, and in
//! which order the result is handed to a log. The peripherals themselves, the
//! transform and the log transport stay with the program that drives them.
pub mod buffer;
pub mod transfer;
pub mod offset;
pub mod report;
