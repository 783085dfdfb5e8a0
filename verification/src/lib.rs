//! A lightweight typed publish/subscribe layer over named OS message queues.
//!
//! The library holds the parts that can be stated and proved: the fixed-size
//! message envelope, the fixed-layout value codec, topic-name validation, the
//! decisions of the per-topic dispatch loop, and the wire-frame mirroring
//! logic.  The surrounding process glue (the queue system calls, the worker
//! thread, the subscriber callbacks) lives outside the library and consumes
//! these verified pieces.

pub mod codec;
pub mod msg;
pub mod pad;
pub mod samples;
pub mod topic;
pub mod wire;
