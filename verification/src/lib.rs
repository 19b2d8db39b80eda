//! A verified model of a minimal GPU transfer/compute pipeline: device and
//! queue-family selection, host-visible buffer allocation, one-shot command
//! recording (a buffer-to-buffer copy or a compute dispatch), submission and
//! fence-synchronised completion, with the host allowed to read a buffer only
//! once its fence has been signaled.

pub mod buffer;
pub mod compute;
pub mod device;
pub mod matrix;
pub mod pipeline;
pub mod session;
