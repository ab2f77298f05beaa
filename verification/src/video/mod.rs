pub mod rtp;
pub mod rfc2435;
pub mod nalu;
pub mod queue;
