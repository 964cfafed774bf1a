//! Host-side core of a real-time N-body simulation whose physics step runs in
//! a GPU compute kernel.
//!
//! The crate holds the parts that decide: which bodies a scenario starts
//! with, which scenario is active, which of the two body buffers a frame
//! reads and which it writes, what is uploaded before a dispatch, and how
//! mouse input steers the camera. Talking to the GPU and to the window is
//! left to the caller, who is handed plain values to act on.
//!
//! Every single-precision number the GPU consumes is held here by its
//! IEEE-754 binary32 bit pattern in a `u32`; [`simulation::scalar`] names the
//! patterns the crate itself writes and orders patterns the way the numbers
//! they encode are ordered.

pub mod rendering;
pub mod simulation;
