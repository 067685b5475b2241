//! Capability-tagged address wrappers.
//!
//! A raw address can be wrapped, at the caller's explicit say-so, in one of
//! four value types that record which cross-thread capability the caller
//! asserts for it: shared concurrent access from several threads, transfer to
//! a single other thread, or neither, each in a mutable and an immutable
//! flavour. The wrapper carries the address and a phantom element type,
//! nothing more; every conversion between the four kinds keeps the stored
//! address exactly as it is, and the contracts here prove that.

pub mod addr;
pub mod hex;
pub mod ptr;

pub use addr::ConstAddr;
pub use addr::MutAddr;
pub use hex::hex_string;
pub use hex::ptr_text;
pub use ptr::FromConstPtr;
pub use ptr::FromMutPtr;
pub use ptr::SendConstPtr;
pub use ptr::SendMutPtr;
pub use ptr::SyncConstPtr;
pub use ptr::SyncMutPtr;
