//! The two operations of the escrow, each as the steps that run on the accounts loaded for it.

pub mod make;
pub mod take;
