//! A terminal dashboard layout library.
//!
//! The crate partitions a rectangular canvas into a header line and four
//! titled panel regions (CPU, GPU, Disk, Memory), decides how many random
//! samples each graph panel needs, and drives the quit-on-keypress state
//! machine of the surrounding application. All of it is verified; drawing,
//! event reading and random sampling live in the binary around the library.

pub mod app;
pub mod geometry;
pub mod layout;
pub mod panel;
