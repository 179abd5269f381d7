//! State of the Tower of Hanoi puzzle: poles that hold stacks of ranked disks
//! and refuse a disk that would come to lie on a smaller one.

pub mod error;
pub mod pole;
pub mod rules;

pub use error::PoleError;
pub use pole::Pole;
pub use rules::Disk;
