//! Logical clocks (Lamport and vector) and the decision logic of a node that
//! stamps local events, sends timestamped messages and merges received ones.

pub mod time;
pub mod lamport;
pub mod vector;
pub mod data;
pub mod run;
