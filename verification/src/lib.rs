//! A typing-practice trainer's core: a session engine that walks a fixed
//! practice text one classified keystroke at a time, and a statistics
//! tracker that folds the outcomes into accuracy, speed and streak figures.
//! All terminal, file and audio work lives outside this crate; the engine
//! and tracker see plain characters and millisecond counts only.

pub mod engine;
pub mod stats;
