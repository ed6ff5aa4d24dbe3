//! A single-threaded execution engine for services: a primary sequence and a
//! growable, compacting collection of secondary jobs, swept in turn until a
//! sweep makes no progress or the behavior gives a definitive result.
//!
//! `job` decides what each poll outcome leads to, `engine` holds the job
//! collection and the sweep's position, and `laws` states what holds across
//! these steps.

pub mod engine;
pub mod job;
pub mod laws;
