//! File-sorting engine: classifies newly arrived files, resolves name
//! conflicts at their destination, drives the move with its fallbacks and
//! keeps each path from being handled twice.

pub mod text;
pub mod classifier;
pub mod resolver;
pub mod mover;
pub mod tracker;
pub mod records;
pub mod pipeline;
pub mod batch;
