//! The parts a chart is assembled from.

pub mod scale;
