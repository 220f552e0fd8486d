//! A multi-producer, single-consumer channel, proved against a mathematical
//! model of its state, together with a handful of smaller verified utilities.

pub mod channels;
pub mod dispatch;
pub mod iterators;
pub mod refcell;
pub mod sorting;
pub mod strsplit;
