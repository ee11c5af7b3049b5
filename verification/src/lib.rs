//! A multi-instance stopwatch engine: a bounded, ordered collection of
//! independently ticking day/hour/minute/second clocks with a selection
//! cursor, user labels, and a consistent snapshot read path.

pub mod clock;
pub mod registry;
