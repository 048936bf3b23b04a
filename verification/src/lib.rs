// A verified streaming byte-copy library: a block-buffered copier that hands
// every input byte onward in order, a rate-limited progress tracker, and the
// small pieces of command-line logic they are driven by.

pub mod bytebuf;
pub mod cli;
pub mod copier;
pub mod progress;
pub mod render;
