//! Polls news sources, drops stories already seen, rewrites headlines and
//! prepares each surviving story for publication.
//!
//! The library holds the decisions of the bot; the program around it does the
//! network requests, the rendering and the waiting.

pub mod cli;
pub mod cycle;
pub mod dedup;
pub mod fanout;
pub mod image;
pub mod news;
pub mod postprocess;
pub mod publish;
pub mod scheduler;
pub mod tumblr;
