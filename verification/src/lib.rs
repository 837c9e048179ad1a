//! Radiant: the show model of a lighting console.
pub mod attr;
pub mod attr_laws;
pub mod cmd;
pub mod command;
pub mod console;
pub mod cue;
pub mod effect;
pub mod laws;
pub mod multiverse;
pub mod engine;
pub mod event;
pub mod object;
pub mod patch;
pub mod pipeline;
pub mod pool;
pub mod processor;
pub mod programmer;
pub mod sequence;
pub mod show;
pub mod text;
pub mod values;
