//! Turns a document written in lightweight markup into one self-contained, styled HTML
//! page and decides where that page is published: beside the source on local disk, or
//! in an object-storage bucket under a fresh, unguessable path.

pub mod template;
pub mod text;
pub mod render;
pub mod identifier;
pub mod clock;
pub mod paths;
pub mod config;
pub mod storage;
pub mod target;
pub mod outcome;
pub mod pipeline;
pub mod run;
