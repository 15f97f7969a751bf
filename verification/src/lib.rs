//! Reorganizes a tree of audio files into a canonical
//! `{output}/{artist}/{album}/{title}.mp3` layout, driven by the metadata
//! embedded in each file rather than by filename conventions.
//!
//! This crate holds the decision logic of the pipeline: validating the tag
//! fields of a file, classifying it by extension, and computing the
//! destination its tags call for. The filesystem work around it (directory
//! scanning, tag-container parsing, directory creation and the rename
//! itself) is left to the binary that drives a run.

pub mod config;
pub mod paths;
pub mod pipeline;
pub mod tags;
