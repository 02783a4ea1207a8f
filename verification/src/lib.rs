//! Core of a file-sorting utility: it recognizes a file's true content type
//! from a bounded prefix of its leading bytes (magic-byte signatures,
//! container disambiguation for ISO-BMFF/RIFF/ZIP, a JSON-shape check and a
//! generic binary/text heuristic), reconciles that type with the filename
//! extension into a single resolution outcome, carries a per-batch policy for
//! binary files across a run, and maps resolved types to destination
//! categories. All I/O, prompting and file moving live outside this crate;
//! the functions here work on plain values and carry proved contracts.

pub mod classify;
pub mod detect;
pub mod policy;
pub mod resolve;
pub mod text;
