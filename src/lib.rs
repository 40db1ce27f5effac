//! Decoder for IFF "FORM" images of type ILBM (planar) and PBM (chunky),
//! with a heuristic that guesses which program or platform wrote a file.
//!
//! Everything works on the bytes of a whole file held in memory: the
//! caller reads the file, `LBM::read` decodes it into a document, and
//! `LBM::guess` classifies the document.

pub mod bytes;
pub mod error;
pub mod check;
pub mod chunk;
pub mod flags;
pub mod lbm;
pub mod maths;
pub mod reader;
