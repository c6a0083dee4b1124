//! Scans text for known malicious-script signatures.
//!
//! A file's bytes are decoded into a [`TextSpecimen`], and a specimen is
//! tested against a set of regular-expression signatures. Reading the bytes
//! from disk is left to the caller; everything after that is here.

pub mod codec;
pub mod loader;
pub mod pattern;
pub mod scan;
pub mod specimen;
pub mod virus_detector;

pub use loader::file_loader::{FileLoader, FileType};
pub use loader::Loader;
pub use pattern::{first_invalid, InvalidSignature};
pub use scan::{
    check_virus_from_file, check_virus_from_files, try_check_virus_from_file,
    try_check_virus_from_files,
};
pub use specimen::text::TextSpecimen;
pub use specimen::{
    FileRead, FileSpecimen, FileSpecimenResult, FileSpecimenResults, LoadError, Specimen,
};
pub use virus_detector::VirusDetector;
