//! Loading files into specimens.

use crate::codec::{fallback_limit, gbk_decoded};
use crate::loader::Loader;
use crate::specimen::text::TextSpecimen;
use crate::specimen::{FileRead, FileSpecimen, LoadError, Specimen};
use vstd::prelude::*;
use vstd::utf8::*;

verus! {

/// Loads specimens from what reading a file gave.
#[derive(Debug)]
pub struct FileLoader;

/// A loaded file, by kind. Every file is text for now.
pub enum FileType {
    /// A file of text.
    TextFile(TextSpecimen),
}

/// The outcome of loading a file into a specimen of type `T`: a specimen
/// that holds the file's content, or the reason there is none.
pub open spec fn loaded_as<T: FileSpecimen>(file: FileRead, result: Result<T, LoadError>) -> bool {
    match file {
        Ok(bytes) => if T::accepts(bytes@) {
            result matches Ok(specimen) && specimen.holds(bytes@)
        } else {
            result == Err::<T, LoadError>(LoadError::Undecodable)
        },
        Err(e) => result == Err::<T, LoadError>(e),
    }
}

impl<T: FileSpecimen + Default> Loader<T> for FileLoader {
    type Error = LoadError;

    type Option = FileRead;

    open spec fn loads(&self, option: &FileRead, result: Result<T, LoadError>) -> bool {
        loaded_as::<T>(*option, result)
    }

    fn load(&self, option: &FileRead) -> (r: Result<T, LoadError>) {
        let mut specimen = T::default();
        match specimen.read_file(option) {
            Ok(()) => Ok(specimen),
            Err(e) => Err(e),
        }
    }
}

impl Loader<FileType> for FileLoader {
    type Error = LoadError;

    type Option = FileRead;

    open spec fn loads(&self, option: &FileRead, result: Result<FileType, LoadError>) -> bool {
        match result {
            Ok(FileType::TextFile(specimen)) => loaded_as::<TextSpecimen>(*option, Ok(specimen)),
            Err(e) => loaded_as::<TextSpecimen>(*option, Err(e)),
        }
    }

    fn load(&self, option: &FileRead) -> (r: Result<FileType, LoadError>) {
        let specimen: Result<TextSpecimen, LoadError> = self.load(option);
        match specimen {
            Ok(file) => Ok(FileType::TextFile(file)),
            Err(e) => Err(e),
        }
    }
}

/// A file whose bytes are not valid UTF-8 loads all the same, as long as the
/// fallback decoder can take it: the specimen holds the text that the
/// fallback decoder makes of the bytes.
pub proof fn lemma_legacy_text_loads(bytes: Vec<u8>, result: Result<TextSpecimen, LoadError>)
    requires
        !valid_utf8(bytes@),
        bytes.len() <= fallback_limit(),
        FileLoader.loads(&Ok(bytes), result),
    ensures
        result matches Ok(specimen) && specimen@ == gbk_decoded(bytes@),
{
}

/// A file whose bytes are valid UTF-8 always loads, and the specimen's bytes
/// are the file's bytes.
pub proof fn lemma_native_text_loads(bytes: Vec<u8>, result: Result<TextSpecimen, LoadError>)
    requires
        valid_utf8(bytes@),
        FileLoader.loads(&Ok(bytes), result),
    ensures
        result matches Ok(specimen) && specimen@ == decode_utf8(bytes@) && specimen.bytes()
            == bytes@,
{
    decode_utf8_encode_utf8(bytes@);
}

/// A read that failed never loads, and the reason is kept.
pub proof fn lemma_failed_read_fails(error: LoadError, result: Result<TextSpecimen, LoadError>)
    requires
        FileLoader.loads(&Err(error), result),
    ensures
        result == Err::<TextSpecimen, LoadError>(error),
{
}

} // verus!
