//! Specimens: what a loaded file looks like in memory.

use vstd::prelude::*;

pub mod text;

verus! {

/// Why a file could not be loaded.
#[derive(Clone, Copy, Debug, PartialEq, Eq, Structural)]
pub enum LoadError {
    /// There is no file at the path.
    NotFound,
    /// The file may not be read.
    PermissionDenied,
    /// Reading failed for another reason.
    Io,
    /// The bytes are not native text, and the fallback decoder cannot take
    /// them either.
    Undecodable,
}

/// What reading a file gave: all of its bytes, or the reason there are none.
pub type FileRead = Result<Vec<u8>, LoadError>;

/// The outcome of loading one file into a specimen of type `T`.
pub type FileSpecimenResult<T> = Result<T, LoadError>;

/// The outcomes of loading a batch of files, in the order of the batch.
pub type FileSpecimenResults<T> = Vec<FileSpecimenResult<T>>;

/// A loaded file, seen as bytes.
pub trait Specimen {
    /// The bytes of the specimen.
    spec fn bytes(&self) -> Seq<u8>;

    /// The specimen's bytes.
    fn data(&self) -> (r: &[u8])
        ensures
            r@ == self.bytes(),
    ;
}

/// A specimen that can be filled from a file.
pub trait FileSpecimen: Specimen + Sized {
    /// Whether a file of these bytes can be taken in.
    spec fn accepts(bytes: Seq<u8>) -> bool;

    /// Whether the specimen holds the content of a file of these bytes.
    spec fn holds(&self, bytes: Seq<u8>) -> bool;

    /// Fills the specimen from what reading a file gave. Where the read
    /// failed, its error is handed back; where the bytes cannot be taken in,
    /// the error is [`LoadError::Undecodable`]. In both cases the specimen
    /// stays as it was.
    fn read_file(&mut self, file: &FileRead) -> (r: Result<(), LoadError>)
        ensures
            match *file {
                Ok(bytes) => if Self::accepts(bytes@) {
                    r is Ok && final(self).holds(bytes@)
                } else {
                    r == Err::<(), LoadError>(LoadError::Undecodable) && *final(self) == *old(self)
                },
                Err(e) => r == Err::<(), LoadError>(e) && *final(self) == *old(self),
            },
    ;
}

} // verus!
