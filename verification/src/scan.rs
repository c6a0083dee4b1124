//! Scanning files: load, then detect.
//!
//! A file that cannot be loaded is reported as clean. The verdicts are
//! booleans and nothing else, so at this boundary "could not be read" and
//! "nothing found" look the same.
//!
//! A signature that does not compile is the caller's mistake. The scans
//! leave it out by `requires`; the `try_` forms test for it first and say so.

use crate::codec::{can_decode, decodable, decoded_text};
use crate::loader::file_loader::{loaded_as, FileLoader};
use crate::loader::Loader;
use crate::pattern::{all_compile, any_match, first_invalid, first_invalid_at, InvalidSignature};
use crate::specimen::text::TextSpecimen;
use crate::specimen::{FileRead, LoadError};
use crate::virus_detector::VirusDetector;
use vstd::prelude::*;

verus! {

/// Whether the file loads, so that its text is searched.
pub open spec fn scannable(file: FileRead) -> bool {
    file matches Ok(bytes) && decodable(bytes@)
}

/// Whether some file of the batch loads.
pub open spec fn any_scannable(files: Seq<FileRead>) -> bool {
    exists|i: int| 0 <= i < files.len() && scannable(#[trigger] files[i])
}

/// The verdict on a file: whether it loads and some signature is found in
/// its text.
pub open spec fn infected(file: FileRead, signatures: Seq<&str>) -> bool {
    match file {
        Ok(bytes) => decodable(bytes@) && any_match(decoded_text(bytes@), signatures),
        Err(_) => false,
    }
}

/// Whether the file loads.
pub fn can_scan(file: &FileRead) -> (r: bool)
    ensures
        r == scannable(*file),
{
    match file {
        Ok(bytes) => can_decode(bytes.as_slice()),
        Err(_) => false,
    }
}

/// Whether some file of the batch loads.
pub fn can_scan_any(files: &[FileRead]) -> (r: bool)
    ensures
        r == any_scannable(files@),
{
    let mut i: usize = 0;
    while i < files.len()
        invariant
            i <= files.len(),
            forall|j: int| 0 <= j < i ==> !scannable(#[trigger] files[j]),
        decreases files.len() - i,
    {
        if can_scan(&files[i]) {
            return true;
        }
        i += 1;
    }
    false
}

/// Scans one file. The verdict on a file that does not load is `false`.
/// Where the file loads, every signature has to compile.
pub fn check_virus_from_file(file: &FileRead, signatures: &[&str]) -> (verdict: bool)
    requires
        scannable(*file) ==> all_compile(signatures@),
    ensures
        verdict == infected(*file, signatures@),
{
    let loaded: Result<TextSpecimen, LoadError> = FileLoader.load(file);
    match loaded {
        Ok(specimen) => specimen.detect(signatures),
        Err(_) => false,
    }
}

/// Scans a batch of files. There is one verdict for each file, in the order
/// of the batch, and each is the verdict [`check_virus_from_file`] gives for
/// that file alone. Where some file loads, every signature has to compile.
pub fn check_virus_from_files(files: &[FileRead], signatures: &[&str]) -> (verdicts: Vec<bool>)
    requires
        any_scannable(files@) ==> all_compile(signatures@),
    ensures
        verdicts.len() == files.len(),
        forall|i: int|
            0 <= i < files.len() ==> #[trigger] verdicts[i] == infected(files[i], signatures@),
{
    let loaded: Vec<Result<TextSpecimen, LoadError>> = FileLoader.multiple_load(files);
    let mut verdicts: Vec<bool> = Vec::new();
    let mut i: usize = 0;
    while i < loaded.len()
        invariant
            i <= loaded.len(),
            loaded.len() == files.len(),
            any_scannable(files@) ==> all_compile(signatures@),
            forall|j: int|
                0 <= j < files.len() ==> loaded_as::<TextSpecimen>(files[j], #[trigger] loaded[j]),
            verdicts.len() == i,
            forall|j: int| 0 <= j < i ==> #[trigger] verdicts[j] == infected(files[j], signatures@),
        decreases loaded.len() - i,
    {
        assert(loaded_as::<TextSpecimen>(files[i as int], loaded[i as int]));
        match &loaded[i] {
            Ok(specimen) => {
                assert(scannable(files[i as int]));
                verdicts.push(specimen.detect(signatures));
            },
            Err(_) => {
                verdicts.push(false);
            },
        }
        i += 1;
    }
    verdicts
}

/// Scans one file with signatures that have not been checked. Fails, with
/// the first signature that does not compile, exactly where
/// [`check_virus_from_file`] may not be called.
pub fn try_check_virus_from_file(file: &FileRead, signatures: &[&str]) -> (r: Result<
    bool,
    InvalidSignature,
>)
    ensures
        r is Err <==> scannable(*file) && !all_compile(signatures@),
        r matches Ok(verdict) ==> verdict == infected(*file, signatures@),
        r matches Err(e) ==> first_invalid_at(signatures@, e.index as int),
{
    if can_scan(file) {
        match first_invalid(signatures) {
            Some(index) => {
                return Err(InvalidSignature { index });
            },
            None => {},
        }
    }
    Ok(check_virus_from_file(file, signatures))
}

/// Scans a batch with signatures that have not been checked. Fails, with
/// the first signature that does not compile, exactly where
/// [`check_virus_from_files`] may not be called.
pub fn try_check_virus_from_files(files: &[FileRead], signatures: &[&str]) -> (r: Result<
    Vec<bool>,
    InvalidSignature,
>)
    ensures
        r is Err <==> any_scannable(files@) && !all_compile(signatures@),
        r matches Ok(verdicts) ==> verdicts.len() == files.len() && forall|i: int|
            0 <= i < files.len() ==> #[trigger] verdicts[i] == infected(files[i], signatures@),
        r matches Err(e) ==> first_invalid_at(signatures@, e.index as int),
{
    if can_scan_any(files) {
        match first_invalid(signatures) {
            Some(index) => {
                return Err(InvalidSignature { index });
            },
            None => {},
        }
    }
    Ok(check_virus_from_files(files, signatures))
}

} // verus!
