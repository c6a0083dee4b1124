//! Detection: testing a specimen against signatures.

use vstd::prelude::*;

pub mod text_virus_detector;

verus! {

/// Something that can be tested against a set of signatures.
pub trait VirusDetector {
    /// What a signature is.
    type Signature: ?Sized;

    /// Whether `signature` is well formed. Only such signatures may be given
    /// to [`VirusDetector::detect`].
    spec fn well_formed(signature: &Self::Signature) -> bool;

    /// Whether `signature` is found in this specimen.
    spec fn matches(&self, signature: &Self::Signature) -> bool;

    /// Whether any of the signatures is found. An empty set finds nothing,
    /// and the order of the signatures does not matter.
    fn detect(&self, signatures: &[&Self::Signature]) -> (found: bool)
        requires
            forall|i: int|
                0 <= i < signatures.len() ==> Self::well_formed(#[trigger] signatures[i]),
        ensures
            found <==> exists|i: int|
                0 <= i < signatures.len() && self.matches(#[trigger] signatures[i]),
    ;
}

} // verus!
