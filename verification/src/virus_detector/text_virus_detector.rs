//! Detection in text, by regular expressions.

use crate::pattern::{
    all_compile, any_is_match, any_match, compile_all, first_invalid, first_invalid_at,
    regex_accepts, regex_compiles, regex_matches, InvalidSignature,
};
use crate::specimen::text::TextSpecimen;
use crate::virus_detector::VirusDetector;
use core::ops::Deref;
use vstd::prelude::*;

verus! {

impl VirusDetector for TextSpecimen {
    type Signature = str;

    open spec fn well_formed(signature: &str) -> bool {
        regex_compiles(signature@)
    }

    open spec fn matches(&self, signature: &str) -> bool {
        regex_matches(signature@, self@)
    }

    /// Compiles every signature, then searches the text for each in turn.
    fn detect(&self, signatures: &[&str]) -> (found: bool)
        ensures
            found == any_match(self@, signatures@),
    {
        let compiled = compile_all(signatures);
        let found = any_is_match(compiled.as_slice(), self.deref());
        proof {
            if found {
                let i = choose|i: int|
                    0 <= i < compiled.len() && #[trigger] regex_accepts(compiled[i], self@);
                assert(regex_matches(signatures[i]@, self@));
            } else {
                assert forall|i: int| 0 <= i < signatures.len() implies !regex_matches(
                    (#[trigger] signatures[i])@,
                    self@,
                ) by {
                    assert(!regex_accepts(compiled[i], self@));
                }
            }
        }
        found
    }
}

impl TextSpecimen {
    /// Like [`VirusDetector::detect`], for signatures that have not been
    /// checked: fails on the first signature that does not compile, whether
    /// or not another one would have matched.
    pub fn try_detect(&self, signatures: &[&str]) -> (r: Result<bool, InvalidSignature>)
        ensures
            r is Ok <==> all_compile(signatures@),
            r matches Ok(found) ==> found == any_match(self@, signatures@),
            r matches Err(e) ==> first_invalid_at(signatures@, e.index as int),
    {
        match first_invalid(signatures) {
            Some(index) => Err(InvalidSignature { index }),
            None => Ok(self.detect(signatures)),
        }
    }
}

} // verus!
