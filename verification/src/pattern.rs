//! Regular-expression signatures.
//!
//! Patterns are compiled and searched by the `regex` crate. What that crate
//! answers is not proved here: it is named, and the rest of the library is
//! verified against those names.

use regex::Regex;
use vstd::prelude::*;

verus! {

/// `regex::Regex`, a compiled pattern. Nothing inside it is visible here.
#[verifier::external_type_specification]
#[verifier::external_body]
pub struct ExRegex(regex::Regex);

/// `regex::Error`, the reason a pattern was refused. Nothing inside it is
/// visible here.
#[verifier::external_type_specification]
#[verifier::external_body]
pub struct ExRegexError(regex::Error);

/// Whether `regex::Regex::new` accepts `pattern`: its syntax is valid, and
/// the compiled program stays within the compiler's default size limit.
pub uninterp spec fn regex_compiles(pattern: Seq<char>) -> bool;

/// Whether a regex that `regex::Regex::new` compiled from `pattern` finds a
/// match anywhere in `text`.
pub uninterp spec fn regex_matches(pattern: Seq<char>, text: Seq<char>) -> bool;

/// Whether `regex` finds a match anywhere in `text`: the answer of
/// `regex::Regex::is_match`. It is a matter of the compiled value, which
/// holds more than a pattern: a builder's options change what matches.
pub uninterp spec fn regex_accepts(regex: Regex, text: Seq<char>) -> bool;

/// Calls `regex::Regex::new`. Trusted: the call succeeds exactly on the
/// patterns that [`regex_compiles`] names, and what the compiled regex
/// accepts is what [`regex_matches`] names for the pattern.
#[verifier::external_body]
fn compile(pattern: &str) -> (r: Result<Regex, regex::Error>)
    ensures
        r is Ok <==> regex_compiles(pattern@),
        r matches Ok(regex) ==> forall|text: Seq<char>| #[trigger]
            regex_accepts(regex, text) == regex_matches(pattern@, text),
{
    Regex::new(pattern)
}

/// Calls `regex::Regex::is_match`. Trusted: the answer is the one that
/// [`regex_accepts`] names for this regex and `text`.
#[verifier::external_body]
fn is_match(regex: &Regex, text: &str) -> (found: bool)
    ensures
        found == regex_accepts(*regex, text@),
{
    regex.is_match(text)
}

/// Every signature is a pattern that compiles.
pub open spec fn all_compile(signatures: Seq<&str>) -> bool {
    forall|i: int| 0 <= i < signatures.len() ==> regex_compiles((#[trigger] signatures[i])@)
}

/// Some signature is found in `text`.
pub open spec fn any_match(text: Seq<char>, signatures: Seq<&str>) -> bool {
    exists|i: int| 0 <= i < signatures.len() && regex_matches((#[trigger] signatures[i])@, text)
}

/// `index` is the position of the first signature that does not compile.
pub open spec fn first_invalid_at(signatures: Seq<&str>, index: int) -> bool {
    &&& 0 <= index < signatures.len()
    &&& !regex_compiles(signatures[index]@)
    &&& all_compile(signatures.take(index))
}

/// `pattern` is one of the signatures.
pub open spec fn occurs_in(pattern: Seq<char>, signatures: Seq<&str>) -> bool {
    exists|j: int| 0 <= j < signatures.len() && (#[trigger] signatures[j])@ == pattern
}

/// Every signature of `a` is also one of `b`.
pub open spec fn covered_by(a: Seq<&str>, b: Seq<&str>) -> bool {
    forall|i: int| 0 <= i < a.len() ==> occurs_in((#[trigger] a[i])@, b)
}

/// What is found depends on which signatures are given, not on their order
/// or on how often each occurs.
pub proof fn lemma_any_match_by_content(text: Seq<char>, a: Seq<&str>, b: Seq<&str>)
    requires
        covered_by(a, b),
        covered_by(b, a),
    ensures
        any_match(text, a) == any_match(text, b),
{
    if any_match(text, a) {
        let i = choose|i: int| 0 <= i < a.len() && regex_matches((#[trigger] a[i])@, text);
        assert(occurs_in(a[i]@, b));
        let j = choose|j: int| 0 <= j < b.len() && (#[trigger] b[j])@ == a[i]@;
        assert(regex_matches(b[j]@, text));
    }
    if any_match(text, b) {
        let i = choose|i: int| 0 <= i < b.len() && regex_matches((#[trigger] b[i])@, text);
        assert(occurs_in(b[i]@, a));
        let j = choose|j: int| 0 <= j < a.len() && (#[trigger] a[j])@ == b[i]@;
        assert(regex_matches(a[j]@, text));
    }
}

/// A signature that does not compile is never passed over: with one among
/// them the signatures do not all compile, whatever the others are, and
/// there is a first one that does not.
pub proof fn lemma_invalid_signature_is_found(signatures: Seq<&str>, i: int)
    requires
        0 <= i < signatures.len(),
        !regex_compiles(signatures[i]@),
    ensures
        !all_compile(signatures),
        exists|k: int| 0 <= k <= i && #[trigger] first_invalid_at(signatures, k),
    decreases i,
{
    if all_compile(signatures.take(i)) {
        assert(first_invalid_at(signatures, i));
    } else {
        let j = choose|j: int|
            0 <= j < signatures.take(i).len() && !regex_compiles(
                (#[trigger] signatures.take(i)[j])@,
            );
        assert(signatures.take(i)[j] == signatures[j]);
        lemma_invalid_signature_is_found(signatures, j);
    }
}

/// A signature that is not a pattern the regex compiler accepts.
#[derive(Clone, Copy, Debug, PartialEq, Eq, Structural)]
pub struct InvalidSignature {
    /// Its position among the signatures given.
    pub index: usize,
}

/// The position of the first signature that does not compile, if there is one.
pub fn first_invalid(signatures: &[&str]) -> (r: Option<usize>)
    ensures
        r is None <==> all_compile(signatures@),
        r matches Some(i) ==> first_invalid_at(signatures@, i as int),
{
    let mut i: usize = 0;
    while i < signatures.len()
        invariant
            i <= signatures.len(),
            all_compile(signatures@.take(i as int)),
        decreases signatures.len() - i,
    {
        if compile(signatures[i]).is_err() {
            return Some(i);
        }
        assert(signatures@.take(i + 1) =~= signatures@.take(i as int).push(signatures[i as int]));
        i += 1;
    }
    assert(signatures@.take(i as int) =~= signatures@);
    None
}

/// Compiles every signature, in the order given.
pub(crate) fn compile_all(signatures: &[&str]) -> (compiled: Vec<Regex>)
    requires
        all_compile(signatures@),
    ensures
        compiled.len() == signatures.len(),
        forall|i: int, text: Seq<char>|
            0 <= i < compiled.len() ==> #[trigger] regex_accepts(compiled[i], text)
                == regex_matches(signatures[i]@, text),
{
    let mut compiled: Vec<Regex> = Vec::new();
    let mut i: usize = 0;
    while i < signatures.len()
        invariant
            i <= signatures.len(),
            all_compile(signatures@),
            compiled.len() == i,
            forall|j: int, text: Seq<char>|
                0 <= j < i ==> #[trigger] regex_accepts(compiled[j], text) == regex_matches(
                    signatures[j]@,
                    text,
                ),
        decreases signatures.len() - i,
    {
        match compile(signatures[i]) {
            Ok(regex) => compiled.push(regex),
            Err(_) => unreached(),
        }
        i += 1;
    }
    compiled
}

/// Whether some regex finds a match in `text`. Stops at the first that does.
pub fn any_is_match(compiled: &[Regex], text: &str) -> (found: bool)
    ensures
        found <==> exists|i: int|
            0 <= i < compiled.len() && #[trigger] regex_accepts(compiled[i], text@),
{
    let mut i: usize = 0;
    while i < compiled.len()
        invariant
            i <= compiled.len(),
            forall|j: int| 0 <= j < i ==> !#[trigger] regex_accepts(compiled[j], text@),
        decreases compiled.len() - i,
    {
        if is_match(&compiled[i], text) {
            return true;
        }
        i += 1;
    }
    false
}

} // verus!
