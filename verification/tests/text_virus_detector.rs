use maya_umbrella::{first_invalid, InvalidSignature, TextSpecimen, VirusDetector};

#[test]
fn text_virus_detector_should_text_virus_detector_works() {
    let specimen = TextSpecimen::new("import vaccine;vaccine.fuck()");
    assert_eq!(true, specimen.detect(&[r"import vaccine"]));
}

#[test]
fn detect_is_false_when_nothing_matches() {
    let specimen = TextSpecimen::new("import vaccine;vaccine.fuck()");
    assert_eq!(false, specimen.detect(&["import os", "leukocyte"]));
}

#[test]
fn detect_is_the_or_of_the_signatures() {
    let specimen = TextSpecimen::new("cmds.evalDeferred('leukocyte.occupation()')");
    assert!(specimen.detect(&["import vaccine", "cmds.evalDeferred.*leukocyte.+"]));
    assert!(specimen.detect(&["cmds.evalDeferred.*leukocyte.+", "import vaccine"]));
    assert!(!specimen.detect(&["import vaccine"]));
    assert!(specimen.detect(&["cmds.evalDeferred.*leukocyte.+"]));
}

#[test]
fn detect_with_no_signatures_finds_nothing() {
    let specimen = TextSpecimen::new("import vaccine");
    assert!(!specimen.detect(&[]));
}

#[test]
fn detect_searches_anywhere_in_the_text() {
    let specimen = TextSpecimen::new("line one\nline two import vaccine\nline three");
    assert!(specimen.detect(&["import vaccine"]));
    assert!(specimen.detect(&["two.+vaccine"]));
    assert!(!specimen.detect(&["one.+vaccine"]));
}

#[test]
fn detect_treats_signatures_as_patterns() {
    let specimen = TextSpecimen::new("a.c");
    assert!(specimen.detect(&["a.c"]));
    assert!(TextSpecimen::new("abc").detect(&["a.c"]));
    assert!(!TextSpecimen::new("abc").detect(&[r"a\.c"]));
}

#[test]
fn detect_on_empty_text() {
    let specimen = TextSpecimen::default();
    assert!(!specimen.detect(&["import vaccine"]));
    assert!(specimen.detect(&["^$"]));
}

#[test]
fn try_detect_agrees_with_detect_on_valid_signatures() {
    let specimen = TextSpecimen::new("import vaccine;vaccine.fuck()");
    assert_eq!(specimen.try_detect(&["import vaccine"]), Ok(true));
    assert_eq!(specimen.try_detect(&["import os"]), Ok(false));
    assert_eq!(specimen.try_detect(&[]), Ok(false));
}

#[test]
fn try_detect_fails_on_an_invalid_signature() {
    let specimen = TextSpecimen::new("import vaccine;vaccine.fuck()");
    assert_eq!(specimen.try_detect(&["foo(bar"]), Err(InvalidSignature { index: 0 }));
}

#[test]
fn try_detect_does_not_skip_an_invalid_signature_after_a_match() {
    let specimen = TextSpecimen::new("import vaccine;vaccine.fuck()");
    assert_eq!(
        specimen.try_detect(&["import vaccine", "foo(bar", "["]),
        Err(InvalidSignature { index: 1 })
    );
}

#[test]
fn first_invalid_finds_the_first() {
    assert_eq!(first_invalid(&[]), None);
    assert_eq!(first_invalid(&["a", "b+", "c*"]), None);
    assert_eq!(first_invalid(&["a", "(", "["]), Some(1));
    assert_eq!(first_invalid(&["a", "b", "*"]), Some(2));
}

#[test]
fn any_is_match_is_the_or_over_compiled_patterns() {
    let compiled = vec![
        regex::Regex::new("import vaccine").unwrap(),
        regex::Regex::new("leuko.yte").unwrap(),
    ];
    assert!(maya_umbrella::pattern::any_is_match(&compiled, "x = leukocyte()"));
    assert!(maya_umbrella::pattern::any_is_match(&compiled, "import vaccine"));
    assert!(!maya_umbrella::pattern::any_is_match(&compiled, "import os"));
    assert!(!maya_umbrella::pattern::any_is_match(&[], "import vaccine"));
}

#[test]
fn any_is_match_goes_by_the_compiled_value() {
    let plain = regex::Regex::new("abc").unwrap();
    let folded = regex::RegexBuilder::new("abc").case_insensitive(true).build().unwrap();
    assert_eq!(plain.as_str(), folded.as_str());
    assert!(!maya_umbrella::pattern::any_is_match(&[plain], "ABC"));
    assert!(maya_umbrella::pattern::any_is_match(&[folded], "ABC"));
}
