use filesorter::classifier::{
    category_for_extension, is_listed_text_extension, is_text_file, Category, ClassificationMethod, ConflictStrategy,
    LocalClassifier, LocalRule, RuleCondition,
};

fn rule(id: &str, priority: i32, condition: RuleCondition, destination: &str) -> LocalRule {
    LocalRule {
        id: id.to_string(),
        name: format!("rule {}", id),
        condition,
        destination: destination.to_string(),
        priority,
    }
}

fn extensions(list: &[&str]) -> RuleCondition {
    RuleCondition::Extension { extensions: list.iter().map(|s| s.to_string()).collect() }
}

#[test]
fn higher_priority_rule_wins() {
    let mut c = LocalClassifier::new();
    c.set_rules(vec![
        rule("low", 5, extensions(&[".pdf"]), "Low"),
        rule("high", 10, extensions(&[".pdf"]), "High"),
    ]);
    let r = c.classify("a.pdf", ".pdf");
    assert_eq!(r.destination, "High");
    assert_eq!(r.category, "rule high");
    assert_eq!(r.rule_id.as_deref(), Some("high"));
    assert_eq!(r.confidence_percent, 100);
    assert_eq!(r.method, ClassificationMethod::LocalRule);
}

#[test]
fn equal_priorities_keep_given_order() {
    let mut c = LocalClassifier::new();
    c.set_rules(vec![
        rule("first", 3, extensions(&[".txt"]), "First"),
        rule("second", 3, extensions(&[".txt"]), "Second"),
    ]);
    assert_eq!(c.classify("x.txt", ".txt").destination, "First");
}

#[test]
fn extension_rule_ignores_ascii_case() {
    let mut c = LocalClassifier::new();
    c.set_rules(vec![rule("e", 1, extensions(&[".PDF"]), "Papers")]);
    assert_eq!(c.classify("scan.pdf", ".pdf").destination, "Papers");
    assert_eq!(c.classify("scan.Pdf", ".Pdf").destination, "Papers");
    assert_eq!(c.classify("scan.pdfx", ".pdfx").destination, "Other");
}

#[test]
fn keyword_rule_case_insensitive_by_default() {
    let mut c = LocalClassifier::new();
    c.set_rules(vec![rule(
        "k",
        1,
        RuleCondition::Keyword { keywords: vec!["invoice".to_string()], case_sensitive: false },
        "Bills",
    )]);
    assert_eq!(c.classify("My-INVOICE-2024.xyz", ".xyz").destination, "Bills");
    assert_eq!(c.classify("receipt.xyz", ".xyz").destination, "Other");
}

#[test]
fn keyword_rule_case_sensitive() {
    let mut c = LocalClassifier::new();
    c.set_rules(vec![rule(
        "k",
        1,
        RuleCondition::Keyword { keywords: vec!["Invoice".to_string()], case_sensitive: true },
        "Bills",
    )]);
    assert_eq!(c.classify("Invoice-1.xyz", ".xyz").destination, "Bills");
    assert_eq!(c.classify("invoice-1.xyz", ".xyz").destination, "Other");
}

#[test]
fn regex_rule_matches_filename() {
    let mut c = LocalClassifier::new();
    c.set_rules(vec![rule(
        "r",
        1,
        RuleCondition::Regex { pattern: r"^IMG_\d+".to_string() },
        "Camera",
    )]);
    assert_eq!(c.classify("IMG_1234.heic", ".heic").destination, "Camera");
    assert_eq!(c.classify("photo.heic", ".heic").destination, "Pictures");
}

#[test]
fn invalid_regex_is_no_match() {
    let mut c = LocalClassifier::new();
    c.set_rules(vec![rule("bad", 9, RuleCondition::Regex { pattern: "foo(bar".to_string() }, "X")]);
    let r = c.classify("foo(bar.txt", ".txt");
    assert_eq!(r.destination, "Documents");
    assert_eq!(r.method, ClassificationMethod::LocalExtension);
}

#[test]
fn unsupported_condition_never_matches() {
    let mut c = LocalClassifier::new();
    c.set_rules(vec![rule("u", 9, RuleCondition::Unsupported, "X")]);
    assert_eq!(c.classify("a.zip", ".zip").destination, "Archives");
}

#[test]
fn extension_table_fallback() {
    let c = LocalClassifier::new();
    let r = c.classify("invoice.pdf", ".pdf");
    assert_eq!(r.category, "Documents");
    assert_eq!(r.destination, "Documents");
    assert_eq!(r.confidence_percent, 80);
    assert_eq!(r.method, ClassificationMethod::LocalExtension);
    assert_eq!(r.rule_id, None);
    assert_eq!(r.conflict_strategy, ConflictStrategy::Skip);
    assert_eq!(c.classify("SONG.MP3", ".MP3").destination, "Music");
    assert_eq!(c.classify("setup.AppImage", ".AppImage").destination, "Installers");
}

#[test]
fn unknown_extension_is_other() {
    let c = LocalClassifier::default();
    let r = c.classify("notes.qqq", ".qqq");
    assert_eq!(r.category, "Other");
    assert_eq!(r.destination, "Other");
    assert_eq!(r.confidence_percent, 50);
    assert_eq!(r.method, ClassificationMethod::LocalDefault);
    assert_eq!(c.classify("Makefile", "").destination, "Other");
}

#[test]
fn confidence_stays_in_range() {
    let mut c = LocalClassifier::new();
    c.set_rules(vec![rule("k", 1, extensions(&[".a"]), "A")]);
    for (f, e) in [("x.a", ".a"), ("x.pdf", ".pdf"), ("x.none", ".none"), ("", "")] {
        assert!(c.classify(f, e).confidence_percent <= 100);
    }
}

#[test]
fn category_table_lookups() {
    assert_eq!(category_for_extension(".jpeg"), Some(Category::Pictures));
    assert_eq!(category_for_extension(".7z"), Some(Category::Archives));
    assert_eq!(category_for_extension(".rs"), Some(Category::Code));
    assert_eq!(category_for_extension(".webm"), Some(Category::Videos));
    assert_eq!(category_for_extension(".PDF"), None);
    assert_eq!(Category::Installers.name(), "Installers");
}

#[test]
fn text_file_detection() {
    assert!(is_text_file(".txt"));
    assert!(is_text_file(".YAML"));
    assert!(is_text_file(".cfg"));
    assert!(!is_text_file(".pdf"));
    assert!(!is_text_file(""));
    assert!(is_listed_text_extension(".toml"));
    assert!(!is_listed_text_extension(".TOML"));
}

#[test]
fn set_rules_keeps_every_rule_in_priority_order() {
    let mut c = LocalClassifier::new();
    c.set_rules(vec![
        rule("a", 1, RuleCondition::Unsupported, "A"),
        rule("b", 7, extensions(&[".b"]), "B"),
        rule("c", 3, extensions(&[".b"]), "C"),
        rule("d", 7, extensions(&[".d"]), "D"),
    ]);
    assert_eq!(c.classify("x.b", ".b").destination, "B");
    assert_eq!(c.classify("x.d", ".d").destination, "D");
}

#[test]
fn conditions_from_stored_parts() {
    let v = |l: &[&str]| l.iter().map(|s| s.to_string()).collect::<Vec<String>>();
    assert!(matches!(
        RuleCondition::from_parts("extension", v(&[".a"]), v(&["k"]), true, None),
        RuleCondition::Extension { extensions } if extensions == v(&[".a"])
    ));
    assert!(matches!(
        RuleCondition::from_parts("keyword", v(&[]), v(&["k"]), true, None),
        RuleCondition::Keyword { keywords, case_sensitive: true } if keywords == v(&["k"])
    ));
    assert!(matches!(
        RuleCondition::from_parts("regex", v(&[]), v(&[]), false, Some("^a".to_string())),
        RuleCondition::Regex { pattern } if pattern == "^a"
    ));
    assert!(matches!(RuleCondition::from_parts("regex", v(&[]), v(&[]), false, None), RuleCondition::Unsupported));
    assert!(matches!(RuleCondition::from_parts("size", v(&[".a"]), v(&[]), false, None), RuleCondition::Unsupported));
}

#[test]
fn conflict_strategy_names() {
    assert_eq!(ConflictStrategy::from_name(Some("overwrite")), ConflictStrategy::Overwrite);
    assert_eq!(ConflictStrategy::from_name(Some("rename")), ConflictStrategy::Rename);
    assert_eq!(ConflictStrategy::from_name(Some("skip")), ConflictStrategy::Skip);
    assert_eq!(ConflictStrategy::from_name(Some("Rename")), ConflictStrategy::Skip);
    assert_eq!(ConflictStrategy::from_name(None), ConflictStrategy::Skip);
}
