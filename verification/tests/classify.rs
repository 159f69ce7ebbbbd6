use cf_to_mmc::instance::{classify, valid_name, LoaderClassification};

#[test]
fn forge_with_empty_hint_takes_version_from_id() {
    let c = classify("forge-36.2.0", "");
    assert_eq!(c, LoaderClassification::Forge("36.2.0".to_string()));
}

#[test]
fn fabric_with_hint_takes_explicit_version_not_id_substring() {
    let c = classify("fabric-0.14.0", "x");
    assert_eq!(c, LoaderClassification::Fabric("x".to_string()));
}

#[test]
fn unknown_loader_family_is_unknown() {
    let c = classify("quilt-1.0", "x");
    assert_eq!(c, LoaderClassification::Unknown);
}

#[test]
fn forge_with_hint_prefers_the_hint() {
    let c = classify("forge-36.2.0", "36.2.2");
    assert_eq!(c, LoaderClassification::Forge("36.2.2".to_string()));
}

#[test]
fn missing_separator_is_unknown() {
    assert_eq!(classify("forge", "1.0"), LoaderClassification::Unknown);
    assert_eq!(classify("", ""), LoaderClassification::Unknown);
}

#[test]
fn prefix_match_is_case_sensitive_and_exact() {
    assert_eq!(classify("Forge-36.2.0", ""), LoaderClassification::Unknown);
    assert_eq!(classify("forgex-1", "1"), LoaderClassification::Unknown);
    assert_eq!(
        classify("fabric-", "0.14.0"),
        LoaderClassification::Fabric("0.14.0".to_string())
    );
}

#[test]
fn names_that_stay_inside_the_destination_root_are_valid() {
    assert!(valid_name("All the Mods 6"));
    assert!(valid_name("pack_1.2"));
    assert!(valid_name("..."));
}

#[test]
fn names_that_could_escape_the_destination_root_are_invalid() {
    assert!(!valid_name(""));
    assert!(!valid_name("."));
    assert!(!valid_name(".."));
    assert!(!valid_name("a/b"));
    assert!(!valid_name("a\\b"));
    assert!(!valid_name("a\nb"));
    assert!(!valid_name("a\tb"));
}
