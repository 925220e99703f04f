use postgirl::naming::{BranchConfig, BranchGenerator, BranchPattern, FeatureType, SystemInfo};

fn create_test_generator() -> BranchGenerator {
    let config = BranchConfig::default();
    let system_info = SystemInfo {
        username: "john.doe".to_string(),
        machine_name: "MacBook-Pro".to_string(),
        os_type: "macOS".to_string(),
    };
    BranchGenerator::new(config, system_info)
}

fn pattern(description: Option<&str>) -> BranchPattern {
    BranchPattern {
        workspace: "ecommerce-api".to_string(),
        username: "john.doe".to_string(),
        machine: "MacBook-Pro".to_string(),
        feature_type: FeatureType::Feature,
        description: description.map(|d| d.to_string()),
    }
}

#[test]
fn test_generate_branch_name() {
    let generator = create_test_generator();
    let pattern = BranchPattern {
        workspace: "ecommerce-api".to_string(),
        username: "john.doe".to_string(),
        machine: "MacBook-Pro".to_string(),
        feature_type: FeatureType::Feature,
        description: Some("add payment endpoints".to_string()),
    };

    let result = generator.generate_branch_name(&pattern).unwrap();
    assert_eq!(result, "ecommerce-api/john-doe-macbook-pro/feature-add-payment-endpoints");
}

#[test]
fn test_sanitize_name() {
    let generator = create_test_generator();
    assert_eq!(generator.sanitize_name("John Doe"), "john-doe");
    assert_eq!(generator.sanitize_name("API v2.0"), "api-v2-0");
    assert_eq!(generator.sanitize_name("special!@#chars"), "special-chars");
}

#[test]
fn test_validate_branch_name() {
    let generator = create_test_generator();
    assert!(generator.validate_branch_name("valid-branch-name").is_ok());
    assert!(generator.validate_branch_name("-invalid").is_err());
    assert!(generator.validate_branch_name("invalid-").is_err());
    assert!(generator.validate_branch_name("invalid..branch").is_err());
    assert!(generator.validate_branch_name("invalid~branch").is_err());
}

#[test]
fn validation_reports_the_first_broken_rule() {
    let generator = create_test_generator();
    assert_eq!(generator.validate_branch_name("").unwrap_err(), "Branch name cannot be empty");
    assert_eq!(
        generator.validate_branch_name("-a").unwrap_err(),
        "Branch name cannot start or end with hyphen"
    );
    assert_eq!(
        generator.validate_branch_name("a//b").unwrap_err(),
        "Branch name cannot contain consecutive dots or slashes"
    );
    for bad in ["a^b", "a:b", "a?b", "a*b", "a[b", "a\\b", "a b", "a~b"] {
        assert_eq!(
            generator.validate_branch_name(bad).unwrap_err(),
            "Branch name contains forbidden characters"
        );
    }
    assert!(generator.validate_branch_name("a.b/c_d").is_ok());
}

#[test]
fn sanitize_is_idempotent_on_examples() {
    let generator = create_test_generator();
    for input in ["John Doe", "--A__b--", "  spaces  and\ttabs ", "x..y//z", "", "---", "Ünïcödé Name"] {
        let once = generator.sanitize_name(input);
        let twice = generator.sanitize_name(&once);
        assert_eq!(once, twice, "input {:?}", input);
    }
    assert_eq!(generator.sanitize_name("--A__b--"), "a__b");
    assert_eq!(generator.sanitize_name("---"), "");
}

#[test]
fn normalize_keeps_lowercase_text_and_collapses_separators() {
    assert_eq!(postgirl::naming::normalize_name("a  b--c"), "a-b-c");
    assert_eq!(postgirl::naming::normalize_name("-x-"), "x");
}

#[test]
fn description_is_optional_and_skipped_when_empty() {
    let generator = create_test_generator();
    assert_eq!(
        generator.generate_branch_name(&pattern(None)).unwrap(),
        "ecommerce-api/john-doe-macbook-pro/feature"
    );
    assert_eq!(
        generator.generate_branch_name(&pattern(Some("!!!"))).unwrap(),
        "ecommerce-api/john-doe-macbook-pro/feature"
    );
}

#[test]
fn feature_tokens_fill_the_feature_slot() {
    let generator = create_test_generator();
    let mut p = pattern(None);
    p.feature_type = FeatureType::Documentation;
    assert_eq!(generator.generate_branch_name(&p).unwrap(), "ecommerce-api/john-doe-macbook-pro/docs");
    assert_eq!(FeatureType::Bugfix.as_str(), "bugfix");
    assert_eq!(FeatureType::Experiment.to_string(), "experiment");
}

#[test]
fn long_names_are_truncated_without_trailing_hyphen() {
    let mut generator = create_test_generator();
    generator.config.max_branch_name_length = 40;
    // untruncated: "ecommerce-api/john-doe-macbook-pro/feature-add-payment-endpoints"
    let name = generator.generate_branch_name(&pattern(Some("add payment endpoints"))).unwrap();
    assert_eq!(name, "ecommerce-api/john-doe-macbook-pro/featu");
    generator.config.max_branch_name_length = 43;
    let name = generator.generate_branch_name(&pattern(Some("add payment endpoints"))).unwrap();
    assert_eq!(name, "ecommerce-api/john-doe-macbook-pro/feature");
    assert!(!name.ends_with('-'));
    assert!(name.len() <= 43);
}

#[test]
fn truncation_to_nothing_fails_validation() {
    let mut generator = create_test_generator();
    generator.config.max_branch_name_length = 0;
    assert_eq!(
        generator.generate_branch_name(&pattern(None)).unwrap_err(),
        "Branch name cannot be empty"
    );
}

#[test]
fn truncation_counts_bytes_and_keeps_whole_characters() {
    let mut generator = create_test_generator();
    generator.config.branch_prefix_pattern = "{workspace}".to_string();
    generator.config.max_branch_name_length = 4;
    let mut p = pattern(None);
    p.workspace = "aéé".to_string();
    // "aéé" is five bytes; the longest prefix within four bytes is "aé".
    assert_eq!(generator.generate_branch_name(&p).unwrap(), "aé");
}

#[test]
fn template_with_forbidden_characters_is_rejected() {
    let mut generator = create_test_generator();
    generator.config.branch_prefix_pattern = "{workspace}:{feature}".to_string();
    assert_eq!(
        generator.generate_branch_name(&pattern(None)).unwrap_err(),
        "Branch name contains forbidden characters"
    );
}

#[test]
fn suggest_pattern_uses_system_info_and_default_type() {
    let generator = create_test_generator();
    let p = generator.suggest_pattern("shop", None);
    assert_eq!(p.workspace, "shop");
    assert_eq!(p.username, "john.doe");
    assert_eq!(p.machine, "MacBook-Pro");
    assert_eq!(p.feature_type, FeatureType::Feature);
    assert!(p.description.is_none());
    let p = generator.suggest_pattern("shop", Some(FeatureType::Hotfix));
    assert_eq!(p.feature_type, FeatureType::Hotfix);
}

#[test]
fn default_config_values() {
    let c = BranchConfig::default();
    assert!(c.auto_create_branches);
    assert_eq!(c.default_feature_type, FeatureType::Feature);
    assert_eq!(c.branch_prefix_pattern, "{workspace}/{username}-{machine}/{feature}");
    assert_eq!(c.max_branch_name_length, 100);
    assert_eq!(c.allowed_feature_types.len(), 6);
}
