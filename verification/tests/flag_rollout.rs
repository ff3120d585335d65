use feature_flags::flag::{FeatureFlag, FeatureFlagBuilder, ReleaseType};

fn disabled_global_flag() -> FeatureFlag {
    FeatureFlag::builder()
        .with_name("checkout")
        .with_product_id("shop")
        .with_enabled(false)
        .build()
}

#[test]
fn hoist_without_user_enables_globally() {
    let mut flag = disabled_global_flag();
    assert_eq!(flag.enabled, false);
    flag.hoist(None);
    assert_eq!(flag.enabled, true);
}

#[test]
fn lower_without_user_disables_globally() {
    let mut flag = disabled_global_flag();
    flag.hoist(None);
    flag.lower(None);
    assert_eq!(flag.enabled, false);
}

#[test]
fn lower_with_user_appends_to_opt_out_list() {
    let mut flag = disabled_global_flag();
    assert!(flag.disabled_for.is_empty());
    flag.lower(Some("u1".to_string()));
    assert_eq!(flag.disabled_for, vec!["u1".to_string()]);
}

#[test]
fn hoist_with_user_removes_them_from_opt_out_list() {
    let mut flag = FeatureFlag::builder()
        .with_enabled(true)
        .with_disabled_for(vec!["u1".to_string(), "u2".to_string()])
        .build();
    flag.hoist(Some("u1".to_string()));
    assert_eq!(flag.disabled_for, vec!["u2".to_string()]);
    assert_eq!(flag.enabled, true);
}

#[test]
fn hoist_of_user_not_opted_out_is_a_no_op() {
    let mut flag = FeatureFlag::builder()
        .with_enabled(true)
        .with_disabled_for(vec!["u2".to_string()])
        .build();
    let before = flag.clone();
    flag.hoist(Some("u1".to_string()));
    assert_eq!(flag, before);
}

#[test]
fn hoist_for_a_user_is_idempotent() {
    let mut flag = FeatureFlag::builder()
        .with_enabled(true)
        .with_disabled_for(vec!["u1".to_string(), "u1".to_string(), "u2".to_string()])
        .build();
    flag.hoist(Some("u1".to_string()));
    assert!(!flag.disabled_for.contains(&"u1".to_string()));
    let after_first = flag.clone();
    flag.hoist(Some("u1".to_string()));
    assert_eq!(flag, after_first);
}

#[test]
fn lower_then_hoist_restores_the_users_absence() {
    let mut flag = FeatureFlag::builder()
        .with_enabled(true)
        .with_disabled_for(vec!["u2".to_string()])
        .build();
    let before = flag.clone();
    flag.lower(Some("u1".to_string()));
    assert!(flag.disabled_for.contains(&"u1".to_string()));
    flag.hoist(Some("u1".to_string()));
    assert!(!flag.disabled_for.contains(&"u1".to_string()));
    assert_eq!(flag, before);
}

#[test]
fn repeated_lower_accumulates_entries() {
    let mut flag = disabled_global_flag();
    flag.lower(Some("u1".to_string()));
    flag.lower(Some("u1".to_string()));
    assert_eq!(flag.disabled_for, vec!["u1".to_string(), "u1".to_string()]);
    flag.hoist(Some("u1".to_string()));
    assert!(flag.disabled_for.is_empty());
}

#[test]
fn rollout_never_changes_the_strategy() {
    let mut flag = FeatureFlag::builder()
        .with_enabled(true)
        .with_release_type(ReleaseType::Limited(vec!["u1".to_string()]))
        .build();
    flag.lower(Some("u1".to_string()));
    flag.hoist(Some("u1".to_string()));
    flag.lower(None);
    flag.hoist(None);
    assert_eq!(flag.release_type, ReleaseType::Limited(vec!["u1".to_string()]));
}

#[test]
fn default_flag_is_unsaved_and_off() {
    let flag = FeatureFlag::default();
    assert_eq!(flag.oid, None);
    assert_eq!(flag.name, "default_flag");
    assert_eq!(flag.product_id, "default_product");
    assert_eq!(flag.enabled, false);
    assert_eq!(flag.client_toggle, false);
    assert!(flag.disabled_for.is_empty());
    assert_eq!(flag.release_type, ReleaseType::Global);
}

#[test]
fn builder_sets_every_field() {
    let flag = FeatureFlag::builder()
        .with_oid("0123456789abcdef01234567".to_string())
        .with_name("checkout")
        .with_product_id("shop")
        .with_enabled(true)
        .with_client_toggle(true)
        .with_disabled_for(vec!["u1".to_string()])
        .with_release_type(ReleaseType::Percentage(2500, vec!["u2".to_string()]))
        .build();
    assert_eq!(flag.oid, Some("0123456789abcdef01234567".to_string()));
    assert_eq!(flag.name, "checkout");
    assert_eq!(flag.product_id, "shop");
    assert_eq!(flag.enabled, true);
    assert_eq!(flag.client_toggle, true);
    assert_eq!(flag.disabled_for, vec!["u1".to_string()]);
    assert_eq!(flag.release_type, ReleaseType::Percentage(2500, vec!["u2".to_string()]));
}

#[test]
fn builder_without_settings_builds_the_default_flag() {
    let built: FeatureFlag = FeatureFlagBuilder::default().build();
    assert_eq!(built, FeatureFlag::default());
}

#[test]
fn safe_rendering_keeps_a_persisted_id() {
    let flag = FeatureFlag::builder()
        .with_oid("0123456789abcdef01234567".to_string())
        .with_name("checkout")
        .with_product_id("shop")
        .with_enabled(true)
        .with_disabled_for(vec!["u1".to_string()])
        .with_release_type(ReleaseType::Limited(vec!["u2".to_string()]))
        .build();
    let safe = flag.get_spec_safe_feature_flag();
    assert_eq!(safe.oid, "0123456789abcdef01234567");
    assert_eq!(safe.name, "checkout");
    assert_eq!(safe.product_id, "shop");
    assert_eq!(safe.enabled, true);
    assert_eq!(safe.client_toggle, false);
    assert_eq!(safe.release_type, ReleaseType::Limited(vec!["u2".to_string()]));
}

#[test]
fn safe_rendering_of_an_unsaved_flag_draws_a_placeholder_id() {
    let flag = FeatureFlag::default();
    let safe = flag.get_spec_safe_feature_flag();
    assert_eq!(safe.oid.len(), 24);
    assert!(safe.oid.chars().all(|c| c.is_ascii_hexdigit() && !c.is_ascii_uppercase()));
}
