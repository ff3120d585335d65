use feature_flags::product::Product;
use feature_flags::user::{AccountType, User};

#[test]
fn account_type_parses_its_canonical_names() {
    assert_eq!(AccountType::from("Client".to_string()), AccountType::Client);
    assert_eq!(AccountType::from("Developer".to_string()), AccountType::Developer);
}

#[test]
fn unrecognized_account_names_are_read_as_clients() {
    assert_eq!(AccountType::from("developer".to_string()), AccountType::Client);
    assert_eq!(AccountType::from("".to_string()), AccountType::Client);
    assert_eq!(AccountType::from("admin".to_string()), AccountType::Client);
}

#[test]
fn account_type_names_round_trip() {
    for account_type in [AccountType::Developer, AccountType::Client] {
        assert_eq!(AccountType::from(account_type.name()), account_type);
    }
    assert_eq!(AccountType::Developer.name(), "Developer");
    assert_eq!(AccountType::Client.name(), "Client");
}

#[test]
fn default_user_is_an_unsaved_client() {
    let user = User::default();
    assert_eq!(user.oid, None);
    assert_eq!(user.name, "default_user");
    assert_eq!(user.account_type, AccountType::Client);
    assert_eq!(user.email, "default_user_email");
    assert_eq!(user.password_hash, "default_password_hash");
}

#[test]
fn user_builder_sets_every_field() {
    let user = User::builder()
        .with_oid("0123456789abcdef01234567".to_string())
        .with_name("ada")
        .with_account_type(AccountType::Developer)
        .with_email("ada@example.com")
        .with_password_hash("2c26b46b68ffc68ff99b453c")
        .build();
    assert_eq!(user.oid, Some("0123456789abcdef01234567".to_string()));
    assert_eq!(user.name, "ada");
    assert_eq!(user.account_type, AccountType::Developer);
    assert_eq!(user.email, "ada@example.com");
    assert_eq!(user.password_hash, "2c26b46b68ffc68ff99b453c");
}

#[test]
fn verify_password_compares_the_stored_hash() {
    let user = User::builder().with_password_hash("abc123").build();
    assert!(user.verify_password("abc123"));
    assert!(!user.verify_password("abc124"));
    assert!(!user.verify_password(""));
}

#[test]
fn developers_act_on_the_whole_organization() {
    let user = User::builder()
        .with_oid("0123456789abcdef01234567".to_string())
        .with_account_type(AccountType::Developer)
        .build();
    assert_eq!(user.rollout_scope(), Some(None));
}

#[test]
fn clients_act_on_themselves_by_persisted_id() {
    let user = User::builder()
        .with_oid("0123456789abcdef01234567".to_string())
        .with_account_type(AccountType::Client)
        .build();
    assert_eq!(user.rollout_scope(), Some(Some("0123456789abcdef01234567".to_string())));
}

#[test]
fn an_unsaved_client_has_no_scope_to_act_under() {
    let user = User::builder().with_account_type(AccountType::Client).build();
    assert_eq!(user.rollout_scope(), None);
}

#[test]
fn safe_user_rendering_drops_the_password_hash_and_keeps_the_id() {
    let user = User::builder()
        .with_oid("0123456789abcdef01234567".to_string())
        .with_name("ada")
        .with_account_type(AccountType::Developer)
        .with_email("ada@example.com")
        .with_password_hash("secret")
        .build();
    let safe = user.get_spec_safe_user();
    assert_eq!(safe.oid, "0123456789abcdef01234567");
    assert_eq!(safe.name, "ada");
    assert_eq!(safe.account_type, AccountType::Developer);
    assert_eq!(safe.email, "ada@example.com");
}

#[test]
fn safe_user_rendering_of_an_unsaved_user_draws_a_placeholder_id() {
    let safe = User::default().get_spec_safe_user();
    assert_eq!(safe.oid.len(), 24);
    assert!(safe.oid.chars().all(|c| c.is_ascii_hexdigit() && !c.is_ascii_uppercase()));
}

#[test]
fn default_product_is_unsaved_and_empty() {
    let product = Product::default();
    assert_eq!(product.oid, None);
    assert_eq!(product.name, "default_product");
    assert!(product.users.is_empty());
}

#[test]
fn product_builder_sets_every_field() {
    let product = Product::builder()
        .with_oid("89abcdef0123456789abcdef".to_string())
        .with_name("shop")
        .with_users(vec!["u1".to_string(), "u2".to_string()])
        .build();
    assert_eq!(product.oid, Some("89abcdef0123456789abcdef".to_string()));
    assert_eq!(product.name, "shop");
    assert_eq!(product.users, vec!["u1".to_string(), "u2".to_string()]);
}

#[test]
fn safe_product_rendering_keeps_name_and_users() {
    let product = Product::builder()
        .with_oid("89abcdef0123456789abcdef".to_string())
        .with_name("shop")
        .with_users(vec!["u1".to_string()])
        .build();
    let safe = product.get_spec_safe_product();
    assert_eq!(safe.oid, "89abcdef0123456789abcdef");
    assert_eq!(safe.name, "shop");
    assert_eq!(safe.users, vec!["u1".to_string()]);
}

#[test]
fn safe_product_rendering_of_an_unsaved_product_draws_a_placeholder_id() {
    let safe = Product::default().get_spec_safe_product();
    assert_eq!(safe.oid.len(), 24);
    assert!(safe.oid.chars().all(|c| c.is_ascii_hexdigit() && !c.is_ascii_uppercase()));
}
