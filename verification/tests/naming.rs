//! The default strings, as `inflector` gives them.

use detail_error::declaration::{Declaration, VariantDecl};
use detail_error::descriptor::DetailErrorVariant;
use detail_error::fields::Fields;
use detail_error::handler;
use detail_error::naming::{default_code, default_message};

fn variant(ident: &str, code: Option<u16>, message: Option<&str>) -> DetailErrorVariant {
    DetailErrorVariant {
        ident: ident.to_string(),
        fields: Fields::unit(),
        code,
        message: message.map(|m| m.to_string()),
    }
}

#[test]
fn the_default_code_is_the_name_in_upper_snake_case() {
    assert_eq!(default_code("InvalidEmail"), "INVALID_EMAIL");
    assert_eq!(default_code("InvalidPassword"), "INVALID_PASSWORD");
    assert_eq!(default_code("NotFound404"), "NOT_FOUND_404");
    assert_eq!(default_code("A"), "A");
}

#[test]
fn the_default_message_is_the_name_in_sentence_case() {
    assert_eq!(default_message("InvalidEmail"), "Invalid email");
    assert_eq!(default_message("InvalidPassword"), "Invalid password");
    assert_eq!(default_message("TooManyRequestsSent"), "Too many requests sent");
    assert_eq!(default_message("A"), "A");
}

#[test]
fn a_variant_that_configures_nothing_gets_the_defaults() {
    let plain = variant("InvalidEmail", None, None);
    assert_eq!(plain.http_code(), 400);
    assert_eq!(plain.code_string(), "INVALID_EMAIL");
    assert_eq!(plain.message_string(), "Invalid email");
}

#[test]
fn what_a_variant_configures_comes_before_the_defaults() {
    let configured = variant("InvalidPassword", Some(500), Some("this is an invalid password"));
    assert_eq!(configured.http_code(), 500);
    assert_eq!(configured.code_string(), "INVALID_PASSWORD");
    assert_eq!(configured.message_string(), "this is an invalid password");
    let status_only = variant("InvalidPassword", Some(0), None);
    assert_eq!(status_only.http_code(), 0);
    assert_eq!(status_only.message_string(), "Invalid password");
    let message_only = variant("InvalidPassword", None, Some(""));
    assert_eq!(message_only.http_code(), 400);
    assert_eq!(message_only.message_string(), "");
}

#[test]
fn a_single_variant_named_by_one_letter() {
    let text = handler(&Declaration::enumeration("A", vec![VariantDecl::unit("A")])).unwrap();
    assert!(text.contains("A::A => 400u16,"));
    assert_eq!(text.matches("A::A => String::from(\"A\"),").count(), 2);
}
