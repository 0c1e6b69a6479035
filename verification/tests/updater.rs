use gcp_dynamic_ip_updater::updater::{
    build_request, conclude_update, host_cidr, is_valid_address, is_valid_rule_name, plan_update,
    UpdateError, UpdateRequest, ADDRESS_PATTERN, HOST_SUFFIX, RULE_NAME_PATTERN,
};

fn request(rule_name: &str, cidr: &str) -> UpdateRequest {
    UpdateRequest { rule_name: rule_name.to_string(), source_ranges: vec![cidr.to_string()] }
}

#[test]
fn patterns_are_the_documented_ones() {
    assert_eq!(RULE_NAME_PATTERN, "^[a-zA-Z0-9_-]+$");
    assert_eq!(ADDRESS_PATTERN, r"^\d{1,3}(\.\d{1,3}){3}$");
    assert_eq!(HOST_SUFFIX, "/32");
}

#[test]
fn rule_names_of_letters_digits_underscore_and_hyphen_pass() {
    assert!(is_valid_rule_name("allow-ssh"));
    assert!(is_valid_rule_name("Allow_SSH_2"));
    assert!(is_valid_rule_name("a"));
    assert!(is_valid_rule_name("-"));
    assert!(is_valid_rule_name("0"));
}

#[test]
fn other_rule_names_do_not_pass() {
    assert!(!is_valid_rule_name(""));
    assert!(!is_valid_rule_name("rule;rm -rf"));
    assert!(!is_valid_rule_name("rule name"));
    assert!(!is_valid_rule_name("rule\n"));
    assert!(!is_valid_rule_name("r\u{e9}gle"));
    assert!(!is_valid_rule_name("rule.name"));
    assert!(!is_valid_rule_name("^[a-zA-Z0-9_-]+$"));
}

#[test]
fn dotted_quads_pass() {
    assert!(is_valid_address("203.0.113.5"));
    assert!(is_valid_address("1.2.3.4"));
    assert!(is_valid_address("001.002.003.004"));
}

#[test]
fn groups_above_255_pass() {
    assert!(is_valid_address("999.999.999.999"));
    assert!(is_valid_address("256.0.0.1"));
}

#[test]
fn other_addresses_do_not_pass() {
    assert!(!is_valid_address(""));
    assert!(!is_valid_address("1.2.3"));
    assert!(!is_valid_address("1.2.3.4.5"));
    assert!(!is_valid_address("abc.def.gha.bcd"));
    assert!(!is_valid_address("1234.1.1.1"));
    assert!(!is_valid_address("1..2.3"));
    assert!(!is_valid_address("1.2.3.4/32"));
    assert!(!is_valid_address(" 1.2.3.4"));
    assert!(!is_valid_address("1.2.3.4\n"));
    assert!(!is_valid_address("1,2,3,4"));
    assert!(!is_valid_address("::1"));
}

#[test]
fn a_digit_is_any_decimal_digit() {
    assert!(is_valid_address("\u{661}.\u{662}.\u{663}.\u{664}"));
}

#[test]
fn host_cidr_appends_the_suffix() {
    assert_eq!(host_cidr("203.0.113.5"), "203.0.113.5/32");
    assert_eq!(host_cidr(""), "/32");
}

#[test]
fn valid_input_plans_one_range() {
    assert_eq!(
        plan_update("allow-ssh", "203.0.113.5"),
        Ok(request("allow-ssh", "203.0.113.5/32"))
    );
    assert_eq!(
        plan_update("web_1", "999.999.999.999"),
        Ok(request("web_1", "999.999.999.999/32"))
    );
}

#[test]
fn invalid_rule_name_is_refused() {
    assert_eq!(plan_update("rule;rm -rf", "203.0.113.5"), Err(UpdateError::InvalidRuleName));
    assert_eq!(plan_update("rule name", "203.0.113.5"), Err(UpdateError::InvalidRuleName));
    assert_eq!(plan_update("", "203.0.113.5"), Err(UpdateError::InvalidRuleName));
}

#[test]
fn invalid_address_is_refused() {
    assert_eq!(plan_update("allow-ssh", "1.2.3"), Err(UpdateError::InvalidAddress));
    assert_eq!(plan_update("allow-ssh", "1.2.3.4.5"), Err(UpdateError::InvalidAddress));
    assert_eq!(plan_update("allow-ssh", "abc.def.gha.bcd"), Err(UpdateError::InvalidAddress));
    assert_eq!(plan_update("allow-ssh", ""), Err(UpdateError::InvalidAddress));
}

#[test]
fn rule_name_is_checked_before_the_address() {
    assert_eq!(plan_update("rule name", "1.2.3"), Err(UpdateError::InvalidRuleName));
}

#[test]
fn build_request_follows_the_two_checks() {
    assert_eq!(build_request(true, true, "r", "1.2.3.4"), Ok(request("r", "1.2.3.4/32")));
    assert_eq!(build_request(false, true, "r", "1.2.3.4"), Err(UpdateError::InvalidRuleName));
    assert_eq!(build_request(false, false, "r", "1.2.3.4"), Err(UpdateError::InvalidRuleName));
    assert_eq!(build_request(true, false, "r", "1.2.3.4"), Err(UpdateError::InvalidAddress));
}

#[test]
fn acknowledged_update_is_success() {
    assert_eq!(conclude_update(Ok(())), Ok(()));
}

#[test]
fn failed_update_carries_the_diagnostic() {
    assert_eq!(
        conclude_update(Err("permission denied".to_string())),
        Err(UpdateError::ExternalUpdateFailed("permission denied".to_string()))
    );
    assert_eq!(
        conclude_update(Err(String::new())),
        Err(UpdateError::ExternalUpdateFailed(String::new()))
    );
}
