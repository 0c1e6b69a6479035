use gcp_dynamic_ip_updater::tracker::{check_ip_changed, IpAddresses};

fn empty() -> IpAddresses {
    IpAddresses { previous_ip: None, current_ip: None }
}

#[test]
fn new_record_remembers_nothing() {
    assert_eq!(IpAddresses::new(), empty());
}

#[test]
fn first_address_is_a_change() {
    let mut record = empty();
    assert!(check_ip_changed("203.0.113.5", &mut record));
    assert_eq!(record.current_ip, Some("203.0.113.5".to_string()));
    assert_eq!(record.previous_ip, None);
}

#[test]
fn same_address_is_no_change() {
    let mut record = IpAddresses {
        previous_ip: Some("198.51.100.1".to_string()),
        current_ip: Some("203.0.113.5".to_string()),
    };
    let before = record.clone();
    assert!(!check_ip_changed("203.0.113.5", &mut record));
    assert_eq!(record, before);
}

#[test]
fn change_shifts_current_into_previous() {
    let mut record = IpAddresses {
        previous_ip: Some("198.51.100.1".to_string()),
        current_ip: Some("203.0.113.5".to_string()),
    };
    assert!(check_ip_changed("192.0.2.7", &mut record));
    assert_eq!(record.previous_ip, Some("203.0.113.5".to_string()));
    assert_eq!(record.current_ip, Some("192.0.2.7".to_string()));
}

#[test]
fn two_changes_then_a_repeat() {
    let mut record = empty();
    assert!(check_ip_changed("10.0.0.1", &mut record));
    assert!(check_ip_changed("10.0.0.2", &mut record));
    assert_eq!(record.previous_ip, Some("10.0.0.1".to_string()));
    assert_eq!(record.current_ip, Some("10.0.0.2".to_string()));
    let before = record.clone();
    assert!(!check_ip_changed("10.0.0.2", &mut record));
    assert_eq!(record, before);
}

#[test]
fn two_changes_from_a_used_record() {
    let mut record = IpAddresses {
        previous_ip: Some("172.16.0.9".to_string()),
        current_ip: Some("10.0.0.1".to_string()),
    };
    assert!(!check_ip_changed("10.0.0.1", &mut record));
    assert!(check_ip_changed("10.0.0.2", &mut record));
    assert_eq!(record.previous_ip, Some("10.0.0.1".to_string()));
    assert_eq!(record.current_ip, Some("10.0.0.2".to_string()));
    assert!(!check_ip_changed("10.0.0.2", &mut record));
    assert_eq!(record.previous_ip, Some("10.0.0.1".to_string()));
    assert_eq!(record.current_ip, Some("10.0.0.2".to_string()));
}

#[test]
fn going_back_to_the_previous_address_is_a_change() {
    let mut record = empty();
    assert!(check_ip_changed("10.0.0.1", &mut record));
    assert!(check_ip_changed("10.0.0.2", &mut record));
    assert!(check_ip_changed("10.0.0.1", &mut record));
    assert_eq!(record.previous_ip, Some("10.0.0.2".to_string()));
    assert_eq!(record.current_ip, Some("10.0.0.1".to_string()));
}

#[test]
fn comparison_is_by_text() {
    let mut record = empty();
    assert!(check_ip_changed("10.0.0.1", &mut record));
    assert!(check_ip_changed("10.0.0.01", &mut record));
    assert!(check_ip_changed("", &mut record));
    assert_eq!(record.previous_ip, Some("10.0.0.01".to_string()));
    assert_eq!(record.current_ip, Some(String::new()));
}

#[test]
fn snapshot_is_an_equal_record() {
    let record = IpAddresses {
        previous_ip: Some("198.51.100.1".to_string()),
        current_ip: Some("203.0.113.5".to_string()),
    };
    assert_eq!(record.snapshot(), record);
    assert_eq!(empty().snapshot(), empty());
}
