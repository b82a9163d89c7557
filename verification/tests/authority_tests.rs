use uauthority::authority::UAuthority;

#[test]
fn no_remote_fails_with_no_remote_reason() {
    let authority = UAuthority::default();
    let err = authority.validate_micro_form().unwrap_err();
    assert_eq!(err.message(), "Has Authority, but no remote");
}

#[test]
fn ipv4_loopback_validates() {
    let mut authority = UAuthority::default();
    authority.set_ip(vec![127, 0, 0, 1]);
    assert!(authority.validate_micro_form().is_ok());
}

#[test]
fn ipv6_all_zero_validates() {
    let mut authority = UAuthority::default();
    authority.set_ip(vec![0u8; 16]);
    assert!(authority.validate_micro_form().is_ok());
}

#[test]
fn five_byte_ip_fails_with_size_reason() {
    let mut authority = UAuthority::default();
    authority.set_ip(vec![1, 2, 3, 4, 5]);
    let err = authority.validate_micro_form().unwrap_err();
    assert!(err.message().contains("IPv4"));
    assert!(err.message().contains("IPv6"));
}

#[test]
fn other_ip_lengths_fail() {
    for len in [0usize, 3, 5, 15, 17] {
        let mut authority = UAuthority::default();
        authority.set_ip(vec![0u8; len]);
        let err = authority.validate_micro_form().unwrap_err();
        assert_eq!(
            err.message(),
            "IP address is not IPv4 (4 bytes) or IPv6 (16 bytes)"
        );
    }
}

#[test]
fn one_byte_id_validates() {
    let mut authority = UAuthority::default();
    authority.set_id(vec![0x01]);
    assert!(authority.validate_micro_form().is_ok());
}

#[test]
fn id_boundary_lengths() {
    let mut authority = UAuthority::default();
    authority.set_id(vec![0u8; 255]);
    assert!(authority.validate_micro_form().is_ok());

    authority.set_id(vec![0u8; 256]);
    assert!(authority.validate_micro_form().is_err());
}

#[test]
fn empty_id_fails_with_allocation_reason() {
    let mut authority = UAuthority::default();
    authority.set_id(Vec::new());
    let err = authority.validate_micro_form().unwrap_err();
    assert!(err.message().contains("bytes allocated"));
}

#[test]
fn name_fails_with_ip_or_id_reason() {
    let mut authority = UAuthority::default();
    authority.set_name(String::from("vehicle/engine"));
    let err = authority.validate_micro_form().unwrap_err();
    assert!(err.message().contains("IP address or ID"));
}

#[test]
fn any_name_fails() {
    for name in ["", "x", "a-rather-long-authority-name.example.internal"] {
        let mut authority = UAuthority::default();
        authority.set_name(String::from(name));
        assert!(authority.validate_micro_form().is_err());
    }
}

#[test]
fn designators_are_mutually_exclusive() {
    let empty = UAuthority::default();
    assert!(!empty.has_name() && !empty.has_ip() && !empty.has_id());

    let mut named = UAuthority::default();
    named.set_name(String::from("steering"));
    assert!(named.has_name() && !named.has_ip() && !named.has_id());

    let mut with_ip = UAuthority::default();
    with_ip.set_ip(vec![10, 0, 0, 1]);
    assert!(!with_ip.has_name() && with_ip.has_ip() && !with_ip.has_id());

    let mut with_id = UAuthority::default();
    with_id.set_id(vec![7]);
    assert!(!with_id.has_name() && !with_id.has_ip() && with_id.has_id());
}

#[test]
fn getters_return_the_set_value() {
    let mut authority = UAuthority::default();

    authority.set_name(String::from("brakes"));
    assert_eq!(authority.get_name(), Some("brakes"));
    assert_eq!(authority.get_ip(), None);
    assert_eq!(authority.get_id(), None);

    authority.set_ip(vec![192, 168, 1, 1]);
    assert_eq!(authority.get_ip(), Some(&[192u8, 168, 1, 1][..]));
    assert_eq!(authority.get_name(), None);
    assert_eq!(authority.get_id(), None);

    authority.set_id(vec![0xAB, 0xCD]);
    assert_eq!(authority.get_id(), Some(&[0xABu8, 0xCD][..]));
    assert_eq!(authority.get_name(), None);
    assert_eq!(authority.get_ip(), None);
}

#[test]
fn setting_discards_the_previous_designator() {
    let mut authority = UAuthority::default();
    authority.set_ip(vec![127, 0, 0, 1]);
    authority.set_name(String::from("gateway"));
    assert!(!authority.has_ip());
    assert_eq!(authority.get_ip(), None);
    assert!(authority.has_name());
    assert_eq!(authority.get_name(), Some("gateway"));
}

#[test]
fn setters_chain_fluently() {
    let mut authority = UAuthority::default();
    authority.set_ip(vec![127, 0, 0, 1]).set_id(vec![0x42]);
    assert!(authority.has_id());
    assert!(!authority.has_ip());
    assert_eq!(authority.get_id(), Some(&[0x42u8][..]));
}

#[test]
fn default_has_no_remote() {
    let authority = UAuthority::default();
    assert!(authority.remote.is_none());
    assert!(!authority.has_name() && !authority.has_ip() && !authority.has_id());
}
