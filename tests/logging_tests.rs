use check_vpn::logging::level_from_verbosity;

#[test]
fn test_level_from_verbosity() {
    assert_eq!(level_from_verbosity(0), "info");
    assert_eq!(level_from_verbosity(1), "debug");
    assert_eq!(level_from_verbosity(2), "trace");
    assert_eq!(level_from_verbosity(99), "trace");
}
