use obake_launcher::text::str_eq;

#[test]
fn test_str_eq_equal() {
    assert!(str_eq("jack@mixpre.service", "jack@mixpre.service"));
    assert!(str_eq("", ""));
}

#[test]
fn test_str_eq_unequal() {
    assert!(!str_eq("mixpre", "mixpra"));
    assert!(!str_eq("mixpre", "mixpr"));
    assert!(!str_eq("", "a"));
}
