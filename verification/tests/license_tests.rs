use filehub::license::{
    checkout_key, compute_pool_counts, is_cache_fresh, license_override, reconcile_targets, validate_checkout,
    CheckinReason, ReservationConfig, ReservationManager,
};
use filehub::license_mock::MockLicenseManager;

#[test]
fn mock_requires_initialization() {
    let mut m = MockLicenseManager::new();
    assert_eq!(m.checkout("feat", "s1"), -1);
    assert_eq!(m.get_token_pool("feat"), (-1, 0, 0));
    assert_eq!(m.initialize(None), 0);
    assert_eq!(m.checkout("feat", "s1"), 0);
    assert_eq!(m.get_token_pool("feat"), (0, 10, 1));
    assert_eq!(m.get_server_info(), "MockServer@localhost");
}

#[test]
fn mock_checkout_is_idempotent() {
    let mut m = MockLicenseManager::new();
    m.initialize(None);
    assert_eq!(m.checkout("feat", "s1"), 0);
    assert_eq!(m.checkout("feat", "s1"), 0);
    assert_eq!(m.get_token_pool("feat"), (0, 10, 1));
}

#[test]
fn mock_respects_seat_limit_unless_star() {
    let mut m = MockLicenseManager::new();
    m.initialize(None);
    m.set_total_seats("feat", 2);
    assert_eq!(m.checkout("feat", "a"), 0);
    assert_eq!(m.checkout("feat", "b"), 0);
    assert_eq!(m.checkout("feat", "c"), -1);
    assert_eq!(m.get_token_pool("feat"), (0, 2, 2));
    m.set_star_license(true);
    assert!(m.is_star_license());
    assert_eq!(m.checkout("feat", "c"), 0);
    assert_eq!(m.get_token_pool("feat"), (0, 2, 3));
}

#[test]
fn mock_checkin_undoes_checkout() {
    let mut m = MockLicenseManager::new();
    m.initialize(None);
    m.checkout("feat", "a");
    let before = m.get_token_pool("feat");
    assert_eq!(m.checkout("feat", "b"), 0);
    assert_eq!(m.checkin("feat", "b"), 0);
    assert_eq!(m.get_token_pool("feat"), before);
    assert_eq!(m.checkin("feat", "b"), -1);
    assert_eq!(m.checkin("other", "a"), -1);
}

#[test]
fn mock_release_and_destroy() {
    let mut m = MockLicenseManager::default();
    m.initialize(Some("/lic"));
    m.checkout("f1", "a");
    m.checkout("f2", "b");
    m.release_all();
    assert_eq!(m.get_token_pool("f1"), (0, 10, 0));
    assert_eq!(m.get_token_pool("f2"), (0, 10, 0));
    m.checkout("f1", "a");
    m.destroy();
    assert_eq!(m.get_token_pool("f1"), (-1, 0, 0));
    assert_eq!(m.checkout("f1", "a"), -1);
}

#[test]
fn checkout_validation() {
    let v = validate_checkout(5, 2, false);
    assert!(v.allowed);
    assert!(v.reason.is_none());
    assert_eq!(v.available_seats, 5);
    assert_eq!(v.total_seats, 0);
    let v = validate_checkout(2, 2, false);
    assert!(!v.allowed);
    assert_eq!(v.reason.as_deref(), Some("Remaining seats are reserved for administrators"));
    let v = validate_checkout(2, 2, true);
    assert!(v.allowed);
    let v = validate_checkout(0, 0, true);
    assert_eq!(v.reason.as_deref(), Some("No license seats available"));
}

#[test]
fn reservation_manager() {
    let mut r = ReservationManager::new(ReservationConfig { enabled: true, reserved_seats: 3 });
    assert!(r.is_enabled());
    assert_eq!(r.reserved_seats(), 3);
    assert_eq!(r.effective_available(5), 2);
    assert_eq!(r.effective_available(1), 0);
    assert_eq!(r.effective_available_for_admin(1), 1);
    r.update_config(ReservationConfig { enabled: false, reserved_seats: 3 });
    assert_eq!(r.reserved_seats(), 0);
    assert_eq!(r.effective_available(-2), -2);
    for avail in [-3, 0, 1, 4, 9] {
        let m = ReservationManager::new(ReservationConfig { enabled: true, reserved_seats: 4 });
        assert_eq!(validate_checkout(avail, m.reserved_seats(), false).allowed, m.effective_available(avail) > 0);
    }
}

#[test]
fn pool_counts() {
    let c = compute_pool_counts(10, 4, false, 3, true, 2);
    assert_eq!(c.total_seats, 10);
    assert_eq!(c.available, 6);
    assert_eq!(c.admin_reserved, 2);
    assert!(c.drift_detected);
    let s = compute_pool_counts(10, 4, true, 3, false, 2);
    assert_eq!(s.total_seats, -1);
    assert_eq!(s.available, i32::MAX);
    assert_eq!(s.admin_reserved, 0);
    assert!(!s.drift_detected);
}

#[test]
fn cache_and_reconcile() {
    assert!(is_cache_fresh(0, 30));
    assert!(is_cache_fresh(29_999_999_999, 30));
    assert!(!is_cache_fresh(30_000_000_000, 30));
    assert!(!is_cache_fresh(-1, 30));
    assert_eq!(license_override(""), None);
    assert_eq!(license_override("/l.lic"), Some("/l.lic"));
    assert_eq!(checkout_key(&None, &"tok".to_string()), "tok");
    let keys = vec!["a".to_string(), "b".to_string()];
    assert_eq!(reconcile_targets(1, &keys), keys);
    assert!(reconcile_targets(2, &keys).is_empty());
    assert_eq!(CheckinReason::OverflowKick.as_str(), "overflow_kick");
}
