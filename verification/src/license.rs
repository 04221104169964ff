//! License seat rules: checkout validation, admin reservations, the pool
//! status derived from the license library's counts, cache freshness and
//! reconciliation.

use vstd::prelude::*;

verus! {

/// Reason for a license checkin.
#[derive(Debug, Clone, Copy, PartialEq, Eq, Structural)]
pub enum CheckinReason {
    /// User logged out voluntarily.
    UserLogout,
    /// Admin terminated the session.
    AdminTermination,
    /// Session expired.
    SessionExpired,
    /// Session idle timeout.
    IdleTimeout,
    /// System shutdown.
    SystemShutdown,
    /// Seat overflow kicked.
    OverflowKick,
    /// Pool reconciliation.
    Reconciliation,
}

/// The text of each checkin reason.
pub open spec fn checkin_reason_text(r: CheckinReason) -> Seq<char> {
    match r {
        CheckinReason::UserLogout => "user_logout"@,
        CheckinReason::AdminTermination => "admin_termination"@,
        CheckinReason::SessionExpired => "session_expired"@,
        CheckinReason::IdleTimeout => "idle_timeout"@,
        CheckinReason::SystemShutdown => "system_shutdown"@,
        CheckinReason::OverflowKick => "overflow_kick"@,
        CheckinReason::Reconciliation => "reconciliation"@,
    }
}

impl CheckinReason {
    /// The reason as text.
    pub fn as_str(&self) -> (r: &'static str)
        ensures
            r@ == checkin_reason_text(*self),
    {
        match self {
            CheckinReason::UserLogout => "user_logout",
            CheckinReason::AdminTermination => "admin_termination",
            CheckinReason::SessionExpired => "session_expired",
            CheckinReason::IdleTimeout => "idle_timeout",
            CheckinReason::SystemShutdown => "system_shutdown",
            CheckinReason::OverflowKick => "overflow_kick",
            CheckinReason::Reconciliation => "reconciliation",
        }
    }
}

/// Parameters for a checkin request.
#[derive(Debug)]
pub struct CheckinRequest {
    /// The session whose license should be checked in.
    pub session_id: String,
    /// The reason for the checkin.
    pub reason: CheckinReason,
}

/// Parameters for a checkout request.
#[derive(Debug)]
pub struct CheckoutRequest {
    /// The user requesting the checkout.
    pub user_id: String,
    /// The session associated with this checkout.
    pub session_id: String,
    /// The feature to checkout.
    pub feature_name: String,
    /// The client IP address.
    pub ip_address: Option<String>,
    /// When the request was made, in milliseconds since the Unix epoch.
    pub requested_at_ms: i64,
}

/// Result of a checkout validation.
#[derive(Debug)]
pub struct CheckoutValidation {
    /// Whether the checkout is allowed.
    pub allowed: bool,
    /// Reason if not allowed.
    pub reason: Option<String>,
    /// Available seats before checkout.
    pub available_seats: i32,
    /// Total seats (not known here: always 0).
    pub total_seats: i32,
}

/// Seats a user may take: all available ones for an admin, else those
/// beyond the reserved ones (never below zero).
pub open spec fn seats_for(available: int, reserved: int, is_admin: bool) -> int {
    if is_admin {
        available
    } else if available - reserved > 0 {
        available - reserved
    } else {
        0
    }
}

/// Message when only reserved seats remain.
pub open spec fn reserved_message() -> Seq<char> {
    "Remaining seats are reserved for administrators"@
}

/// Message when no seat remains.
pub open spec fn no_seats_message() -> Seq<char> {
    "No license seats available"@
}

/// Whether `x` fits an `i32`.
pub open spec fn fits_i32(x: int) -> bool {
    i32::MIN <= x <= i32::MAX
}

/// Validates whether a checkout should be allowed: it is when the seats the
/// user may take are positive. A refused non-admin who would have had seats
/// without the reservation is told the rest are reserved.
pub fn validate_checkout(available_seats: i32, admin_reserved: i32, is_admin: bool) -> (r: CheckoutValidation)
    requires
        is_admin || fits_i32(available_seats - admin_reserved),
    ensures
        r.allowed == (seats_for(available_seats as int, admin_reserved as int, is_admin) > 0),
        r.allowed ==> r.reason is None,
        !r.allowed ==> (r.reason matches Some(m) && m@ == (if !is_admin && available_seats > 0 {
            reserved_message()
        } else {
            no_seats_message()
        })),
        r.available_seats == available_seats,
        r.total_seats == 0,
{
    let effective: i32 = if is_admin {
        available_seats
    } else {
        let d: i32 = available_seats - admin_reserved;
        if d > 0 { d } else { 0 }
    };
    if effective <= 0 {
        let reason = if !is_admin && available_seats > 0 {
            crate::mapping::owned("Remaining seats are reserved for administrators")
        } else {
            crate::mapping::owned("No license seats available")
        };
        CheckoutValidation { allowed: false, reason: Some(reason), available_seats, total_seats: 0 }
    } else {
        CheckoutValidation { allowed: true, reason: None, available_seats, total_seats: 0 }
    }
}

/// Configuration for admin seat reservations.
#[derive(Debug, Clone, Copy, PartialEq, Eq, Structural)]
pub struct ReservationConfig {
    /// Whether admin reservation is enabled.
    pub enabled: bool,
    /// Number of seats reserved for admins.
    pub reserved_seats: i32,
}

/// Manages admin seat reservations.
#[derive(Debug, Clone, Copy)]
pub struct ReservationManager {
    config: ReservationConfig,
}

impl ReservationManager {
    /// The reservation configuration.
    pub closed spec fn config_view(&self) -> ReservationConfig {
        self.config
    }

    /// The seats held back for admins: the configured count when enabled.
    pub open spec fn reserved(&self) -> int {
        if self.config_view().enabled { self.config_view().reserved_seats as int } else { 0 }
    }

    /// Seats a non-admin may take out of `available`: those beyond the
    /// reservation (never below zero) when enabled, else all of them.
    pub open spec fn effective_seats(&self, available: int) -> int {
        if self.config_view().enabled { seats_for(available, self.reserved(), false) } else { available }
    }

    /// A manager with the given configuration.
    pub fn new(config: ReservationConfig) -> (r: Self)
        ensures
            r.config_view() == config,
    {
        ReservationManager { config }
    }

    /// Whether admin reservation is enabled.
    pub fn is_enabled(&self) -> (r: bool)
        ensures
            r == self.config_view().enabled,
    {
        self.config.enabled
    }

    /// The number of reserved seats (0 when disabled).
    pub fn reserved_seats(&self) -> (r: i32)
        ensures
            r == self.reserved(),
    {
        if self.config.enabled { self.config.reserved_seats } else { 0 }
    }

    /// Seats available to non-admin users.
    pub fn effective_available(&self, total_available: i32) -> (r: i32)
        requires
            !self.config_view().enabled || fits_i32(total_available - self.config_view().reserved_seats),
        ensures
            r == self.effective_seats(total_available as int),
    {
        if self.config.enabled {
            let d: i32 = total_available - self.config.reserved_seats;
            if d > 0 { d } else { 0 }
        } else {
            total_available
        }
    }

    /// Seats available to admin users: all of them.
    pub fn effective_available_for_admin(&self, total_available: i32) -> (r: i32)
        ensures
            r == total_available,
            r == seats_for(total_available as int, self.reserved(), true),
    {
        total_available
    }

    /// Replaces the reservation configuration.
    pub fn update_config(&mut self, config: ReservationConfig)
        ensures
            final(self).config_view() == config,
    {
        self.config = config;
    }
}

/// A checkout validated against the manager's reservation is allowed for
/// a non-admin exactly when the manager leaves that user a seat, and for an
/// admin exactly when any seat is available.
pub proof fn lemma_validation_matches_reservation(m: ReservationManager, available: i32, is_admin: bool)
    ensures
        (seats_for(available as int, m.reserved(), is_admin) > 0) == if is_admin {
            available > 0
        } else {
            m.effective_seats(available as int) > 0
        },
{
}

/// The integer part of a pool status derived from the license library.
#[derive(Debug, Clone, Copy, PartialEq, Eq, Structural)]
pub struct PoolCounts {
    /// Total seats; -1 for a star license.
    pub total_seats: i32,
    /// Seats checked out according to the library.
    pub checked_out: i32,
    /// Seats available; `i32::MAX` for a star license.
    pub available: i32,
    /// Seats reserved for admins.
    pub admin_reserved: i32,
    /// Active checkouts according to the database.
    pub active_sessions: i32,
    /// Whether the library and the database disagree.
    pub drift_detected: bool,
}

/// The pool counts for the library's `total` and `used` seats, the star
/// flag, the database's active checkouts and the admin reservation.
pub open spec fn pool_counts_of(
    total: i32,
    used: i32,
    is_star: bool,
    active: i32,
    reserve_enabled: bool,
    reserved_seats: i32,
) -> PoolCounts {
    PoolCounts {
        total_seats: if is_star { -1i32 } else { total },
        checked_out: used,
        available: if is_star { i32::MAX } else { (total - used) as i32 },
        admin_reserved: if reserve_enabled { reserved_seats } else { 0i32 },
        active_sessions: active,
        drift_detected: !is_star && used != active,
    }
}

/// Derives the pool counts (the usage percentage aside).
pub fn compute_pool_counts(
    total: i32,
    used: i32,
    is_star: bool,
    active: i32,
    reserve_enabled: bool,
    reserved_seats: i32,
) -> (r: PoolCounts)
    requires
        is_star || fits_i32(total - used),
    ensures
        r == pool_counts_of(total, used, is_star, active, reserve_enabled, reserved_seats),
{
    let available: i32 = if is_star { i32::MAX } else { total - used };
    PoolCounts {
        total_seats: if is_star { -1 } else { total },
        checked_out: used,
        available,
        admin_reserved: if reserve_enabled { reserved_seats } else { 0i32 },
        active_sessions: active,
        drift_detected: !is_star && used != active,
    }
}

/// For a non-star license, the seats checked out and available add up to
/// the total, and drift is reported exactly when the library's count
/// differs from the database's.
pub proof fn lemma_pool_counts_balance(total: i32, used: i32, active: i32, reserve_enabled: bool, reserved_seats: i32)
    requires
        fits_i32(total - used),
    ensures
        ({
            let c = pool_counts_of(total, used, false, active, reserve_enabled, reserved_seats);
            &&& c.checked_out + c.available == c.total_seats
            &&& c.drift_detected == (used != active)
        }),
{
}

/// Whether a cached status of age `age_nanos` (negative when the clock went
/// back) is still within `ttl_seconds`.
pub fn is_cache_fresh(age_nanos: i128, ttl_seconds: u64) -> (r: bool)
    ensures
        r == (0 <= age_nanos && age_nanos < ttl_seconds as int * 1_000_000_000),
{
    if age_nanos < 0 {
        return false;
    }
    let ttl: i128 = (ttl_seconds as i128) * 1_000_000_000i128;
    age_nanos < ttl
}

/// The license file override: none when the configured path is empty.
pub fn license_override(license_file: &str) -> (r: Option<&str>)
    ensures
        license_file@.len() == 0 ==> r is None,
        license_file@.len() > 0 ==> r == Some(license_file),
{
    if license_file.is_empty() {
        None
    } else {
        Some(license_file)
    }
}

/// The key a database checkout is known by in the license library: its
/// session ID, else its checkout token.
pub fn checkout_key(session_id: &Option<String>, checkout_token: &String) -> (r: String)
    ensures
        r@ == match session_id {
            Some(s) => s@,
            None => checkout_token@,
        },
{
    match session_id {
        Some(s) => s.clone(),
        None => checkout_token.clone(),
    }
}

/// Which database checkouts reconciliation checks out again: all of them
/// when the library counts fewer seats than the database has records, none
/// otherwise.
pub fn reconcile_targets(used: i32, db_keys: &Vec<String>) -> (r: Vec<String>)
    requires
        db_keys@.len() <= i32::MAX,
        fits_i32(used - db_keys@.len()),
    ensures
        used < db_keys@.len() ==> r.deep_view() == db_keys.deep_view(),
        used >= db_keys@.len() ==> r@.len() == 0,
{
    let db_count: i32 = db_keys.len() as i32;
    if used - db_count < 0 {
        crate::mapping::copy_strings(db_keys)
    } else {
        Vec::new()
    }
}

} // verus!
