//! In-memory license manager with the behaviour of the license proxy
//! library: seat-limited, per-session checkouts of named features.
//!
//! Return codes follow the library: `0` for success, `-1` for failure.

use vstd::prelude::*;
use crate::mapping::owned;
use crate::text::str_eq;

verus! {

/// Seats of a feature with no configured count.
pub const DEFAULT_SEATS: i32 = 10;

/// The sessions holding one feature.
#[derive(Debug)]
pub struct FeatureHolders {
    /// The feature name.
    pub feature: String,
    /// The sessions holding it, in checkout order.
    pub sessions: Vec<String>,
}

/// A configured seat count.
#[derive(Debug)]
pub struct SeatLimit {
    /// The feature name.
    pub feature: String,
    /// Its total seats.
    pub seats: i32,
}

/// Mock license manager that simulates the proxy library in memory.
#[derive(Debug)]
pub struct MockLicenseManager {
    initialized: bool,
    checkouts: Vec<FeatureHolders>,
    total_seats: Vec<SeatLimit>,
    is_star: bool,
    server_info: String,
}

/// Position of the first entry of `keys` equal to `k`, or -1.
pub open spec fn key_index(keys: Seq<Seq<char>>, k: Seq<char>) -> int {
    if keys.contains(k) { keys.index_of(k) } else { -1 }
}

/// Checking a session in right after checking it out, when it held no seat
/// before, leaves the feature with exactly the holders it had: the
/// holders after the checkout contain the session, and removing it there
/// gives back the holders from before.
pub proof fn lemma_checkin_undoes_checkout(held: Seq<Seq<char>>, session: Seq<char>)
    requires
        !held.contains(session),
    ensures
        held.push(session).contains(session),
        held.push(session).remove(held.push(session).index_of(session)) == held,
{
    let after = held.push(session);
    assert(after[held.len() as int] == session);
    let i = after.index_of(session);
    assert(0 <= i < after.len() && after[i] == session);
    if i < held.len() {
        assert(held[i] == session);
        assert(held.contains(session));
    }
    assert(after.remove(i) =~= held);
}

/// Position of `s` in a list of strings, if it occurs.
pub fn position_in(v: &Vec<String>, s: &str) -> (r: Option<usize>)
    ensures
        match r {
            Some(k) => k < v@.len() && v.deep_view()[k as int] == s@,
            None => !v.deep_view().contains(s@),
        },
{
    let mut k: usize = 0;
    while k < v.len()
        invariant
            k <= v@.len(),
            forall|j: int| 0 <= j < k ==> v.deep_view()[j] != s@,
        decreases v@.len() - k,
    {
        if str_eq(v[k].as_str(), s) {
            return Some(k);
        }
        k = k + 1;
    }
    proof {
        if v.deep_view().contains(s@) {
            let j = choose|j: int| 0 <= j < v.deep_view().len() && v.deep_view()[j] == s@;
            assert(v.deep_view()[j] == s@);
        }
    }
    None
}

impl MockLicenseManager {
    /// The features with checkout entries.
    pub closed spec fn holder_keys(&self) -> Seq<Seq<char>> {
        self.checkouts@.map_values(|h: FeatureHolders| h.feature@)
    }

    /// The features with a configured seat count.
    pub closed spec fn seat_keys(&self) -> Seq<Seq<char>> {
        self.total_seats@.map_values(|s: SeatLimit| s.feature@)
    }

    /// The sessions holding feature `f`, in checkout order; each occurs once
    /// (see `get_token_pool`).
    pub closed spec fn sessions_of(&self, f: Seq<char>) -> Seq<Seq<char>> {
        let i = key_index(self.holder_keys(), f);
        if i >= 0 { self.checkouts@[i].sessions.deep_view() } else { Seq::empty() }
    }

    /// The configured seat counts.
    pub closed spec fn seat_counts(&self) -> Map<Seq<char>, i32> {
        Map::new(
            |k: Seq<char>| self.seat_keys().contains(k),
            |k: Seq<char>| self.total_seats@[self.seat_keys().index_of(k)].seats,
        )
    }

    /// Whether the manager is initialized.
    pub closed spec fn is_initialized(&self) -> bool {
        self.initialized
    }

    /// Whether the license is a star (unlimited) license.
    pub closed spec fn star(&self) -> bool {
        self.is_star
    }

    /// The server info string.
    pub closed spec fn server_info_view(&self) -> Seq<char> {
        self.server_info@
    }

    /// The seat limit of feature `f`: its configured count, else 10.
    pub open spec fn seat_limit(&self, f: Seq<char>) -> i32 {
        if self.seat_counts().contains_key(f) { self.seat_counts()[f] } else { DEFAULT_SEATS }
    }

    /// Whether feature `f` has no more holders than seats (none when its
    /// seat count is negative).
    pub open spec fn within_seats(&self, f: Seq<char>) -> bool {
        self.sessions_of(f).len() <= if self.seat_limit(f) < 0 { 0 } else { self.seat_limit(f) as int }
    }

    /// Everything but the checkouts is as in `other`.
    pub open spec fn same_settings(&self, other: &Self) -> bool {
        &&& self.is_initialized() == other.is_initialized()
        &&& self.star() == other.star()
        &&& self.seat_counts() == other.seat_counts()
        &&& self.server_info_view() == other.server_info_view()
    }

    #[verifier::type_invariant]
    spec fn well_formed(&self) -> bool {
        &&& self.holder_keys().no_duplicates()
        &&& self.seat_keys().no_duplicates()
        &&& forall|i: int| 0 <= i < self.checkouts@.len() ==> {
            &&& (#[trigger] self.checkouts@[i]).sessions.deep_view().no_duplicates()
            &&& self.checkouts@[i].sessions@.len() <= i32::MAX
        }
    }

    /// A fresh, uninitialized manager with no checkouts and no seat counts.
    pub fn new() -> (r: Self)
        ensures
            !r.is_initialized(),
            !r.star(),
            r.seat_counts() == Map::<Seq<char>, i32>::empty(),
            forall|f: Seq<char>| #[trigger] r.sessions_of(f) == Seq::<Seq<char>>::empty(),
            r.server_info_view() == "MockServer@localhost"@,
    {
        let r = MockLicenseManager {
            initialized: false,
            checkouts: Vec::new(),
            total_seats: Vec::new(),
            is_star: false,
            server_info: owned("MockServer@localhost"),
        };
        assert(r.seat_counts() =~= Map::<Seq<char>, i32>::empty());
        assert(r.holder_keys() =~= Seq::<Seq<char>>::empty());
        r
    }

    fn holder_position(&self, feature: &str) -> (r: Option<usize>)
        ensures
            match r {
                Some(i) => i < self.checkouts@.len() && key_index(self.holder_keys(), feature@) == i,
                None => key_index(self.holder_keys(), feature@) == -1,
            },
    {
        proof {
            use_type_invariant(self);
        }
        let mut i: usize = 0;
        while i < self.checkouts.len()
            invariant
                i <= self.checkouts@.len(),
                self.holder_keys().no_duplicates(),
                forall|j: int| 0 <= j < i ==> self.holder_keys()[j] != feature@,
            decreases self.checkouts@.len() - i,
        {
            if str_eq(self.checkouts[i].feature.as_str(), feature) {
                proof {
                    crate::mapping::lemma_index_of_unique(self.holder_keys(), i as int);
                }
                return Some(i);
            }
            i = i + 1;
        }
        proof {
            if self.holder_keys().contains(feature@) {
                let j = choose|j: int| 0 <= j < self.holder_keys().len() && self.holder_keys()[j] == feature@;
                assert(self.holder_keys()[j] == feature@);
            }
        }
        None
    }

    fn seat_position(&self, feature: &str) -> (r: Option<usize>)
        ensures
            match r {
                Some(i) => i < self.total_seats@.len() && self.seat_keys().index_of(feature@) == i
                    && self.seat_counts().contains_key(feature@)
                    && self.seat_counts()[feature@] == self.total_seats@[i as int].seats,
                None => !self.seat_counts().contains_key(feature@),
            },
    {
        proof {
            use_type_invariant(self);
        }
        let mut i: usize = 0;
        while i < self.total_seats.len()
            invariant
                i <= self.total_seats@.len(),
                self.seat_keys().no_duplicates(),
                forall|j: int| 0 <= j < i ==> self.seat_keys()[j] != feature@,
            decreases self.total_seats@.len() - i,
        {
            if str_eq(self.total_seats[i].feature.as_str(), feature) {
                proof {
                    crate::mapping::lemma_index_of_unique(self.seat_keys(), i as int);
                }
                return Some(i);
            }
            i = i + 1;
        }
        proof {
            if self.seat_keys().contains(feature@) {
                let j = choose|j: int| 0 <= j < self.seat_keys().len() && self.seat_keys()[j] == feature@;
                assert(self.seat_keys()[j] == feature@);
            }
        }
        None
    }

    /// The seat limit of a feature.
    fn max_seats(&self, feature: &str) -> (r: i32)
        ensures
            r == self.seat_limit(feature@),
    {
        match self.seat_position(feature) {
            Some(i) => self.total_seats[i].seats,
            None => DEFAULT_SEATS,
        }
    }

    /// Sets the total seats of a feature.
    pub fn set_total_seats(&mut self, feature: &str, seats: i32)
        ensures
            final(self).seat_counts() == old(self).seat_counts().insert(feature@, seats),
            final(self).is_initialized() == old(self).is_initialized(),
            final(self).star() == old(self).star(),
            final(self).server_info_view() == old(self).server_info_view(),
            forall|f: Seq<char>| #[trigger] final(self).sessions_of(f) == old(self).sessions_of(f),
    {
        proof {
            use_type_invariant(&*self);
        }
        let ghost old_counts = self.seat_counts();
        let ghost old_keys = self.seat_keys();
        let pos = self.seat_position(feature);
        let mut seats_v: Vec<SeatLimit> = Vec::new();
        std::mem::swap(&mut seats_v, &mut self.total_seats);
        let ghost old_v = seats_v@;
        assert(old_v.map_values(|s: SeatLimit| s.feature@) == old_keys);
        match pos {
            Some(i) => {
                seats_v.set(i, SeatLimit { feature: owned(feature), seats });
                assert(seats_v@.map_values(|s: SeatLimit| s.feature@) =~= old_keys);
                self.total_seats = seats_v;
                proof {
                    assert forall|k: Seq<char>| #[trigger] self.seat_counts().contains_key(k) implies
                        self.seat_counts()[k] == old_counts.insert(feature@, seats)[k] by {
                        let j = self.seat_keys().index_of(k);
                        if k != feature@ {
                            assert(j != i);
                        }
                    }
                    assert(self.seat_counts() =~= old_counts.insert(feature@, seats));
                }
            },
            None => {
                seats_v.push(SeatLimit { feature: owned(feature), seats });
                let ghost new_keys = seats_v@.map_values(|s: SeatLimit| s.feature@);
                assert(new_keys =~= old_keys.push(feature@));
                proof {
                    assert forall|a: int, b: int| 0 <= a < new_keys.len() && 0 <= b < new_keys.len() && a != b
                        implies new_keys[a] != new_keys[b] by {
                        if a == old_keys.len() {
                            assert(old_keys.contains(new_keys[b]) || b == a);
                        } else if b == old_keys.len() {
                            assert(old_keys.contains(new_keys[a]));
                        }
                    }
                }
                self.total_seats = seats_v;
                proof {
                    let n = old_keys.len() as int;
                    crate::mapping::lemma_index_of_unique(new_keys, n);
                    assert forall|k: Seq<char>| #[trigger] self.seat_counts().contains_key(k) implies
                        self.seat_counts()[k] == old_counts.insert(feature@, seats)[k] by {
                        if k != feature@ {
                            let j = new_keys.index_of(k);
                            assert(j != n);
                            assert(old_keys[j] == k);
                            crate::mapping::lemma_index_of_unique(old_keys, j);
                            crate::mapping::lemma_index_of_unique(new_keys, j);
                        }
                    }
                    assert forall|k: Seq<char>| old_counts.insert(feature@, seats).contains_key(k) implies
                        #[trigger] self.seat_counts().contains_key(k) by {
                        if k != feature@ {
                            let j = old_keys.index_of(k);
                            assert(new_keys[j] == k);
                        }
                    }
                    assert(self.seat_counts() =~= old_counts.insert(feature@, seats));
                }
            },
        }
    }

    /// Sets whether this is a star (unlimited) license.
    pub fn set_star_license(&mut self, is_star: bool)
        ensures
            final(self).star() == is_star,
            final(self).is_initialized() == old(self).is_initialized(),
            final(self).seat_counts() == old(self).seat_counts(),
            final(self).server_info_view() == old(self).server_info_view(),
            forall|f: Seq<char>| #[trigger] final(self).sessions_of(f) == old(self).sessions_of(f),
    {
        proof {
            use_type_invariant(&*self);
        }
        self.is_star = is_star;
    }

    /// Initializes the manager; the override path is not used. Returns 0.
    pub fn initialize(&mut self, override_path: Option<&str>) -> (r: i32)
        ensures
            r == 0,
            final(self).is_initialized(),
            final(self).star() == old(self).star(),
            final(self).seat_counts() == old(self).seat_counts(),
            final(self).server_info_view() == old(self).server_info_view(),
            forall|f: Seq<char>| #[trigger] final(self).sessions_of(f) == old(self).sessions_of(f),
    {
        proof {
            use_type_invariant(&*self);
        }
        self.initialized = true;
        0
    }

    /// Checks out `feature` for `session_id`: fails when uninitialized;
    /// succeeds without change when the session already holds it; fails when
    /// every seat is taken (unless the license is a star license); otherwise
    /// adds the session to the holders.
    pub fn checkout(&mut self, feature: &str, session_id: &str) -> (r: i32)
        requires
            old(self).sessions_of(feature@).len() < i32::MAX,
        ensures
            final(self).same_settings(&*old(self)),
            forall|f: Seq<char>| f != feature@ ==> #[trigger] final(self).sessions_of(f) == old(self).sessions_of(f),
            !old(self).is_initialized() ==> r == -1 && final(self).sessions_of(feature@) == old(self).sessions_of(feature@),
            old(self).is_initialized() && old(self).sessions_of(feature@).contains(session_id@) ==> r == 0
                && final(self).sessions_of(feature@) == old(self).sessions_of(feature@),
            old(self).is_initialized() && !old(self).sessions_of(feature@).contains(session_id@)
                && !old(self).star() && old(self).sessions_of(feature@).len() >= old(self).seat_limit(feature@)
                ==> r == -1 && final(self).sessions_of(feature@) == old(self).sessions_of(feature@),
            old(self).is_initialized() && !old(self).sessions_of(feature@).contains(session_id@)
                && (old(self).star() || old(self).sessions_of(feature@).len() < old(self).seat_limit(feature@))
                ==> r == 0 && final(self).sessions_of(feature@) == old(self).sessions_of(feature@).push(session_id@),
            r == 0 && !old(self).star() && !old(self).sessions_of(feature@).contains(session_id@)
                ==> final(self).sessions_of(feature@).len() <= old(self).seat_limit(feature@),
            !old(self).star() && old(self).within_seats(feature@) ==> final(self).within_seats(feature@),
    {
        proof {
            use_type_invariant(&*self);
        }
        if !self.initialized {
            return -1;
        }
        let max_seats = self.max_seats(feature);
        let pos = self.holder_position(feature);
        let ghost old_keys = self.holder_keys();
        let ghost old_self = *self;
        match pos {
            Some(i) => {
                let n: usize = self.checkouts[i].sessions.len();
                if crate::converter::contains_str(&self.checkouts[i].sessions, session_id) {
                    return 0;
                }
                if !self.is_star && n as i64 >= max_seats as i64 {
                    return -1;
                }
                let mut entries: Vec<FeatureHolders> = Vec::new();
                std::mem::swap(&mut entries, &mut self.checkouts);
                let ghost old_entries = entries@;
                let mut entry = entries.remove(i);
                let ghost old_sessions = entry.sessions.deep_view();
                entry.sessions.push(owned(session_id));
                assert(entry.sessions.deep_view() =~= old_sessions.push(session_id@));
                entries.insert(i, entry);
                assert(entries@.map_values(|h: FeatureHolders| h.feature@) =~= old_keys);
                self.checkouts = entries;
                proof {
                    assert forall|f: Seq<char>| f != feature@ implies #[trigger] self.sessions_of(f)
                        == old_self.sessions_of(f) by {
                        let j = key_index(old_keys, f);
                        if j >= 0 {
                            assert(j != i);
                            assert(self.checkouts@[j] == old_entries[j]);
                        }
                    }
                    assert forall|k: int| 0 <= k < self.checkouts@.len() implies {
                        &&& (#[trigger] self.checkouts@[k]).sessions.deep_view().no_duplicates()
                        &&& self.checkouts@[k].sessions@.len() <= i32::MAX
                    } by {
                        if k != i {
                            assert(self.checkouts@[k] == old_entries[k]);
                        }
                    }
                }
                0
            },
            None => {
                if !self.is_star && 0 >= max_seats {
                    return -1;
                }
                let mut sessions: Vec<String> = Vec::new();
                sessions.push(owned(session_id));
                assert(sessions.deep_view() =~= seq![session_id@]);
                let mut entries: Vec<FeatureHolders> = Vec::new();
                std::mem::swap(&mut entries, &mut self.checkouts);
                let ghost old_entries = entries@;
                entries.push(FeatureHolders { feature: owned(feature), sessions });
                let ghost new_keys = entries@.map_values(|h: FeatureHolders| h.feature@);
                assert(new_keys =~= old_keys.push(feature@));
                proof {
                    assert forall|a: int, b: int| 0 <= a < new_keys.len() && 0 <= b < new_keys.len() && a != b
                        implies new_keys[a] != new_keys[b] by {
                        if a == old_keys.len() {
                            assert(old_keys.contains(new_keys[b]) || b == a);
                        } else if b == old_keys.len() {
                            assert(old_keys.contains(new_keys[a]));
                        }
                    }
                }
                self.checkouts = entries;
                proof {
                    let n = old_keys.len() as int;
                    crate::mapping::lemma_index_of_unique(new_keys, n);
                    assert(self.sessions_of(feature@) == seq![session_id@]);
                    assert(old_self.sessions_of(feature@) =~= Seq::<Seq<char>>::empty());
                    assert(seq![session_id@] =~= Seq::<Seq<char>>::empty().push(session_id@));
                    assert forall|f: Seq<char>| f != feature@ implies #[trigger] self.sessions_of(f)
                        == old_self.sessions_of(f) by {
                        if old_keys.contains(f) {
                            let j = old_keys.index_of(f);
                            assert(new_keys[j] == f);
                            crate::mapping::lemma_index_of_unique(old_keys, j);
                            crate::mapping::lemma_index_of_unique(new_keys, j);
                        } else {
                            assert(!new_keys.contains(f));
                        }
                    }
                    assert forall|k: int| 0 <= k < self.checkouts@.len() implies {
                        &&& (#[trigger] self.checkouts@[k]).sessions.deep_view().no_duplicates()
                        &&& self.checkouts@[k].sessions@.len() <= i32::MAX
                    } by {
                        if k < n {
                            assert(self.checkouts@[k] == old_entries[k]);
                        }
                    }
                }
                0
            },
        }
    }

    /// Checks in `feature` for `session_id`: 0 when the session held it (it
    /// no longer does), -1 otherwise.
    pub fn checkin(&mut self, feature: &str, session_id: &str) -> (r: i32)
        ensures
            final(self).same_settings(&*old(self)),
            forall|f: Seq<char>| f != feature@ ==> #[trigger] final(self).sessions_of(f) == old(self).sessions_of(f),
            old(self).sessions_of(feature@).contains(session_id@) ==> r == 0
                && final(self).sessions_of(feature@) == old(self).sessions_of(feature@).remove(
                    old(self).sessions_of(feature@).index_of(session_id@),
                ),
            !old(self).sessions_of(feature@).contains(session_id@) ==> r == -1
                && final(self).sessions_of(feature@) == old(self).sessions_of(feature@),
            old(self).within_seats(feature@) ==> final(self).within_seats(feature@),
    {
        proof {
            use_type_invariant(&*self);
        }
        let pos = self.holder_position(feature);
        let ghost old_keys = self.holder_keys();
        let ghost old_self = *self;
        match pos {
            Some(i) => {
                let ghost sess = self.checkouts@[i as int].sessions.deep_view();
                let k: usize = match position_in(&self.checkouts[i].sessions, session_id) {
                    Some(k) => k,
                    None => return -1,
                };
                proof {
                    crate::mapping::lemma_index_of_unique(sess, k as int);
                }
                let mut entries: Vec<FeatureHolders> = Vec::new();
                std::mem::swap(&mut entries, &mut self.checkouts);
                let ghost old_entries = entries@;
                let mut entry = entries.remove(i);
                entry.sessions.remove(k);
                assert(entry.sessions.deep_view() =~= sess.remove(k as int));
                entries.insert(i, entry);
                assert(entries@.map_values(|h: FeatureHolders| h.feature@) =~= old_keys);
                self.checkouts = entries;
                proof {
                    assert forall|f: Seq<char>| f != feature@ implies #[trigger] self.sessions_of(f)
                        == old_self.sessions_of(f) by {
                        let j = key_index(old_keys, f);
                        if j >= 0 {
                            assert(j != i);
                            assert(self.checkouts@[j] == old_entries[j]);
                        }
                    }
                    assert forall|a: int, b: int| 0 <= a < b < sess.remove(k as int).len() implies
                        sess.remove(k as int)[a] != sess.remove(k as int)[b] by {
                        let a2 = if a < k { a } else { a + 1 };
                        let b2 = if b < k { b } else { b + 1 };
                        assert(sess[a2] != sess[b2]);
                    }
                    assert forall|q: int| 0 <= q < self.checkouts@.len() implies {
                        &&& (#[trigger] self.checkouts@[q]).sessions.deep_view().no_duplicates()
                        &&& self.checkouts@[q].sessions@.len() <= i32::MAX
                    } by {
                        if q != i {
                            assert(self.checkouts@[q] == old_entries[q]);
                        }
                    }
                }
                0
            },
            None => -1,
        }
    }

    /// Pool info for a feature as `(result, total, used)`: `(-1, 0, 0)`
    /// when uninitialized, else `(0, seat limit, holders)`.
    pub fn get_token_pool(&self, feature: &str) -> (r: (i32, i32, i32))
        ensures
            !self.is_initialized() ==> r == (-1i32, 0i32, 0i32),
            self.is_initialized() ==> r.0 == 0 && r.1 == self.seat_limit(feature@)
                && r.2 == self.sessions_of(feature@).len(),
            self.sessions_of(feature@).no_duplicates(),
            self.is_initialized() ==> r.2 == self.sessions_of(feature@).to_set().len(),
    {
        proof {
            use_type_invariant(self);
            let i = key_index(self.holder_keys(), feature@);
            if i >= 0 {
                assert(self.holder_keys().contains(feature@));
                assert(0 <= i < self.checkouts@.len());
                assert(self.checkouts@[i].sessions.deep_view().no_duplicates());
            }
            self.sessions_of(feature@).unique_seq_to_set();
        }
        if !self.initialized {
            return (-1, 0, 0);
        }
        let max_seats = self.max_seats(feature);
        let used: i32 = match self.holder_position(feature) {
            Some(i) => {
                assert(self.checkouts@[i as int].sessions@.len() <= i32::MAX);
                self.checkouts[i].sessions.len() as i32
            },
            None => 0,
        };
        (0, max_seats, used)
    }

    /// Whether this is a star license.
    pub fn is_star_license(&self) -> (r: bool)
        ensures
            r == self.star(),
    {
        self.is_star
    }

    /// The server info string.
    pub fn get_server_info(&self) -> (r: String)
        ensures
            r@ == self.server_info_view(),
    {
        self.server_info.clone()
    }

    /// Releases every checkout.
    pub fn release_all(&mut self)
        ensures
            final(self).same_settings(&*old(self)),
            forall|f: Seq<char>| #[trigger] final(self).sessions_of(f) == Seq::<Seq<char>>::empty(),
    {
        proof {
            use_type_invariant(&*self);
        }
        self.checkouts = Vec::new();
        assert(self.holder_keys() =~= Seq::<Seq<char>>::empty());
    }

    /// Releases every checkout and leaves the manager uninitialized.
    pub fn destroy(&mut self)
        ensures
            !final(self).is_initialized(),
            final(self).star() == old(self).star(),
            final(self).seat_counts() == old(self).seat_counts(),
            final(self).server_info_view() == old(self).server_info_view(),
            forall|f: Seq<char>| #[trigger] final(self).sessions_of(f) == Seq::<Seq<char>>::empty(),
    {
        proof {
            use_type_invariant(&*self);
        }
        self.checkouts = Vec::new();
        self.initialized = false;
        assert(self.holder_keys() =~= Seq::<Seq<char>>::empty());
    }
}

impl Default for MockLicenseManager {
    fn default() -> (r: Self)
        ensures
            !r.is_initialized(),
            !r.star(),
            r.seat_counts() == Map::<Seq<char>, i32>::empty(),
            forall|f: Seq<char>| #[trigger] r.sessions_of(f) == Seq::<Seq<char>>::empty(),
            r.server_info_view() == "MockServer@localhost"@,
    {
        Self::new()
    }
}

} // verus!
