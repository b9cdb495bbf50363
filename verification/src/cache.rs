//! A generic staleness cache with a compile-time expiry window.

use vstd::prelude::*;

use crate::decimal::decimal_string;
use crate::decimal::spec_decimal;

verus! {

/// The diagnostic text attached to a time-related staleness error: it names
/// the last refresh timestamp, the expiry window, and the queried timestamp.
pub open spec fn time_msg_view(last_updated: u64, ttl: u64, current_slot: u64) -> Seq<char> {
    "last_updated = "@ + spec_decimal(last_updated as nat) + ", time_to_live = "@ + spec_decimal(
        ttl as nat,
    ) + ", current_slot = "@ + spec_decimal(current_slot as nat)
}

/// A cached value of type `T` together with the logical timestamp at which it
/// was last refreshed and a manual invalidation flag. `TTL` is the number of
/// timestamp units the value stays valid after a refresh.
///
/// Timestamps are supplied by the caller on every operation; the cache never
/// reads an ambient clock and never checks that successive refreshes are
/// non-decreasing.
#[derive(Clone, Copy)]
pub struct Cache<T, const TTL: u64> {
    /// The value being cached.
    value: T,
    /// The timestamp at which the value was last refreshed.
    last_updated: u64,
    /// Whether the value has been manually invalidated (nonzero means yes).
    invalidated: u8,
    /// Reserved padding, always zero, so that the byte size of the struct does
    /// not depend on how `T` is laid out next to the bookkeeping fields.
    _reserved: [u8; 7],
}

impl<T, const TTL: u64> Cache<T, TTL> {
    /// The cached value.
    pub closed spec fn spec_value(self) -> T {
        self.value
    }

    /// The stored last-refresh timestamp.
    pub closed spec fn spec_last_updated(self) -> u64 {
        self.last_updated
    }

    /// Whether the cache has been manually invalidated.
    pub closed spec fn spec_invalidated(self) -> bool {
        self.invalidated != 0
    }

    /// Well-formedness: the reserved padding bytes are all zero.
    pub closed spec fn wf(self) -> bool {
        forall|i: int| 0 <= i < 7 ==> self._reserved[i] == 0
    }

    /// A cache is fresh at timestamp `t` iff `t` does not precede the last
    /// refresh, the age `t - last_updated` is within `TTL`, and the cache has
    /// not been manually invalidated.
    pub open spec fn is_fresh(self, t: u64) -> bool {
        self.spec_last_updated() <= t && t - self.spec_last_updated() <= TTL
            && !self.spec_invalidated()
    }

    /// Exactly which error `validate_fresh` reports for a timestamp at which
    /// this cache is not fresh. The checks are made in a fixed order so that
    /// the reported reason is deterministic: a queried time before the last
    /// refresh is `TooNew`, then an age beyond `TTL` is `Expired`, and only
    /// then does the manual invalidation flag report `Invalidated`.
    pub open spec fn is_stale_reason(self, t: u64, e: CacheInvalidError) -> bool {
        if t < self.spec_last_updated() {
            &&& e matches CacheInvalidError::TooNew { msg }
            &&& msg@ == time_msg_view(self.spec_last_updated(), TTL, t)
        } else if t - self.spec_last_updated() > TTL {
            &&& e matches CacheInvalidError::Expired { msg }
            &&& msg@ == time_msg_view(self.spec_last_updated(), TTL, t)
        } else {
            &&& e is Invalidated
            &&& self.spec_invalidated()
        }
    }

    /// Succeeds iff the cache is fresh at `current_slot`; otherwise reports
    /// the first applicable staleness reason, in the fixed order `TooNew`,
    /// `Expired`, `Invalidated`.
    pub fn validate_fresh(&self, current_slot: u64) -> (r: Result<(), CacheInvalidError>)
        ensures
            r is Ok <==> self.is_fresh(current_slot),
            r matches Err(e) ==> self.is_stale_reason(current_slot, e),
    {
        if current_slot < self.last_updated {
            return Err(CacheInvalidError::TooNew { msg: self.time_msg(current_slot) });
        }
        if current_slot - self.last_updated > TTL {
            return Err(CacheInvalidError::Expired { msg: self.time_msg(current_slot) });
        }
        if self.invalidated != 0 {
            return Err(CacheInvalidError::Invalidated);
        }
        Ok(())
    }

    /// Renders the timing context of a staleness error.
    fn time_msg(&self, current_slot: u64) -> (r: String)
        ensures
            r@ == time_msg_view(self.spec_last_updated(), TTL, current_slot),
    {
        let mut s = String::from_str("last_updated = ");
        let lu = decimal_string(self.last_updated);
        s.append(lu.as_str());
        s.append(", time_to_live = ");
        let ttl = decimal_string(TTL);
        s.append(ttl.as_str());
        s.append(", current_slot = ");
        let cs = decimal_string(current_slot);
        s.append(cs.as_str());
        proof {
            assert(s@ =~= time_msg_view(self.spec_last_updated(), TTL, current_slot));
        }
        s
    }

    /// Creates a cache holding `value`, freshly refreshed as of
    /// `current_slot` and not invalidated. There is no error path, and no
    /// "uninitialized" state: every cache starts from an explicit value and
    /// timestamp.
    pub fn new(value: T, current_slot: u64) -> (r: Self)
        ensures
            r.spec_value() == value,
            r.spec_last_updated() == current_slot,
            !r.spec_invalidated(),
            r.wf(),
    {
        Self { value, invalidated: 0, last_updated: current_slot, _reserved: [0; 7] }
    }

    /// The state after replacing the value and marking the cache valid as of
    /// `t`: what `refresh_as` leaves behind.
    pub closed spec fn refreshed_as(self, value: T, t: u64) -> Self {
        Cache { value, last_updated: t, invalidated: 0, _reserved: self._reserved }
    }

    /// The state after marking the cache valid as of `t` without touching the
    /// value: what `refresh`, `refresh_to` and `refresh_additional` leave
    /// behind.
    pub closed spec fn refreshed(self, t: u64) -> Self {
        Cache { value: self.value, last_updated: t, invalidated: 0, _reserved: self._reserved }
    }

    /// The state after marking the cache manually invalid: what `invalidate`
    /// leaves behind.
    pub closed spec fn invalidated_state(self) -> Self {
        Cache {
            value: self.value,
            last_updated: self.last_updated,
            invalidated: 1,
            _reserved: self._reserved,
        }
    }

    /// The state after replacing only the value, as mutation through
    /// `try_get_mut` or `get_stale_mut` does: the freshness bookkeeping is
    /// intentionally left unchanged.
    pub closed spec fn with_value(self, value: T) -> Self {
        Cache {
            value,
            last_updated: self.last_updated,
            invalidated: self.invalidated,
            _reserved: self._reserved,
        }
    }

    /// If the cache is fresh at `current_slot`, returns the value; otherwise
    /// returns the error saying why it is stale.
    pub fn try_get(&self, current_slot: u64) -> (r: Result<&T, CacheInvalidError>)
        ensures
            self.is_fresh(current_slot) ==> (r matches Ok(v) && *v == self.spec_value()),
            !self.is_fresh(current_slot) ==> (r matches Err(e) && self.is_stale_reason(
                current_slot,
                e,
            )),
    {
        self.validate_fresh(current_slot)?;
        Ok(&self.value)
    }

    /// If the cache is fresh at `current_slot`, returns the value mutably;
    /// otherwise returns the error saying why it is stale. Mutating through
    /// the returned reference does not refresh the timestamp: a partial
    /// in-place edit is not a full recomputation and must not reset the
    /// expiry clock.
    pub fn try_get_mut(&mut self, current_slot: u64) -> (r: Result<&mut T, CacheInvalidError>)
        ensures
            old(self).is_fresh(current_slot) ==> {
                &&& r is Ok
                &&& *r->Ok_0 == old(self).spec_value()
                &&& *final(self) == old(self).with_value(*final(r->Ok_0))
            },
            !old(self).is_fresh(current_slot) ==> {
                &&& r matches Err(e) && old(self).is_stale_reason(current_slot, e)
                &&& *final(self) == *old(self)
            },
            final(self).spec_last_updated() == old(self).spec_last_updated(),
            final(self).spec_invalidated() == old(self).spec_invalidated(),
            old(self).wf() ==> final(self).wf(),
    {
        self.validate_fresh(current_slot)?;
        Ok(&mut self.value)
    }

    /// Returns the value with the freshness check already guaranteed by the
    /// caller; `description` names the value for diagnostics at call sites
    /// that treat staleness as an invariant violation.
    pub fn expect(&self, current_slot: u64, description: &str) -> (r: &T)
        requires
            self.is_fresh(current_slot),
        ensures
            *r == self.spec_value(),
    {
        self.try_get(current_slot).expect(description)
    }

    /// Returns the value mutably with the freshness check already guaranteed
    /// by the caller; `description` names the value for diagnostics at call
    /// sites that treat staleness as an invariant violation.
    pub fn expect_mut(&mut self, current_slot: u64, description: &str) -> (r: &mut T)
        requires
            old(self).is_fresh(current_slot),
        ensures
            *r == old(self).spec_value(),
            *final(self) == old(self).with_value(*final(r)),
            final(self).spec_last_updated() == old(self).spec_last_updated(),
            final(self).spec_invalidated() == old(self).spec_invalidated(),
            old(self).wf() ==> final(self).wf(),
    {
        self.try_get_mut(current_slot).expect(description)
    }

    /// Returns the current value, regardless of whether or not it is stale.
    pub fn get_stale(&self) -> (r: &T)
        ensures
            *r == self.spec_value(),
    {
        &self.value
    }

    /// Returns the current value mutably, regardless of whether or not it is
    /// stale. As with `try_get_mut`, mutating through the returned reference
    /// leaves the freshness bookkeeping unchanged.
    pub fn get_stale_mut(&mut self) -> (r: &mut T)
        ensures
            *r == old(self).spec_value(),
            *final(self) == old(self).with_value(*final(r)),
            final(self).spec_last_updated() == old(self).spec_last_updated(),
            final(self).spec_invalidated() == old(self).spec_invalidated(),
            old(self).wf() ==> final(self).wf(),
    {
        &mut self.value
    }

    /// Replaces the value and marks the cache valid as of `current_slot`.
    /// This is the only operation that changes the stored value and the
    /// freshness bookkeeping together.
    pub fn refresh_as(&mut self, value: T, current_slot: u64)
        ensures
            *final(self) == old(self).refreshed_as(value, current_slot),
            final(self).spec_value() == value,
            final(self).spec_last_updated() == current_slot,
            !final(self).spec_invalidated(),
            old(self).wf() ==> final(self).wf(),
    {
        self.value = value;
        self.invalidated = 0;
        self.last_updated = current_slot;
    }

    /// Marks the cache as manually invalid, without touching the value or the
    /// timestamp. Only a subsequent refresh operation clears the mark.
    pub fn invalidate(&mut self)
        ensures
            *final(self) == old(self).invalidated_state(),
            final(self).spec_invalidated(),
            final(self).spec_value() == old(self).spec_value(),
            final(self).spec_last_updated() == old(self).spec_last_updated(),
            old(self).wf() ==> final(self).wf(),
    {
        self.invalidated = 1;
    }

    /// Marks the cache valid as of `current_slot` without touching the value.
    /// Identical in behavior to `refresh_to`; both names are kept for
    /// compatibility with existing call sites.
    pub fn refresh(&mut self, current_slot: u64)
        ensures
            *final(self) == old(self).refreshed(current_slot),
            final(self).spec_value() == old(self).spec_value(),
            final(self).spec_last_updated() == current_slot,
            !final(self).spec_invalidated(),
            old(self).wf() ==> final(self).wf(),
    {
        self.refresh_to(current_slot);
    }

    /// Marks the cache valid and advances the last-refresh timestamp by
    /// `additional_slots`, for callers that know the value stays correct a
    /// known increment later without knowing the absolute current timestamp.
    /// The resulting state is exactly that of
    /// `refresh_to(last_updated() + additional_slots)`.
    pub fn refresh_additional(&mut self, additional_slots: u64)
        requires
            old(self).spec_last_updated() + additional_slots <= u64::MAX,
        ensures
            *final(self) == old(self).refreshed(
                (old(self).spec_last_updated() + additional_slots) as u64,
            ),
            final(self).spec_value() == old(self).spec_value(),
            final(self).spec_last_updated() == old(self).spec_last_updated() + additional_slots,
            !final(self).spec_invalidated(),
            old(self).wf() ==> final(self).wf(),
    {
        self.invalidated = 0;
        self.last_updated = self.last_updated + additional_slots;
    }

    /// Marks the cache valid as of `current_slot` without touching the value,
    /// for callers that have already recomputed the value in place through
    /// `try_get_mut` or `get_stale_mut`.
    pub fn refresh_to(&mut self, current_slot: u64)
        ensures
            *final(self) == old(self).refreshed(current_slot),
            final(self).spec_value() == old(self).spec_value(),
            final(self).spec_last_updated() == current_slot,
            !final(self).spec_invalidated(),
            old(self).wf() ==> final(self).wf(),
    {
        self.invalidated = 0;
        self.last_updated = current_slot;
    }

    /// Returns the timestamp of the last refresh, regardless of validity.
    pub fn last_updated(&self) -> (r: u64)
        ensures
            r == self.spec_last_updated(),
    {
        self.last_updated
    }

    /// A cache in the state `new(value, t0)` leaves behind — last refreshed
    /// at `t0` and not invalidated — is fresh at exactly the timestamps `t`
    /// with `t0 <= t <= t0 + TTL`; at every later `t` it is stale, and the
    /// reason reported for it is `Expired`.
    pub proof fn lemma_fresh_exactly_within_window(c: Self, t: u64)
        requires
            !c.spec_invalidated(),
        ensures
            c.is_fresh(t) <==> c.spec_last_updated() <= t <= c.spec_last_updated() + TTL,
            t > c.spec_last_updated() + TTL ==> forall|e: CacheInvalidError|
                c.is_stale_reason(t, e) ==> e is Expired,
    {
    }

    /// Querying a cache at a timestamp strictly before its last refresh
    /// always fails, and the reason reported for it is `TooNew`.
    pub proof fn lemma_earlier_query_is_too_new(c: Self, t: u64)
        requires
            t < c.spec_last_updated(),
        ensures
            !c.is_fresh(t),
            forall|e: CacheInvalidError| c.is_stale_reason(t, e) ==> e is TooNew,
    {
    }

    /// A manually invalidated cache is stale at every timestamp in its
    /// otherwise-valid window, and the reason reported there is
    /// `Invalidated`. (Outside that window the age checks win: the reason is
    /// then `TooNew` or `Expired`, as for any cache.)
    pub proof fn lemma_invalidated_within_window(c: Self, t: u64)
        requires
            c.spec_invalidated(),
            c.spec_last_updated() <= t <= c.spec_last_updated() + TTL,
        ensures
            !c.is_fresh(t),
            forall|e: CacheInvalidError| c.is_stale_reason(t, e) ==> e == CacheInvalidError::Invalidated,
    {
    }

    /// Every refresh operation clears a manual invalidation: after
    /// `refresh_to(t)` or `refresh_as(v, t)` the cache is no longer
    /// invalidated, and it is fresh at the very timestamp it was refreshed
    /// to.
    pub proof fn lemma_refresh_clears_invalidation(c: Self, v: T, t: u64)
        ensures
            !c.refreshed(t).spec_invalidated(),
            c.refreshed(t).is_fresh(t),
            !c.refreshed_as(v, t).spec_invalidated(),
            c.refreshed_as(v, t).is_fresh(t),
    {
    }

    /// The stored value follows exactly the value-writing operations: a
    /// `refresh_as` stores its argument, while `refresh`/`refresh_to`,
    /// `refresh_additional` and `invalidate` leave the value alone. Together
    /// with the contract of `get_stale`/`get_stale_mut` — which never fail —
    /// a stale read always returns the most recently stored value.
    pub proof fn lemma_value_tracks_refresh_as(c: Self, v: T, t: u64)
        ensures
            c.refreshed_as(v, t).spec_value() == v,
            c.refreshed(t).spec_value() == c.spec_value(),
            c.invalidated_state().spec_value() == c.spec_value(),
    {
    }

    /// Round trip: immediately after `refresh_as(v, t)` the cache is fresh at
    /// `t` and holds `v`, so `try_get(t)` returns `Ok` with exactly `v`.
    pub proof fn lemma_refresh_as_round_trip(c: Self, v: T, t: u64)
        ensures
            c.refreshed_as(v, t).is_fresh(t),
            c.refreshed_as(v, t).spec_value() == v,
    {
    }

    /// Idempotence: refreshing to the same timestamp twice leaves the cache
    /// in the state one refresh produces; the same holds for `refresh_as`
    /// with the same value and timestamp.
    pub proof fn lemma_refresh_idempotent(c: Self, v: T, t: u64)
        ensures
            c.refreshed(t).refreshed(t) == c.refreshed(t),
            c.refreshed_as(v, t).refreshed_as(v, t) == c.refreshed_as(v, t),
    {
    }
}

/// The reasons a cached value can be unusable at a queried timestamp.
/// All three mean "not usable right now", never corruption: the caller decides
/// whether to recompute, fall back to a stale read, or give up.
#[derive(Debug)]
pub enum CacheInvalidError {
    /// The cache is too old to use for the queried timestamp.
    Expired { msg: String },
    /// The queried timestamp precedes the last refresh: the caller asked about
    /// a point in time from before the cache was last brought up to date.
    TooNew { msg: String },
    /// The cache has been manually invalidated and may no longer be used.
    Invalidated,
}

} // verus!
