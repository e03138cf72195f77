use vstd::prelude::*;

verus! {

/// A single-slot channel: it holds the latest value and a count of the
/// values published so far. Subscribers keep their own cursor, see the
/// value current when they subscribe, and afterwards only newer values,
/// skipping those they were too slow to fetch.
pub struct Broadcaster<T> {
    value: T,
    version: u64,
}

/// A subscriber's cursor: the version it last fetched, if any.
pub struct Subscription {
    seen: Option<u64>,
}

impl<T> Broadcaster<T> {
    pub closed spec fn current(&self) -> T {
        self.value
    }

    /// How many values were published after the first one.
    pub closed spec fn version(&self) -> nat {
        self.version as nat
    }

    /// A channel that holds `initial`.
    pub fn new(initial: T) -> (r: Broadcaster<T>)
        ensures
            r.current() == initial,
            r.version() == 0,
    {
        Broadcaster { value: initial, version: 0 }
    }

    /// Replaces the value; every subscriber has news afterwards.
    pub fn publish(&mut self, v: T)
        requires
            old(self).version() < u64::MAX,
        ensures
            final(self).current() == v,
            final(self).version() == old(self).version() + 1,
    {
        self.value = v;
        self.version = self.version + 1;
    }

    /// Whether one more value can be published.
    pub fn can_publish(&self) -> (r: bool)
        ensures
            r == (self.version() < u64::MAX),
    {
        self.version < u64::MAX
    }

    /// A cursor that has fetched nothing yet.
    pub fn subscribe(&self) -> (r: Subscription)
        ensures
            r.seen_version() is None,
    {
        Subscription { seen: None }
    }

    /// Whether `sub` has not fetched the value now held.
    pub fn has_update(&self, sub: &Subscription) -> (r: bool)
        ensures
            r == sub.pending(self.version()),
    {
        match sub.seen {
            Some(k) => k != self.version,
            None => true,
        }
    }

    /// The value now held, if `sub` has not fetched it yet; `sub` then
    /// counts it as fetched.
    pub fn poll<'a>(&'a self, sub: &mut Subscription) -> (r: Option<&'a T>)
        ensures
            (r is Some) == old(sub).pending(self.version()),
            r matches Some(v) ==> *v == self.current(),
            final(sub).seen_version() == Some(self.version()),
    {
        let fresh = self.has_update(sub);
        sub.seen = Some(self.version);
        if fresh {
            Some(&self.value)
        } else {
            None
        }
    }
}

impl Subscription {
    pub closed spec fn seen_version(&self) -> Option<nat> {
        match self.seen {
            Some(k) => Some(k as nat),
            None => None,
        }
    }

    /// Whether a channel at `version` holds a value this cursor has not
    /// fetched.
    pub open spec fn pending(&self, version: nat) -> bool {
        self.seen_version() != Some(version)
    }
}

} // verus!
