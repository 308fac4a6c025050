//! Last-known-value store for the independently updating status domains.
//!
//! Each domain occupies one slot that is replaced wholesale on every write
//! (last write wins); there is no cross-slot atomicity, so a snapshot may mix
//! values observed at different times.

use vstd::prelude::*;

verus! {

/// Lifecycle of the external network engine.
#[derive(Debug, Clone, PartialEq, Eq)]
pub enum EngineStatus {
    Idle,
    Starting,
    Started,
    Error(String),
}

/// Lifecycle of the external proxy process.
#[derive(Debug, Clone, PartialEq, Eq)]
pub enum ProxyStatus {
    Idle,
    Starting,
    Started,
    Stopping,
    Error(String),
}

/// Result of the most recent connectivity probe.
#[derive(Debug, Clone, PartialEq, Eq)]
pub enum ConnectivityStatus {
    Okay,
    Lost,
}

/// Progress of a subscription refresh.
#[derive(Debug, Clone, PartialEq, Eq)]
pub enum SubscriptionStatus {
    Idle,
    Updating,
    Succeeded,
    Failed(String),
}

/// The four independently written status domains.
#[derive(Debug, Clone, Copy, PartialEq, Eq, Structural)]
pub enum StatusDomain {
    Engine,
    Proxy,
    Connectivity,
    Subscription,
}

/// A value written into the cache, tagged with the domain it belongs to.
#[derive(Debug, Clone, PartialEq, Eq)]
pub enum StatusValue {
    Engine(EngineStatus),
    Proxy(ProxyStatus),
    Connectivity(ConnectivityStatus),
    Subscription(SubscriptionStatus),
}

/// The domain a tagged value is written to.
pub open spec fn domain_of(v: StatusValue) -> StatusDomain {
    match v {
        StatusValue::Engine(_) => StatusDomain::Engine,
        StatusValue::Proxy(_) => StatusDomain::Proxy,
        StatusValue::Connectivity(_) => StatusDomain::Connectivity,
        StatusValue::Subscription(_) => StatusDomain::Subscription,
    }
}

/// Process-wide store of the last observed value of every status domain.
///
/// Every slot starts unknown and is only ever replaced through [`StatusCache::update`].
#[derive(Debug, Clone, PartialEq, Eq)]
pub struct StatusCache {
    engine: Option<StatusValue>,
    proxy: Option<StatusValue>,
    connectivity: Option<StatusValue>,
    subscription: Option<StatusValue>,
}

impl StatusCache {
    /// The last value written for a domain, or `None` if never written.
    pub closed spec fn slot(self, d: StatusDomain) -> Option<StatusValue> {
        match d {
            StatusDomain::Engine => self.engine,
            StatusDomain::Proxy => self.proxy,
            StatusDomain::Connectivity => self.connectivity,
            StatusDomain::Subscription => self.subscription,
        }
    }

    /// The cache value after one write; used to state last-write-wins over
    /// whole sequences of writes.
    pub closed spec fn updated(self, v: StatusValue) -> StatusCache {
        match domain_of(v) {
            StatusDomain::Engine => StatusCache { engine: Some(v), ..self },
            StatusDomain::Proxy => StatusCache { proxy: Some(v), ..self },
            StatusDomain::Connectivity => StatusCache { connectivity: Some(v), ..self },
            StatusDomain::Subscription => StatusCache { subscription: Some(v), ..self },
        }
    }

    /// A cache with every slot unknown.
    pub fn new() -> (c: StatusCache)
        ensures
            forall|d: StatusDomain| c.slot(d) is None,
    {
        StatusCache { engine: None, proxy: None, connectivity: None, subscription: None }
    }

    /// Overwrite the slot for the value's domain unconditionally; every other
    /// slot is left untouched.
    pub fn update(&mut self, v: StatusValue)
        ensures
            *final(self) == old(self).updated(v),
            final(self).slot(domain_of(v)) == Some(v),
            forall|d: StatusDomain|
                d != domain_of(v) ==> final(self).slot(d) == old(self).slot(d),
    {
        match v {
            StatusValue::Engine(s) => {
                self.engine = Some(StatusValue::Engine(s));
            },
            StatusValue::Proxy(s) => {
                self.proxy = Some(StatusValue::Proxy(s));
            },
            StatusValue::Connectivity(s) => {
                self.connectivity = Some(StatusValue::Connectivity(s));
            },
            StatusValue::Subscription(s) => {
                self.subscription = Some(StatusValue::Subscription(s));
            },
        }
    }

    /// The latest value written for `d`, or `None` if the domain was never
    /// observed.
    pub fn read(&self, d: StatusDomain) -> (r: &Option<StatusValue>)
        ensures
            *r == self.slot(d),
    {
        match d {
            StatusDomain::Engine => &self.engine,
            StatusDomain::Proxy => &self.proxy,
            StatusDomain::Connectivity => &self.connectivity,
            StatusDomain::Subscription => &self.subscription,
        }
    }
}

/// The cache value after a whole sequence of writes, applied in order.
pub open spec fn apply_all(c: StatusCache, vs: Seq<StatusValue>) -> StatusCache
    decreases vs.len(),
{
    if vs.len() == 0 {
        c
    } else {
        apply_all(c, vs.drop_last()).updated(vs.last())
    }
}

/// The most recent value in `vs` whose domain is `d`, if any.
pub open spec fn last_write(vs: Seq<StatusValue>, d: StatusDomain) -> Option<StatusValue>
    decreases vs.len(),
{
    if vs.len() == 0 {
        None
    } else if domain_of(vs.last()) == d {
        Some(vs.last())
    } else {
        last_write(vs.drop_last(), d)
    }
}

/// Last write wins, with no cross-slot interference: after any sequence of
/// updates, a domain's slot holds the most recent value written for that
/// domain, and keeps its prior value if the sequence never wrote to it.
pub proof fn lemma_last_write_wins(c: StatusCache, vs: Seq<StatusValue>, d: StatusDomain)
    ensures
        apply_all(c, vs).slot(d) == if last_write(vs, d) is Some {
            last_write(vs, d)
        } else {
            c.slot(d)
        },
    decreases vs.len(),
{
    if vs.len() > 0 {
        lemma_last_write_wins(c, vs.drop_last(), d);
    }
}

} // verus!
