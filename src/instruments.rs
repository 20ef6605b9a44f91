//! The prometheus instruments behind the registry, and what this library relies on of them.
use vstd::prelude::*;

verus! {

#[verifier::external_type_specification]
#[verifier::external_body]
pub struct ExRegistry(prometheus::Registry);

#[verifier::external_type_specification]
#[verifier::external_body]
pub struct ExError(prometheus::Error);

/// A prometheus `IntCounter`. Its value is `counter_value(c)`.
#[verifier::external_body]
pub struct Counter {
    inner: prometheus::IntCounter,
}

/// A prometheus `IntGauge`. Its value is `gauge_value(g)`.
#[verifier::external_body]
pub struct Gauge {
    inner: prometheus::IntGauge,
}

/// The value that a counter holds.
pub uninterp spec fn counter_value(c: Counter) -> int;

/// The value that a gauge holds.
pub uninterp spec fn gauge_value(g: Gauge) -> int;

/// The name that a counter was created with.
pub uninterp spec fn counter_name(c: Counter) -> Seq<char>;

/// The name that a gauge was created with.
pub uninterp spec fn gauge_name(g: Gauge) -> Seq<char>;

/// The names of the instruments registered in a registry.
pub uninterp spec fn registered_names(r: prometheus::Registry) -> Set<Seq<char>>;

/// The id that prometheus gives the descriptor of an unlabelled instrument: a hash of its name.
pub uninterp spec fn descriptor_id(name: Seq<char>) -> u64;

/// A character that may start a metric name: `[a-zA-Z_:]`.
pub open spec fn is_name_start(c: char) -> bool {
    ('a' <= c && c <= 'z') || ('A' <= c && c <= 'Z') || c == '_' || c == ':'
}

/// A metric name as prometheus accepts it: `[a-zA-Z_:][a-zA-Z0-9_:]*`.
pub open spec fn valid_metric_name(s: Seq<char>) -> bool {
    &&& s.len() > 0
    &&& is_name_start(s[0])
    &&& forall|i: int| 1 <= i < s.len() ==> is_name_start(#[trigger] s[i]) || ('0' <= s[i] && s[i] <= '9')
}

/// `v + 1` in `u64`, wrapping at the top as `fetch_add` does.
pub open spec fn wrapping_inc_u64(v: int) -> int {
    if v == u64::MAX as int { 0 } else { v + 1 }
}

/// `v + 1` in `i64`, wrapping at the top as `fetch_add` does.
pub open spec fn wrapping_inc_i64(v: int) -> int {
    if v == i64::MAX as int { i64::MIN as int } else { v + 1 }
}

impl Counter {
    /// Relies on prometheus::IntCounter::new: it fails only on an empty help text or an
    /// invalid name, and a new counter starts at 0.
    #[verifier::external_body]
    pub(crate) fn create(name: &str, help: &str) -> (r: Result<Counter, prometheus::Error>)
        ensures
            r is Ok == (valid_metric_name(name@) && help@.len() > 0),
            r is Ok ==> counter_value(r->Ok_0) == 0 && counter_name(r->Ok_0) == name@,
    {
        prometheus::IntCounter::new(name, help).map(|inner| Counter { inner })
    }

    /// Relies on prometheus::IntCounter::inc: adds one with `AtomicU64::fetch_add`.
    #[verifier::external_body]
    pub(crate) fn inc(&mut self)
        ensures
            counter_value(*final(self)) == wrapping_inc_u64(counter_value(*old(self))),
    {
        self.inner.inc()
    }

    /// Relies on prometheus::IntCounter::get: reads the value.
    #[verifier::external_body]
    pub(crate) fn get(&self) -> (r: u64)
        ensures
            r as int == counter_value(*self),
    {
        self.inner.get()
    }

    /// Relies on prometheus::Registry::register: the counter joins the registry unless a
    /// descriptor with its id is there already. The registries of this library hold only
    /// unlabelled counters and gauges, one descriptor each, registered through these wrappers.
    #[verifier::external_body]
    pub(crate) fn register(&self, registry: &mut prometheus::Registry) -> (r: Result<(), prometheus::Error>)
        ensures
            r is Ok == (forall|n: Seq<char>|
                #[trigger] registered_names(*old(registry)).contains(n) ==> descriptor_id(n)
                    != descriptor_id(counter_name(*self))),
            r is Ok ==> registered_names(*final(registry)) == registered_names(*old(registry)).insert(
                counter_name(*self),
            ),
            r is Err ==> registered_names(*final(registry)) == registered_names(*old(registry)),
    {
        registry.register(Box::new(self.inner.clone()))
    }
}

impl Gauge {
    /// Relies on prometheus::IntGauge::new: it fails only on an empty help text or an invalid
    /// name, and a new gauge starts at 0.
    #[verifier::external_body]
    pub(crate) fn create(name: &str, help: &str) -> (r: Result<Gauge, prometheus::Error>)
        ensures
            r is Ok == (valid_metric_name(name@) && help@.len() > 0),
            r is Ok ==> gauge_value(r->Ok_0) == 0 && gauge_name(r->Ok_0) == name@,
    {
        prometheus::IntGauge::new(name, help).map(|inner| Gauge { inner })
    }

    /// Relies on prometheus::IntGauge::set: stores the value.
    #[verifier::external_body]
    pub(crate) fn set(&mut self, v: i64)
        ensures
            gauge_value(*final(self)) == v as int,
    {
        self.inner.set(v)
    }

    /// Relies on prometheus::IntGauge::inc: adds one with `AtomicI64::fetch_add`.
    #[verifier::external_body]
    pub(crate) fn inc(&mut self)
        ensures
            gauge_value(*final(self)) == wrapping_inc_i64(gauge_value(*old(self))),
    {
        self.inner.inc()
    }

    /// Relies on prometheus::IntGauge::get: reads the value.
    #[verifier::external_body]
    pub(crate) fn get(&self) -> (r: i64)
        ensures
            r as int == gauge_value(*self),
    {
        self.inner.get()
    }

    /// Relies on prometheus::Registry::register: the gauge joins the registry unless a
    /// descriptor with its id is there already. The registries of this library hold only
    /// unlabelled counters and gauges, one descriptor each, registered through these wrappers.
    #[verifier::external_body]
    pub(crate) fn register(&self, registry: &mut prometheus::Registry) -> (r: Result<(), prometheus::Error>)
        ensures
            r is Ok == (forall|n: Seq<char>|
                #[trigger] registered_names(*old(registry)).contains(n) ==> descriptor_id(n)
                    != descriptor_id(gauge_name(*self))),
            r is Ok ==> registered_names(*final(registry)) == registered_names(*old(registry)).insert(
                gauge_name(*self),
            ),
            r is Err ==> registered_names(*final(registry)) == registered_names(*old(registry)),
    {
        registry.register(Box::new(self.inner.clone()))
    }
}

/// Relies on prometheus::Registry::new: an empty registry.
#[verifier::external_body]
pub(crate) fn new_registry() -> (r: prometheus::Registry)
    ensures
        registered_names(r) == Set::<Seq<char>>::empty(),
{
    prometheus::Registry::new()
}

} // verus!
