//! The metrics registry of the benchmark and the push of its metrics to a
//! gateway.

use std::collections::HashMap;
use vstd::prelude::*;

verus! {

/// `Registry` of the `prometheus` crate, as a value that is carried
/// around and not looked into.
#[verifier::external_type_specification]
#[verifier::external_body]
pub struct ExRegistry(::prometheus::Registry);

/// `Error` of the `prometheus` crate, carried and not looked into.
#[verifier::external_type_specification]
#[verifier::external_body]
pub struct ExError(::prometheus::Error);

/// `proto::MetricFamily` of the `prometheus` crate: one gathered metric
/// with its samples, carried and not looked into.
#[verifier::external_type_specification]
#[verifier::external_body]
pub struct ExMetricFamily(::prometheus::proto::MetricFamily);

/// A handle to an integer gauge of the `prometheus` crate. The gauge's
/// type is generic over a trait of that crate, so the handle is kept
/// behind a field that the verifier does not look into.
#[verifier::external_body]
#[derive(Debug)]
pub struct IntGauge {
    inner: ::prometheus::IntGauge,
}

/// The number of collectors that a registry holds.
pub uninterp spec fn collectors(registry: ::prometheus::Registry) -> nat;

/// The metric names that a registry has taken note of. It notes the name
/// of every metric that it is asked to take, and forgets none, also when
/// the collector leaves again.
pub uninterp spec fn noted_names(registry: ::prometheus::Registry) -> Set<Seq<char>>;

/// The gauges that a registry holds, each by what `gauge_id` calls it.
pub uninterp spec fn held_gauges(registry: ::prometheus::Registry) -> Set<int>;

/// The registry was made without a prefix and without labels of its own,
/// and every collector that it holds is a gauge that `register_gauge` put
/// there.
pub uninterp spec fn plain(registry: ::prometheus::Registry) -> bool;

/// The name that a gathered family of metrics bears.
pub uninterp spec fn family_name(family: ::prometheus::proto::MetricFamily) -> Seq<char>;

/// The gauge that a handle stands for: a second handle to a gauge stands
/// for the same one, and setting a gauge leaves it the gauge that it was.
pub uninterp spec fn gauge_id(gauge: IntGauge) -> int;

/// The name under which a gauge was made.
pub uninterp spec fn gauge_name(gauge: IntGauge) -> Seq<char>;

/// The help text with which a gauge was made.
pub uninterp spec fn gauge_help(gauge: IntGauge) -> Seq<char>;

/// The value that a gauge holds.
pub uninterp spec fn gauge_value(gauge: IntGauge) -> int;

/// A first character that a metric's name may have.
pub open spec fn name_start(c: char) -> bool {
    ('a' <= c && c <= 'z') || ('A' <= c && c <= 'Z') || c == '_' || c == ':'
}

/// A name that the registry takes for a metric: a letter, `_` or `:`,
/// then any of these or digits.
pub open spec fn valid_metric_name(name: Seq<char>) -> bool {
    &&& name.len() > 0
    &&& name_start(name[0])
    &&& forall|i: int| 0 < i < name.len() ==> name_start(#[trigger] name[i]) || ('0' <= name[i]
        && name[i] <= '9')
}

/// `Registry::new_custom` of the `prometheus` crate. It refuses an empty
/// prefix and nothing else; a new registry holds no collector and has
/// noted no name, and it is plain exactly when it was given neither a
/// prefix nor labels.
#[verifier::external_body]
fn registry_new_custom(prefix: Option<String>, labels: Option<HashMap<String, String>>) -> (r:
    Result<::prometheus::Registry, ::prometheus::Error>)
    ensures
        r is Err <==> (prefix matches Some(p) && p@.len() == 0),
        r matches Ok(registry) ==> collectors(registry) == 0,
        r matches Ok(registry) ==> noted_names(registry) == Set::<Seq<char>>::empty(),
        r matches Ok(registry) ==> held_gauges(registry) == Set::<int>::empty(),
        r matches Ok(registry) ==> (plain(registry) <==> prefix is None && labels is None),
{
    ::prometheus::Registry::new_custom(prefix, labels)
}

/// `IntGauge::new` of the `prometheus` crate. It takes a name and a help
/// text without labels; it succeeds exactly when the name is a valid
/// metric name and the help text is not empty. The new gauge has that
/// name and that help text, and holds 0.
#[verifier::external_body]
fn int_gauge_new(name: &str, help: &str) -> (r: Result<IntGauge, ::prometheus::Error>)
    ensures
        r is Ok <==> (valid_metric_name(name@) && help@.len() > 0),
        r matches Ok(gauge) ==> gauge_name(gauge) == name@,
        r matches Ok(gauge) ==> gauge_help(gauge) == help@,
        r matches Ok(gauge) ==> gauge_value(gauge) == 0,
{
    match ::prometheus::IntGauge::new(name, help) {
        Ok(inner) => Ok(IntGauge { inner }),
        Err(e) => Err(e),
    }
}

/// `Registry::register` of the `prometheus` crate, given a second handle
/// to `gauge`. A registry that holds no collector and has noted no name
/// takes any gauge. A gauge that is taken is one collector more, its name
/// is noted, and the registry holds that very gauge; a refusal leaves the
/// collectors as they were, and nothing is said of the names then. A
/// plain registry stays plain. The registry is taken exclusively, so that
/// what it holds changes only where the verifier sees it.
#[verifier::external_body]
fn register_gauge(registry: &mut ::prometheus::Registry, gauge: &IntGauge) -> (r: Result<
    (),
    ::prometheus::Error,
>)
    ensures
        collectors(*old(registry)) == 0 && noted_names(*old(registry)) == Set::<
            Seq<char>,
        >::empty() ==> r is Ok,
        r is Ok ==> collectors(*final(registry)) == collectors(*old(registry)) + 1,
        r is Ok ==> noted_names(*final(registry)) == noted_names(*old(registry)).insert(
            gauge_name(*gauge),
        ),
        r is Ok ==> held_gauges(*final(registry)) == held_gauges(*old(registry)).insert(
            gauge_id(*gauge),
        ),
        r is Err ==> collectors(*final(registry)) == collectors(*old(registry)),
        r is Err ==> held_gauges(*final(registry)) == held_gauges(*old(registry)),
        plain(*old(registry)) ==> plain(*final(registry)),
{
    registry.register(Box::new(gauge.inner.clone()))
}

/// `Registry::gather` of the `prometheus` crate. A plain registry gathers
/// one family for each gauge that it holds, under a name that it has
/// noted. The families hold the values that the gauges have at the moment
/// of the call, and of those nothing is claimed.
#[verifier::external_body]
fn gather(registry: &::prometheus::Registry) -> (families: Vec<::prometheus::proto::MetricFamily>)
    ensures
        plain(*registry) ==> families@.len() == collectors(*registry),
        plain(*registry) ==> forall|i: int|
            0 <= i < families@.len() ==> noted_names(*registry).contains(
                #[trigger] family_name(families@[i]),
            ),
{
    registry.gather()
}

/// `IntGauge::set` of the `prometheus` crate: the gauge holds `value`
/// afterwards and is otherwise the gauge that it was. The handle is
/// taken exclusively, so that what it holds changes only where the
/// verifier sees it.
#[verifier::external_body]
fn gauge_set(gauge: &mut IntGauge, value: i64)
    ensures
        gauge_value(*final(gauge)) == value,
        gauge_id(*final(gauge)) == gauge_id(*old(gauge)),
        gauge_name(*final(gauge)) == gauge_name(*old(gauge)),
        gauge_help(*final(gauge)) == gauge_help(*old(gauge)),
{
    gauge.inner.set(value)
}

/// `IntGauge::get` of the `prometheus` crate: the value that the gauge holds.
#[verifier::external_body]
fn gauge_get(gauge: &IntGauge) -> (value: i64)
    ensures
        value == gauge_value(*gauge),
{
    gauge.inner.get()
}

impl IntGauge {
    /// The value that the gauge holds.
    pub open spec fn value(&self) -> int {
        gauge_value(*self)
    }

    /// The gauge that the handle stands for.
    pub open spec fn id(&self) -> int {
        gauge_id(*self)
    }

    /// The name under which the gauge was made.
    pub open spec fn name(&self) -> Seq<char> {
        gauge_name(*self)
    }

    /// The help text with which the gauge was made.
    pub open spec fn help(&self) -> Seq<char> {
        gauge_help(*self)
    }

    /// Sets the gauge to `value`.
    pub fn set(&mut self, value: i64)
        ensures
            final(self).value() == value,
            final(self).id() == old(self).id(),
            final(self).name() == old(self).name(),
            final(self).help() == old(self).help(),
    {
        gauge_set(self, value)
    }

    /// The value that the gauge holds.
    pub fn get(&self) -> (value: i64)
        ensures
            value == self.value(),
    {
        gauge_get(self)
    }
}

/// Why the registry could not be set up.
#[derive(Debug)]
pub struct MetricsError {
    pub cause: ::prometheus::Error,
}

/// A registry that is plain, and stays so: it is made without prefix and
/// labels, and nothing but gauges goes into it.
#[derive(Debug)]
struct PlainRegistry {
    inner: ::prometheus::Registry,
}

impl PlainRegistry {
    #[verifier::type_invariant]
    closed spec fn inv(&self) -> bool {
        plain(self.inner)
    }
}

/// The registry of the benchmark with its one metric.
#[derive(Debug)]
pub struct Prometheus {
    registry: PlainRegistry,
    pub test_metric: IntGauge,
}

/// A push of metrics, ready to be sent: the job and the grouping labels
/// under which the gateway files them, the gateway's address, and the
/// metric families themselves.
#[derive(Debug)]
pub struct PushJob {
    pub job: String,
    pub grouping: Vec<(String, String)>,
    pub url: String,
    pub metrics: Vec<::prometheus::proto::MetricFamily>,
}

/// The text holds no `/`; the gateway's client refuses a job name or a
/// label value that does.
pub open spec fn no_slash(text: Seq<char>) -> bool {
    forall|i: int| 0 <= i < text.len() ==> #[trigger] text[i] != '/'
}

/// The push is the benchmark's own: for the job `mq-producer`, grouped
/// under `lang` = `rust`, to the gateway at `localhost:9091`.
pub open spec fn addressed(job: PushJob) -> bool {
    &&& job.job@ == "mq-producer"@
    &&& job.url@ == "localhost:9091"@
    &&& job.grouping@.len() == 1
    &&& job.grouping@[0].0@ == "lang"@
    &&& job.grouping@[0].1@ == "rust"@
    &&& no_slash(job.job@)
    &&& no_slash(job.grouping@[0].1@)
}

/// Makes the push of `metrics`: these families, as they are, under the
/// benchmark's job, grouping and gateway.
pub fn push_job(metrics: Vec<::prometheus::proto::MetricFamily>) -> (job: PushJob)
    ensures
        job.metrics@ == metrics@,
        addressed(job),
{
    let mut grouping: Vec<(String, String)> = Vec::new();
    grouping.push(("lang".to_owned(), "rust".to_owned()));
    proof {
        reveal_strlit("mq-producer");
        reveal_strlit("rust");
    }
    PushJob { job: "mq-producer".to_owned(), grouping, url: "localhost:9091".to_owned(), metrics }
}

/// Every family of `families` bears one of `names`.
pub open spec fn named_within(
    families: Seq<::prometheus::proto::MetricFamily>,
    names: Set<Seq<char>>,
) -> bool {
    forall|i: int| 0 <= i < families.len() ==> names.contains(#[trigger] family_name(families[i]))
}

impl Prometheus {
    /// The number of collectors that the registry holds.
    pub closed spec fn registered(&self) -> nat {
        collectors(self.registry.inner)
    }

    /// The metric names that the registry has taken note of.
    pub closed spec fn names(&self) -> Set<Seq<char>> {
        noted_names(self.registry.inner)
    }

    /// The gauges that the registry holds.
    pub closed spec fn gauges(&self) -> Set<int> {
        held_gauges(self.registry.inner)
    }

    /// The registry has neither prefix nor labels of its own, and holds
    /// gauges only.
    pub closed spec fn is_plain(&self) -> bool {
        plain(self.registry.inner)
    }

    /// The gauge that the test metric is.
    pub closed spec fn test_id(&self) -> int {
        self.test_metric.id()
    }

    /// The name of the test metric.
    pub closed spec fn test_name(&self) -> Seq<char> {
        self.test_metric.name()
    }

    /// The help text of the test metric.
    pub closed spec fn test_help(&self) -> Seq<char> {
        self.test_metric.help()
    }

    /// The value that the test metric holds.
    pub closed spec fn test_value(&self) -> int {
        self.test_metric.value()
    }

    /// A new registry of its own, without prefix and labels, that holds
    /// one collector: the test metric itself, a gauge of the name `test`
    /// and the help text `Test metric.`, at 0. Nothing stands in the way
    /// of that, so the result is never an error.
    pub fn new() -> (r: Result<Prometheus, MetricsError>)
        ensures
            r is Ok,
            r->Ok_0.is_plain(),
            r->Ok_0.registered() == 1,
            r->Ok_0.gauges() == Set::<int>::empty().insert(r->Ok_0.test_id()),
            r->Ok_0.names() == Set::<Seq<char>>::empty().insert("test"@),
            r->Ok_0.test_name() == "test"@,
            r->Ok_0.test_help() == "Test metric."@,
            r->Ok_0.test_value() == 0,
    {
        let mut registry = match registry_new_custom(None, None) {
            Ok(registry) => registry,
            Err(cause) => {
                return Err(MetricsError { cause });
            },
        };
        proof {
            reveal_strlit("test");
            reveal_strlit("Test metric.");
        }
        let test_metric = match int_gauge_new("test", "Test metric.") {
            Ok(gauge) => gauge,
            Err(cause) => {
                return Err(MetricsError { cause });
            },
        };
        match register_gauge(&mut registry, &test_metric) {
            Ok(_) => Ok(Prometheus { registry: PlainRegistry { inner: registry }, test_metric }),
            Err(cause) => Err(MetricsError { cause }),
        }
    }

    /// Sets the test metric to `value`; it stays the gauge that it was,
    /// and the registry stays as it is.
    pub fn set_test_metric(&mut self, value: i64)
        ensures
            final(self).test_value() == value,
            final(self).test_id() == old(self).test_id(),
            final(self).test_name() == old(self).test_name(),
            final(self).test_help() == old(self).test_help(),
            final(self).registered() == old(self).registered(),
            final(self).gauges() == old(self).gauges(),
            final(self).names() == old(self).names(),
            final(self).is_plain() == old(self).is_plain(),
    {
        self.test_metric.set(value);
    }

    /// The value that the test metric holds.
    pub fn test_metric_value(&self) -> (value: i64)
        ensures
            value == self.test_value(),
    {
        self.test_metric.get()
    }

    /// Gathers the registry's metrics and makes the push of them, as
    /// `push_job` does of what was gathered: one family for each gauge
    /// that the registry holds, each under a name that the registry has
    /// noted. Sending it is the caller's.
    pub fn push(&self) -> (job: PushJob)
        ensures
            addressed(job),
            job.metrics@.len() == self.registered(),
            named_within(job.metrics@, self.names()),
    {
        proof {
            use_type_invariant(&self.registry);
        }
        let metrics = gather(&self.registry.inner);
        push_job(metrics)
    }
}

/// The self-test of the metrics path: sets the test metric to 2, then
/// makes the push of the registry's metrics, as `push` does.
pub fn test_cmd(prometheus: &mut Prometheus) -> (job: PushJob)
    ensures
        final(prometheus).test_value() == 2,
        final(prometheus).test_id() == old(prometheus).test_id(),
        final(prometheus).test_name() == old(prometheus).test_name(),
        final(prometheus).test_help() == old(prometheus).test_help(),
        final(prometheus).registered() == old(prometheus).registered(),
        final(prometheus).gauges() == old(prometheus).gauges(),
        final(prometheus).names() == old(prometheus).names(),
        final(prometheus).is_plain() == old(prometheus).is_plain(),
        addressed(job),
        job.metrics@.len() == final(prometheus).registered(),
        named_within(job.metrics@, final(prometheus).names()),
{
    prometheus.set_test_metric(2);
    prometheus.push()
}

} // verus!
