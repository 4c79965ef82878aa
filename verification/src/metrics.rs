//! Settings of metrics collection, the kinds of metrics, and the counts kept about operations,
//! transports and features.
//!
//! Spans of time are in milliseconds. The success rate of operations is the share of
//! operations that did not fail, `(operation_count - error_count) / operation_count`, and 1
//! before any operation.
use vstd::prelude::*;

use crate::clock::now_millis;
use crate::keyed::KeyedList;
use crate::session::elapsed;
use crate::transport::TransportType;

verus! {

/// Settings of metrics collection.
#[derive(Debug, Clone)]
pub struct MetricsConfig {
    /// Whether metrics are collected.
    pub enabled: bool,
    /// Collection interval in seconds.
    pub collection_interval: u64,
    /// The most samples kept in memory for one metric.
    pub max_samples: usize,
    /// Whether metrics are exported.
    pub export_enabled: bool,
    /// Export interval in seconds.
    pub export_interval: u64,
    /// Export formats, such as `json` or `prometheus`.
    pub export_formats: Vec<String>,
    /// Export endpoints by name.
    pub export_endpoints: KeyedList<String, String>,
}

/// The default metrics settings: collection on every 30 seconds, 1000 samples kept, export off
/// every 60 seconds in JSON, no endpoints.
pub open spec fn is_default_metrics(c: MetricsConfig) -> bool {
    &&& c.enabled
    &&& c.collection_interval == 30
    &&& c.max_samples == 1000
    &&& !c.export_enabled
    &&& c.export_interval == 60
    &&& c.export_formats@.len() == 1
    &&& c.export_formats@[0]@ == "json"@
    &&& c.export_endpoints@ == Map::<Seq<char>, String>::empty()
}

impl Default for MetricsConfig {
    fn default() -> (r: Self)
        ensures
            is_default_metrics(r),
    {
        let mut export_formats = Vec::new();
        export_formats.push(String::from_str("json"));
        MetricsConfig {
            enabled: true,
            collection_interval: 30,
            max_samples: 1000,
            export_enabled: false,
            export_interval: 60,
            export_formats,
            export_endpoints: KeyedList::new(),
        }
    }
}

/// Kinds of metrics.
#[derive(Debug, Clone, Copy, PartialEq, Eq, Hash, Structural)]
pub enum MetricType {
    /// A count that only grows.
    Counter,
    /// A value that goes up and down.
    Gauge,
    /// A distribution of timings or sizes.
    Histogram,
}

/// Counts and timings of an operation.
#[derive(Debug, Clone, Copy, PartialEq, Eq, Structural)]
pub struct PerformanceMetrics {
    /// Operations performed.
    pub operation_count: u64,
    /// Time spent on timed operations.
    pub total_duration: u64,
    /// The total time over the operations counted when it was last taken.
    pub avg_duration: u64,
    /// The shortest timed operation; `u64::MAX` before any.
    pub min_duration: u64,
    /// The longest timed operation.
    pub max_duration: u64,
    /// Operations that failed.
    pub error_count: u64,
}

/// Performance metrics before any operation.
pub open spec fn fresh_performance() -> PerformanceMetrics {
    PerformanceMetrics {
        operation_count: 0,
        total_duration: 0,
        avg_duration: 0,
        min_duration: u64::MAX,
        max_duration: 0,
        error_count: 0,
    }
}

/// The metrics after one more operation counted, timed by a span when it was timed.
pub open spec fn after_operation(p: PerformanceMetrics, duration: Option<u64>, failed: bool) -> PerformanceMetrics {
    let count = (p.operation_count + 1) as u64;
    let errors = if failed {
        (p.error_count + 1) as u64
    } else {
        p.error_count
    };
    match duration {
        Some(d) => {
            let total = (p.total_duration + d) as u64;
            PerformanceMetrics {
                operation_count: count,
                total_duration: total,
                avg_duration: total / count,
                min_duration: if d < p.min_duration {
                    d
                } else {
                    p.min_duration
                },
                max_duration: if d > p.max_duration {
                    d
                } else {
                    p.max_duration
                },
                error_count: errors,
            }
        },
        None => PerformanceMetrics { operation_count: count, error_count: errors, ..p },
    }
}

/// Whether one more operation, timed by a span when it was timed and failed or not, fits the
/// counts: the operation count stays below `u32::MAX` (the average divides by it as a `u32`).
pub open spec fn operation_fits(p: PerformanceMetrics, duration: Option<u64>, failed: bool) -> bool {
    &&& p.operation_count < u32::MAX
    &&& failed ==> p.error_count < u64::MAX
    &&& duration matches Some(d) ==> p.total_duration + d <= u64::MAX
}

/// Failed operations never outnumber operations, so the success rate stays between 0 and 1.
pub proof fn lemma_errors_within_operations(p: PerformanceMetrics, duration: Option<u64>, failed: bool)
    requires
        p.error_count <= p.operation_count,
        operation_fits(p, duration, failed),
    ensures
        after_operation(p, duration, failed).error_count <= after_operation(p, duration, failed).operation_count,
{
}

/// After a timed operation, its timing lies between the shortest and the longest timing.
pub proof fn lemma_timings_ordered(p: PerformanceMetrics, d: u64, failed: bool)
    requires
        operation_fits(p, Some(d), failed),
    ensures
        ({
            let a = after_operation(p, Some(d), failed);
            a.min_duration <= d <= a.max_duration
        }),
{
}

impl Default for PerformanceMetrics {
    fn default() -> (r: Self)
        ensures
            r == fresh_performance(),
    {
        PerformanceMetrics {
            operation_count: 0,
            total_duration: 0,
            avg_duration: 0,
            min_duration: u64::MAX,
            max_duration: 0,
            error_count: 0,
        }
    }
}

impl PerformanceMetrics {
    fn count_operation(&mut self, duration: Option<u64>, failed: bool)
        requires
            operation_fits(*old(self), duration, failed),
        ensures
            *final(self) == after_operation(*old(self), duration, failed),
    {
        self.operation_count = self.operation_count + 1;
        if failed {
            self.error_count = self.error_count + 1;
        }
        match duration {
            Some(d) => {
                self.total_duration = self.total_duration + d;
                self.avg_duration = self.total_duration / self.operation_count;
                if d < self.min_duration {
                    self.min_duration = d;
                }
                if d > self.max_duration {
                    self.max_duration = d;
                }
            },
            None => {},
        }
    }

    /// Counts a successful operation that took a span.
    pub fn record_success(&mut self, duration: u64)
        requires
            operation_fits(*old(self), Some(duration), false),
        ensures
            *final(self) == after_operation(*old(self), Some(duration), false),
    {
        self.count_operation(Some(duration), false);
    }

    /// Counts a failed operation, timed by a span when it was timed.
    pub fn record_error(&mut self, duration: Option<u64>)
        requires
            operation_fits(*old(self), duration, true),
        ensures
            *final(self) == after_operation(*old(self), duration, true),
    {
        self.count_operation(duration, true);
    }
}

/// Counts about one transport kind.
#[derive(Debug, Clone, Copy, PartialEq, Eq, Structural)]
pub struct TransportMetrics {
    /// Connection attempts and their timings.
    pub connections: PerformanceMetrics,
    /// Bytes sent.
    pub bytes_sent: u64,
    /// Bytes received.
    pub bytes_received: u64,
    /// Messages sent.
    pub messages_sent: u64,
    /// Messages received.
    pub messages_received: u64,
    /// Latencies.
    pub latency: PerformanceMetrics,
    /// Reconnections.
    pub reconnections: u64,
}

/// The counts of a transport kind before anything happened on it.
pub open spec fn fresh_transport_metrics() -> TransportMetrics {
    TransportMetrics {
        connections: fresh_performance(),
        bytes_sent: 0,
        bytes_received: 0,
        messages_sent: 0,
        messages_received: 0,
        latency: fresh_performance(),
        reconnections: 0,
    }
}

impl Default for TransportMetrics {
    fn default() -> (r: Self)
        ensures
            r == fresh_transport_metrics(),
    {
        TransportMetrics {
            connections: PerformanceMetrics::default(),
            bytes_sent: 0,
            bytes_received: 0,
            messages_sent: 0,
            messages_received: 0,
            latency: PerformanceMetrics::default(),
            reconnections: 0,
        }
    }
}

/// Counts about the whole system: by transport kind, by feature, and since when it runs.
#[derive(Debug)]
pub struct SystemMetrics {
    /// Counts by transport kind.
    pub transport_metrics: KeyedList<TransportType, TransportMetrics>,
    /// Uses by feature.
    pub feature_usage: KeyedList<String, u64>,
    /// Memory in use, in bytes.
    pub memory_usage: u64,
    /// How long the system has run, as last taken.
    pub uptime: u64,
    /// When it started, in milliseconds since the Unix epoch.
    pub start_time: u64,
}

/// The counts of a transport kind in system metrics, fresh when there are none yet.
pub open spec fn transport_entry(m: Map<TransportType, TransportMetrics>, t: TransportType) -> TransportMetrics {
    if m.contains_key(t) {
        m[t]
    } else {
        fresh_transport_metrics()
    }
}

impl SystemMetrics {
    /// System metrics of a system started at a time, with nothing counted.
    pub fn new_at(start_time: u64) -> (r: Self)
        ensures
            r.transport_metrics@ == Map::<TransportType, TransportMetrics>::empty(),
            r.feature_usage@ == Map::<Seq<char>, u64>::empty(),
            r.memory_usage == 0,
            r.uptime == 0,
            r.start_time == start_time,
    {
        SystemMetrics {
            transport_metrics: KeyedList::new(),
            feature_usage: KeyedList::new(),
            memory_usage: 0,
            uptime: 0,
            start_time,
        }
    }

    /// Counts a connection attempt of a transport kind that took a span.
    pub fn record_transport_connection(&mut self, transport_type: TransportType, duration: u64, success: bool)
        requires
            operation_fits(
                transport_entry(old(self).transport_metrics@, transport_type).connections,
                Some(duration),
                !success,
            ),
        ensures
            final(self).transport_metrics@ == old(self).transport_metrics@.insert(
                transport_type,
                TransportMetrics {
                    connections: after_operation(
                        transport_entry(old(self).transport_metrics@, transport_type).connections,
                        Some(duration),
                        !success,
                    ),
                    ..transport_entry(old(self).transport_metrics@, transport_type)
                },
            ),
            final(self).feature_usage@ == old(self).feature_usage@,
            final(self).uptime == old(self).uptime,
            final(self).start_time == old(self).start_time,
            final(self).memory_usage == old(self).memory_usage,
    {
        let mut entry = match self.transport_metrics.get(&transport_type) {
            Some(m) => *m,
            None => TransportMetrics::default(),
        };
        if success {
            entry.connections.record_success(duration);
        } else {
            entry.connections.record_error(Some(duration));
        }
        self.transport_metrics.insert(transport_type, entry);
    }

    /// Counts bytes sent and received on a transport kind.
    pub fn record_data_transfer(&mut self, transport_type: TransportType, bytes_sent: u64, bytes_received: u64)
        requires
            transport_entry(old(self).transport_metrics@, transport_type).bytes_sent + bytes_sent <= u64::MAX,
            transport_entry(old(self).transport_metrics@, transport_type).bytes_received + bytes_received
                <= u64::MAX,
        ensures
            final(self).transport_metrics@ == old(self).transport_metrics@.insert(
                transport_type,
                TransportMetrics {
                    bytes_sent: (transport_entry(old(self).transport_metrics@, transport_type).bytes_sent
                        + bytes_sent) as u64,
                    bytes_received: (transport_entry(old(self).transport_metrics@, transport_type).bytes_received
                        + bytes_received) as u64,
                    ..transport_entry(old(self).transport_metrics@, transport_type)
                },
            ),
            final(self).feature_usage@ == old(self).feature_usage@,
            final(self).uptime == old(self).uptime,
            final(self).start_time == old(self).start_time,
            final(self).memory_usage == old(self).memory_usage,
    {
        let mut entry = match self.transport_metrics.get(&transport_type) {
            Some(m) => *m,
            None => TransportMetrics::default(),
        };
        entry.bytes_sent = entry.bytes_sent + bytes_sent;
        entry.bytes_received = entry.bytes_received + bytes_received;
        self.transport_metrics.insert(transport_type, entry);
    }

    /// Counts a use of a feature.
    pub fn record_feature_usage(&mut self, feature: &str)
        requires
            old(self).feature_usage@.contains_key(feature@) ==> old(self).feature_usage@[feature@] < u64::MAX,
        ensures
            final(self).feature_usage@ == old(self).feature_usage@.insert(
                feature@,
                (if old(self).feature_usage@.contains_key(feature@) {
                    old(self).feature_usage@[feature@] + 1
                } else {
                    1
                }) as u64,
            ),
            final(self).transport_metrics@ == old(self).transport_metrics@,
            final(self).uptime == old(self).uptime,
            final(self).start_time == old(self).start_time,
            final(self).memory_usage == old(self).memory_usage,
    {
        let key = String::from_str(feature);
        let count: u64 = match self.feature_usage.get(&key) {
            Some(c) => *c + 1,
            None => 1,
        };
        self.feature_usage.insert(key, count);
    }

    /// Takes the uptime at a time: the time since the start, or 0 before it.
    pub fn update_uptime_at(&mut self, now: u64)
        ensures
            final(self).uptime == elapsed(old(self).start_time, now),
            final(self).transport_metrics@ == old(self).transport_metrics@,
            final(self).feature_usage@ == old(self).feature_usage@,
            final(self).start_time == old(self).start_time,
            final(self).memory_usage == old(self).memory_usage,
    {
        self.uptime = if now >= self.start_time {
            now - self.start_time
        } else {
            0
        };
    }
}

impl Default for SystemMetrics {
    /// System metrics of a system that starts now.
    fn default() -> (r: Self)
        ensures
            r.transport_metrics@ == Map::<TransportType, TransportMetrics>::empty(),
            r.feature_usage@ == Map::<Seq<char>, u64>::empty(),
            r.memory_usage == 0,
            r.uptime == 0,
    {
        Self::new_at(now_millis())
    }
}

} // verus!
