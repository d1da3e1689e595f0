//! Metrics that a worker reports and receives. Every 64-bit float is held as
//! its IEEE-754 bit pattern.

use crate::worker::log_message::{contains_zero_byte, has_zero_byte};
use crate::worker::text::{decode_text, spells};
use crate::worker::DecodeError;
use vstd::prelude::*;
use vstd::slice::slice_to_vec;
use vstd::utf8::{encode_utf8, valid_utf8};

verus! {

/// One bucket of a histogram.
#[derive(Clone, Copy, Debug, PartialEq, Eq, Structural)]
pub struct HistogramMetricBucket {
    /// The upper bound of the bucket, a 64-bit float.
    pub upper_bound: u64,
    /// The number of observations that were less than or equal to the upper
    /// bound.
    pub samples: u32,
}

/// A histogram metric.
#[derive(Debug)]
pub struct HistogramMetric {
    pub key: String,
    /// The sum of all observations, a 64-bit float.
    pub sum: u64,
    pub buckets: Vec<HistogramMetricBucket>,
}

/// A gauge metric.
#[derive(Debug)]
pub struct GaugeMetric {
    pub key: String,
    /// The value of the gauge, a 64-bit float.
    pub value: u64,
}

/// A set of metrics.
#[derive(Debug)]
pub struct Metrics {
    /// The load value of the worker, a 64-bit float. `None`: no load is
    /// reported.
    pub load: Option<u64>,
    pub gauge_metrics: Vec<GaugeMetric>,
    pub histogram_metrics: Vec<HistogramMetric>,
}

/// A gauge metric as the transport hands it over.
pub struct RawGaugeMetric {
    pub key: Vec<u8>,
    pub value: u64,
}

/// A histogram metric as the transport hands it over.
pub struct RawHistogramMetric {
    pub key: Vec<u8>,
    pub sum: u64,
    pub buckets: Vec<HistogramMetricBucket>,
}

/// A set of metrics as the transport hands it over.
pub struct RawMetrics {
    pub load: Option<u64>,
    pub gauge_metrics: Vec<RawGaugeMetric>,
    pub histogram_metrics: Vec<RawHistogramMetric>,
}

/// Whether `gauge` is what `raw` stands for.
pub open spec fn gauge_of(raw: RawGaugeMetric, gauge: GaugeMetric) -> bool {
    spells(raw.key@, gauge.key@) && gauge.value == raw.value
}

/// Whether `histogram` is what `raw` stands for.
pub open spec fn histogram_of(raw: RawHistogramMetric, histogram: HistogramMetric) -> bool {
    &&& spells(raw.key@, histogram.key@)
    &&& histogram.sum == raw.sum
    &&& histogram.buckets@ == raw.buckets@
}

/// Whether every key of `raw` is well-formed UTF-8.
pub open spec fn keys_valid(raw: RawMetrics) -> bool {
    &&& forall|i: int|
        0 <= i < raw.gauge_metrics@.len() ==> valid_utf8((#[trigger] raw.gauge_metrics@[i]).key@)
    &&& forall|i: int|
        0 <= i < raw.histogram_metrics@.len() ==> valid_utf8(
            (#[trigger] raw.histogram_metrics@[i]).key@,
        )
}

/// Whether `metrics` is what `raw` stands for: the same load, and gauge for
/// gauge and histogram for histogram the same metric, in the same order.
pub open spec fn metrics_of(raw: RawMetrics, metrics: Metrics) -> bool {
    &&& metrics.load == raw.load
    &&& metrics.gauge_metrics@.len() == raw.gauge_metrics@.len()
    &&& forall|i: int|
        0 <= i < raw.gauge_metrics@.len() ==> gauge_of(
            raw.gauge_metrics@[i],
            #[trigger] metrics.gauge_metrics@[i],
        )
    &&& metrics.histogram_metrics@.len() == raw.histogram_metrics@.len()
    &&& forall|i: int|
        0 <= i < raw.histogram_metrics@.len() ==> histogram_of(
            raw.histogram_metrics@[i],
            #[trigger] metrics.histogram_metrics@[i],
        )
}

/// Whether `raw` is the record of `gauge`: the key as its UTF-8 bytes, the
/// value as it is.
pub open spec fn gauge_record(gauge: GaugeMetric, raw: RawGaugeMetric) -> bool {
    raw.key@ == encode_utf8(gauge.key@) && raw.value == gauge.value
}

/// Whether `raw` is the record of `histogram`: the key as its UTF-8 bytes,
/// the sum and the buckets as they are.
pub open spec fn histogram_record(histogram: HistogramMetric, raw: RawHistogramMetric) -> bool {
    &&& raw.key@ == encode_utf8(histogram.key@)
    &&& raw.sum == histogram.sum
    &&& raw.buckets@ == histogram.buckets@
}

/// Whether a key of `metrics` holds a zero byte.
pub open spec fn some_key_has_zero_byte(metrics: Metrics) -> bool {
    ||| exists|i: int|
        0 <= i < metrics.gauge_metrics@.len() && has_zero_byte(
            encode_utf8((#[trigger] metrics.gauge_metrics@[i]).key@),
        )
    ||| exists|i: int|
        0 <= i < metrics.histogram_metrics@.len() && has_zero_byte(
            encode_utf8((#[trigger] metrics.histogram_metrics@[i]).key@),
        )
}

/// Whether `raw` is the record of `metrics`: the same load, and gauge for
/// gauge and histogram for histogram the record of the metric, in the same
/// order.
pub open spec fn metrics_record(metrics: Metrics, raw: RawMetrics) -> bool {
    &&& raw.load == metrics.load
    &&& raw.gauge_metrics@.len() == metrics.gauge_metrics@.len()
    &&& forall|i: int|
        0 <= i < metrics.gauge_metrics@.len() ==> gauge_record(
            metrics.gauge_metrics@[i],
            #[trigger] raw.gauge_metrics@[i],
        )
    &&& raw.histogram_metrics@.len() == metrics.histogram_metrics@.len()
    &&& forall|i: int|
        0 <= i < metrics.histogram_metrics@.len() ==> histogram_record(
            metrics.histogram_metrics@[i],
            #[trigger] raw.histogram_metrics@[i],
        )
}

impl Metrics {
    /// The metrics as they are handed to the transport. The transport ends
    /// each key with a zero byte, so there is no record exactly when a key
    /// holds one.
    pub fn encode(&self) -> (r: Option<RawMetrics>)
        ensures
            match r {
                Some(raw) => metrics_record(*self, raw) && !some_key_has_zero_byte(*self),
                None => some_key_has_zero_byte(*self),
            },
    {
        let mut gauge_metrics: Vec<RawGaugeMetric> = Vec::new();
        let mut i: usize = 0;
        while i < self.gauge_metrics.len()
            invariant
                i <= self.gauge_metrics@.len(),
                gauge_metrics@.len() == i,
                forall|j: int|
                    0 <= j < i ==> gauge_record(
                        self.gauge_metrics@[j],
                        #[trigger] gauge_metrics@[j],
                    ),
                forall|j: int|
                    0 <= j < i ==> !has_zero_byte(
                        encode_utf8((#[trigger] self.gauge_metrics@[j]).key@),
                    ),
            decreases self.gauge_metrics@.len() - i,
        {
            let gauge = &self.gauge_metrics[i];
            let key = gauge.key.as_str().as_bytes();
            if contains_zero_byte(key) {
                return None;
            }
            gauge_metrics.push(RawGaugeMetric { key: slice_to_vec(key), value: gauge.value });
            i = i + 1;
        }
        let mut histogram_metrics: Vec<RawHistogramMetric> = Vec::new();
        let mut k: usize = 0;
        while k < self.histogram_metrics.len()
            invariant
                k <= self.histogram_metrics@.len(),
                histogram_metrics@.len() == k,
                forall|j: int|
                    0 <= j < k ==> histogram_record(
                        self.histogram_metrics@[j],
                        #[trigger] histogram_metrics@[j],
                    ),
                forall|j: int|
                    0 <= j < k ==> !has_zero_byte(
                        encode_utf8((#[trigger] self.histogram_metrics@[j]).key@),
                    ),
            decreases self.histogram_metrics@.len() - k,
        {
            let histogram = &self.histogram_metrics[k];
            let key = histogram.key.as_str().as_bytes();
            if contains_zero_byte(key) {
                return None;
            }
            histogram_metrics.push(
                RawHistogramMetric {
                    key: slice_to_vec(key),
                    sum: histogram.sum,
                    buckets: slice_to_vec(histogram.buckets.as_slice()),
                },
            );
            k = k + 1;
        }
        Some(RawMetrics { load: self.load, gauge_metrics, histogram_metrics })
    }

    /// Decodes a set of metrics. It fails, with `Encoding`, exactly when a
    /// key is not well-formed UTF-8.
    pub fn decode(raw: &RawMetrics) -> (r: Result<Metrics, DecodeError>)
        ensures
            match r {
                Ok(metrics) => metrics_of(*raw, metrics),
                Err(e) => e == DecodeError::Encoding && !keys_valid(*raw),
            },
    {
        let mut gauge_metrics: Vec<GaugeMetric> = Vec::new();
        let mut i: usize = 0;
        while i < raw.gauge_metrics.len()
            invariant
                i <= raw.gauge_metrics@.len(),
                gauge_metrics@.len() == i,
                forall|j: int|
                    0 <= j < i ==> gauge_of(raw.gauge_metrics@[j], #[trigger] gauge_metrics@[j]),
            decreases raw.gauge_metrics@.len() - i,
        {
            let gauge = &raw.gauge_metrics[i];
            match decode_text(gauge.key.as_slice()) {
                Some(key) => gauge_metrics.push(GaugeMetric { key, value: gauge.value }),
                None => {
                    return Err(DecodeError::Encoding);
                },
            }
            i = i + 1;
        }
        let mut histogram_metrics: Vec<HistogramMetric> = Vec::new();
        let mut k: usize = 0;
        while k < raw.histogram_metrics.len()
            invariant
                k <= raw.histogram_metrics@.len(),
                histogram_metrics@.len() == k,
                forall|j: int|
                    0 <= j < k ==> histogram_of(
                        raw.histogram_metrics@[j],
                        #[trigger] histogram_metrics@[j],
                    ),
            decreases raw.histogram_metrics@.len() - k,
        {
            let histogram = &raw.histogram_metrics[k];
            match decode_text(histogram.key.as_slice()) {
                Some(key) => histogram_metrics.push(
                    HistogramMetric {
                        key,
                        sum: histogram.sum,
                        buckets: slice_to_vec(histogram.buckets.as_slice()),
                    },
                ),
                None => {
                    return Err(DecodeError::Encoding);
                },
            }
            k = k + 1;
        }
        Ok(Metrics { load: raw.load, gauge_metrics, histogram_metrics })
    }
}

} // verus!
