//! Timing instrumentation. The transport exposes no connection phases, so
//! `dns` and `first_byte` are both approximated as the time to the first byte
//! minus the hop start, `download` as the end minus the first byte, and
//! `tcp`, `tls` and `request` are always absent; `total` mirrors `duration`.
use crate::types::{measure_ok, HopMeasure, ResponseTiming};
use vstd::prelude::*;

verus! {

/// The timing record of one hop, over its three clock readings.
pub open spec fn hop_timing_spec(m: HopMeasure) -> ResponseTiming {
    ResponseTiming {
        start: m.start,
        end: m.end,
        duration: (m.end - m.start) as u128,
        dns: Some((m.first_byte - m.start) as u128),
        tcp: None,
        tls: None,
        request: None,
        first_byte: Some((m.first_byte - m.start) as u128),
        download: Some((m.end - m.first_byte) as u128),
        total: (m.end - m.start) as u128,
    }
}

/// The clock readings of one whole exchange: the overall start before
/// normalization, the terminal hop's start and first byte, and the overall
/// end after the body was fully decoded.
pub struct OverallMeasure {
    pub start: u128,
    pub hop_start: u128,
    pub first_byte: u128,
    pub end: u128,
}

/// An overall measure is well formed when its clock readings are in order.
pub open spec fn overall_ok(t: OverallMeasure) -> bool {
    t.start <= t.hop_start <= t.first_byte <= t.end
}

/// The timing record of a whole exchange: duration and total span the whole
/// invocation, while the first-byte fields come from the terminal hop and the
/// download span runs from that first byte to the overall end.
pub open spec fn overall_timing_spec(t: OverallMeasure) -> ResponseTiming {
    ResponseTiming {
        start: t.start,
        end: t.end,
        duration: (t.end - t.start) as u128,
        dns: Some((t.first_byte - t.hop_start) as u128),
        tcp: None,
        tls: None,
        request: None,
        first_byte: Some((t.first_byte - t.hop_start) as u128),
        download: Some((t.end - t.first_byte) as u128),
        total: (t.end - t.start) as u128,
    }
}

/// Builds the timing record of one hop.
pub fn make_hop_timing(m: &HopMeasure) -> (t: ResponseTiming)
    requires
        measure_ok(*m),
    ensures
        t == hop_timing_spec(*m),
{
    ResponseTiming {
        start: m.start,
        end: m.end,
        duration: m.end - m.start,
        dns: Some(m.first_byte - m.start),
        tcp: None,
        tls: None,
        request: None,
        first_byte: Some(m.first_byte - m.start),
        download: Some(m.end - m.first_byte),
        total: m.end - m.start,
    }
}

/// Builds the timing record of a whole exchange.
pub fn make_overall_timing(t: &OverallMeasure) -> (r: ResponseTiming)
    requires
        overall_ok(*t),
    ensures
        r == overall_timing_spec(*t),
{
    ResponseTiming {
        start: t.start,
        end: t.end,
        duration: t.end - t.start,
        dns: Some(t.first_byte - t.hop_start),
        tcp: None,
        tls: None,
        request: None,
        first_byte: Some(t.first_byte - t.hop_start),
        download: Some(t.end - t.first_byte),
        total: t.end - t.start,
    }
}

} // verus!
