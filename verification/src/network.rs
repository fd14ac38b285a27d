//! Network throughput from cumulative byte counters.

use crate::ratio::{saturated, scaled_div, scaled_quotient};
use crate::text::{fields_of, number_at, number_in, split_fields, tail};
use vstd::prelude::*;

verus! {

/// What the network probe reads in one cycle: bytes received and sent
/// since boot, over all interfaces.
#[derive(Clone, Copy, Debug, PartialEq, Eq)]
pub struct NetworkSample {
    pub total_rx: u64,
    pub total_tx: u64,
}

/// The network reading of a snapshot: receive and transmit rates in bytes
/// per second, and the cumulative totals that the next cycle's rates are
/// measured from.
#[derive(Clone, Copy, Debug, PartialEq, Eq)]
pub struct NetworkHarvest {
    pub rx: u64,
    pub tx: u64,
    pub total_rx: u64,
    pub total_tx: u64,
}

/// Bytes per second over an interval of `elapsed_ms` milliseconds in which
/// a counter went from `prev_total` to `cur_total`, rounded down and
/// saturating at `u64::MAX`. A counter that went down was reset: the rate
/// is `0`. So it is for an interval of no length.
pub open spec fn transfer_rate(prev_total: u64, cur_total: u64, elapsed_ms: u64) -> u64 {
    if cur_total < prev_total {
        0
    } else {
        saturated(scaled_quotient((cur_total - prev_total) as nat, 1000, elapsed_ms as nat))
    }
}

/// The network reading of a cycle, given the totals that the previous cycle
/// left behind. The sample's totals become the new baseline in every case.
pub open spec fn network_reading(
    prev_rx_total: u64,
    prev_tx_total: u64,
    sample: NetworkSample,
    elapsed_ms: u64,
) -> NetworkHarvest {
    NetworkHarvest {
        rx: transfer_rate(prev_rx_total, sample.total_rx, elapsed_ms),
        tx: transfer_rate(prev_tx_total, sample.total_tx, elapsed_ms),
        total_rx: sample.total_rx,
        total_tx: sample.total_tx,
    }
}

/// Over whole seconds, the rate is the counter's growth divided by the
/// seconds.
pub proof fn lemma_transfer_rate_over_seconds(prev_total: u64, cur_total: u64, seconds: u64)
    requires
        prev_total <= cur_total,
        0 < seconds,
        seconds * 1000 <= u64::MAX,
    ensures
        transfer_rate(prev_total, cur_total, (seconds * 1000) as u64) == (cur_total - prev_total)
            / (seconds as int),
{
    let growth = (cur_total - prev_total) as nat;
    assert((growth * 1000) / ((seconds * 1000) as nat) == growth / (seconds as nat))
        by (nonlinear_arith)
        requires
            seconds > 0,
    ;
    assert(growth / (seconds as nat) <= growth) by (nonlinear_arith)
        requires
            seconds > 0,
    ;
}

/// A counter that went down gives rate `0`, and the reading carries the
/// new, smaller total as the baseline.
pub proof fn lemma_counter_reset(
    prev_rx_total: u64,
    prev_tx_total: u64,
    sample: NetworkSample,
    elapsed_ms: u64,
)
    ensures
        ({
            let reading = network_reading(prev_rx_total, prev_tx_total, sample, elapsed_ms);
            &&& sample.total_rx < prev_rx_total ==> reading.rx == 0
            &&& sample.total_tx < prev_tx_total ==> reading.tx == 0
            &&& reading.total_rx == sample.total_rx
            &&& reading.total_tx == sample.total_tx
        }),
{
}

/// Computes the rate of one counter.
pub fn rate_of(prev_total: u64, cur_total: u64, elapsed_ms: u64) -> (rate: u64)
    ensures
        rate == transfer_rate(prev_total, cur_total, elapsed_ms),
{
    if cur_total < prev_total {
        0
    } else {
        scaled_div(cur_total - prev_total, 1000, elapsed_ms as u128)
    }
}

/// Computes the network reading of a cycle.
pub fn read_network(
    prev_rx_total: u64,
    prev_tx_total: u64,
    sample: NetworkSample,
    elapsed_ms: u64,
) -> (harvest: NetworkHarvest)
    ensures
        harvest == network_reading(prev_rx_total, prev_tx_total, sample, elapsed_ms),
{
    NetworkHarvest {
        rx: rate_of(prev_rx_total, sample.total_rx, elapsed_ms),
        tx: rate_of(prev_tx_total, sample.total_tx, elapsed_ms),
        total_rx: sample.total_rx,
        total_tx: sample.total_tx,
    }
}

/// The counter that a kernel file of one value holds: the file's one and
/// only field, an unsigned decimal.
pub open spec fn counter_of(text: Seq<u8>) -> Option<u64> {
    if fields_of(text).len() == 1 {
        number_in(fields_of(text), 0)
    } else {
        None
    }
}

/// Reads the counter out of a kernel file of one value.
pub fn parse_counter(bytes: &[u8]) -> (counter: Option<u64>)
    ensures
        counter == counter_of(bytes@),
{
    proof {
        assert(tail(bytes@, 0) =~= bytes@);
    }
    let fields = split_fields(bytes, 0);
    if fields.len() == 1 {
        number_at(&fields, 0)
    } else {
        None
    }
}

impl NetworkSample {
    /// These totals with one more interface counted in, each side
    /// saturating at `u64::MAX`.
    pub open spec fn with_interface(self, rx: u64, tx: u64) -> NetworkSample {
        NetworkSample {
            total_rx: saturated((self.total_rx + rx) as nat),
            total_tx: saturated((self.total_tx + tx) as nat),
        }
    }

    /// Counts one more interface into these totals.
    pub fn add_interface(&mut self, rx: u64, tx: u64)
        ensures
            *final(self) == old(self).with_interface(rx, tx),
    {
        self.total_rx = self.total_rx.saturating_add(rx);
        self.total_tx = self.total_tx.saturating_add(tx);
    }
}

impl NetworkHarvest {
    /// This reading with both rates at `0` and the totals kept.
    pub open spec fn without_rates(self) -> NetworkHarvest {
        NetworkHarvest { rx: 0, tx: 0, total_rx: self.total_rx, total_tx: self.total_tx }
    }

    /// Drops the rates of a seed reading, which were measured from nothing,
    /// and keeps its totals as the baseline.
    pub fn first_run_cleanup(&mut self)
        ensures
            *final(self) == old(self).without_rates(),
    {
        self.rx = 0;
        self.tx = 0;
    }
}

} // verus!
