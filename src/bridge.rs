//! The decisions of the message-consumption loop: what to do with each bus
//! event, and the tally of what was done.
use vstd::prelude::*;

use crate::channel::{Channel, SensorIds, sensor_id_of, sensor_ids_distinct};
use crate::report::{
    Measurement, ParseError, Readings, WireReport, measurements_of, measurements_spec, naive_datetime_of,
    normalize, reading_of, report_of,
};

verus! {

/// The identifiers resolved once at startup and used for every message.
#[derive(Debug, Clone, Copy, PartialEq, Eq, Structural)]
pub struct BridgeContext {
    pub device_id: crate::DeviceId,
    pub sensor_ids: SensorIds,
}

/// One event of the bus connection, as the bus client delivered it.
#[derive(Debug, Clone)]
pub enum BusEvent {
    /// A published message whose payload decoded as a report.
    Publish(WireReport),
    /// A published message whose payload did not decode.
    Undecodable,
    /// Any other incoming packet.
    OtherIncoming,
    /// An outgoing packet (acknowledgement, keep-alive).
    Outgoing,
    /// The connection layer reported an error.
    TransportError,
}

/// What the loop does for one event.
#[derive(Debug)]
pub enum LoopAction {
    /// Write these measurements, in this order.
    Dispatch(Vec<Measurement>),
    /// Drop the message and report why.
    Drop(ParseError),
    /// Report the transport error and go on.
    ReportTransportError,
    /// Nothing to do.
    Ignore,
}

/// The mathematical form of a `LoopAction`.
pub enum Outcome {
    Dispatched(Seq<Measurement>),
    Dropped(ParseError),
    TransportFailed,
    Ignored,
}

impl View for LoopAction {
    type V = Outcome;

    open spec fn view(&self) -> Outcome {
        match self {
            LoopAction::Dispatch(v) => Outcome::Dispatched(v@),
            LoopAction::Drop(e) => Outcome::Dropped(*e),
            LoopAction::ReportTransportError => Outcome::TransportFailed,
            LoopAction::Ignore => Outcome::Ignored,
        }
    }
}

/// Counts of what the loop has done; each saturates at `u64::MAX`.
#[derive(Debug, Clone, Copy, PartialEq, Eq, Structural)]
pub struct BridgeStats {
    pub dispatched: u64,
    pub dropped: u64,
    pub transport_errors: u64,
    pub writes_ok: u64,
    pub writes_failed: u64,
}

/// The loop's context and its tally.
#[derive(Debug, Clone, Copy)]
pub struct Bridge {
    pub context: BridgeContext,
    pub stats: BridgeStats,
}

pub open spec fn bump(x: u64) -> u64 {
    if x < u64::MAX { (x + 1) as u64 } else { x }
}

fn bump_exec(x: u64) -> (r: u64)
    ensures
        r == bump(x),
{
    if x < u64::MAX { x + 1 } else { x }
}

/// What the loop does for event `ev`.
pub open spec fn outcome_of(ctx: BridgeContext, ev: BusEvent) -> Outcome {
    match ev {
        BusEvent::Publish(w) => match report_of(w, naive_datetime_of(w.time@)) {
            Ok(rep) => Outcome::Dispatched(measurements_spec(ctx.device_id, ctx.sensor_ids, rep.readings)),
            Err(e) => Outcome::Dropped(e),
        },
        BusEvent::Undecodable => Outcome::Dropped(ParseError::Decode),
        BusEvent::TransportError => Outcome::TransportFailed,
        _ => Outcome::Ignored,
    }
}

/// The tally after handling event `ev`.
pub open spec fn next_stats(s: BridgeStats, ctx: BridgeContext, ev: BusEvent) -> BridgeStats {
    match outcome_of(ctx, ev) {
        Outcome::Dispatched(_) => BridgeStats { dispatched: bump(s.dispatched), ..s },
        Outcome::Dropped(_) => BridgeStats { dropped: bump(s.dropped), ..s },
        Outcome::TransportFailed => BridgeStats { transport_errors: bump(s.transport_errors), ..s },
        Outcome::Ignored => s,
    }
}

/// The tally after handling the events `evs` in order.
pub open spec fn run_stats(s: BridgeStats, ctx: BridgeContext, evs: Seq<BusEvent>) -> BridgeStats
    decreases evs.len(),
{
    if evs.len() == 0 {
        s
    } else {
        next_stats(run_stats(s, ctx, evs.drop_last()), ctx, evs.last())
    }
}

/// A published message that decodes and whose time parses.
pub open spec fn well_formed_event(ev: BusEvent) -> bool {
    ev matches BusEvent::Publish(w) && naive_datetime_of(w.time@) is Some
}

/// A published message that is dropped: it did not decode, or its time does not parse.
pub open spec fn malformed_event(ev: BusEvent) -> bool {
    ev is Undecodable || (ev matches BusEvent::Publish(w) && naive_datetime_of(w.time@) is None)
}

impl Bridge {
    /// A bridge over resolved identifiers that has handled nothing yet.
    pub fn new(context: BridgeContext) -> (r: Self)
        ensures
            r.context == context,
            r.stats == (BridgeStats { dispatched: 0, dropped: 0, transport_errors: 0, writes_ok: 0, writes_failed: 0 }),
    {
        Bridge {
            context,
            stats: BridgeStats { dispatched: 0, dropped: 0, transport_errors: 0, writes_ok: 0, writes_failed: 0 },
        }
    }

    /// Decides what to do with one bus event and tallies it. No event stops the loop.
    pub fn handle_event(&mut self, ev: BusEvent) -> (r: LoopAction)
        ensures
            r@ == outcome_of(old(self).context, ev),
            final(self).context == old(self).context,
            final(self).stats == next_stats(old(self).stats, old(self).context, ev),
    {
        match ev {
            BusEvent::Publish(w) => match normalize(w) {
                Ok(rep) => {
                    self.stats.dispatched = bump_exec(self.stats.dispatched);
                    LoopAction::Dispatch(
                        measurements_of(self.context.device_id, &self.context.sensor_ids, &rep.readings),
                    )
                },
                Err(e) => {
                    self.stats.dropped = bump_exec(self.stats.dropped);
                    LoopAction::Drop(e)
                },
            },
            BusEvent::Undecodable => {
                self.stats.dropped = bump_exec(self.stats.dropped);
                LoopAction::Drop(ParseError::Decode)
            },
            BusEvent::TransportError => {
                self.stats.transport_errors = bump_exec(self.stats.transport_errors);
                LoopAction::ReportTransportError
            },
            _ => LoopAction::Ignore,
        }
    }

    /// Tallies the result of one measurement write; a failed write is
    /// reported and the loop goes on.
    pub fn record_write(&mut self, ok: bool)
        ensures
            final(self).context == old(self).context,
            final(self).stats == if ok {
                BridgeStats { writes_ok: bump(old(self).stats.writes_ok), ..old(self).stats }
            } else {
                BridgeStats { writes_failed: bump(old(self).stats.writes_failed), ..old(self).stats }
            },
    {
        if ok {
            self.stats.writes_ok = bump_exec(self.stats.writes_ok);
        } else {
            self.stats.writes_failed = bump_exec(self.stats.writes_failed);
        }
    }
}

/// A well-formed report decomposes into exactly four measurements, all of the
/// context's device, one per channel with that channel's sensor identifier and
/// its reading copied verbatim; with distinct sensor identifiers, the four
/// measurements name four distinct sensors.
pub proof fn lemma_decomposition(ctx: BridgeContext, ev: BusEvent)
    requires
        well_formed_event(ev),
    ensures
        outcome_of(ctx, ev) matches Outcome::Dispatched(ms) && {
            let readings = ev->Publish_0.readings;
            &&& ms.len() == 4
            &&& forall|i: int| 0 <= i < 4 ==> #[trigger] ms[i].device == ctx.device_id
            &&& ms[0].sensor == ctx.sensor_ids.ds18b20 && ms[0].measurement == readings.ds18b20_temperature
            &&& ms[1].sensor == ctx.sensor_ids.dht11_temperature && ms[1].measurement == readings.dht11_temperature
            &&& ms[2].sensor == ctx.sensor_ids.dht11_humidity && ms[2].measurement == readings.dht11_humidity
            &&& ms[3].sensor == ctx.sensor_ids.dht11_dew_point && ms[3].measurement == readings.dht11_dew_point
            &&& sensor_ids_distinct(ctx.sensor_ids) ==> forall|i: int, j: int|
                0 <= i < 4 && 0 <= j < 4 && i != j ==> #[trigger] ms[i].sensor != #[trigger] ms[j].sensor
        },
{
    let readings = ev->Publish_0.readings;
    let ms = measurements_spec(ctx.device_id, ctx.sensor_ids, readings);
    assert(ms.len() == 4);
    assert(ms[0].sensor == sensor_id_of(ctx.sensor_ids, Channel::Ds18b20));
    assert(ms[1].sensor == sensor_id_of(ctx.sensor_ids, Channel::Dht11Temperature));
    assert(ms[2].sensor == sensor_id_of(ctx.sensor_ids, Channel::Dht11Humidity));
    assert(ms[3].sensor == sensor_id_of(ctx.sensor_ids, Channel::Dht11DewPoint));
    assert(ms[0].measurement == reading_of(readings, Channel::Ds18b20));
    assert(ms[1].measurement == reading_of(readings, Channel::Dht11Temperature));
    assert(ms[2].measurement == reading_of(readings, Channel::Dht11Humidity));
    assert(ms[3].measurement == reading_of(readings, Channel::Dht11DewPoint));
    if sensor_ids_distinct(ctx.sensor_ids) {
        assert(sensor_id_of(ctx.sensor_ids, Channel::Ds18b20) != sensor_id_of(ctx.sensor_ids, Channel::Dht11Temperature));
        assert(sensor_id_of(ctx.sensor_ids, Channel::Ds18b20) != sensor_id_of(ctx.sensor_ids, Channel::Dht11Humidity));
        assert(sensor_id_of(ctx.sensor_ids, Channel::Ds18b20) != sensor_id_of(ctx.sensor_ids, Channel::Dht11DewPoint));
        assert(sensor_id_of(ctx.sensor_ids, Channel::Dht11Temperature) != sensor_id_of(ctx.sensor_ids, Channel::Dht11Humidity));
        assert(sensor_id_of(ctx.sensor_ids, Channel::Dht11Temperature) != sensor_id_of(ctx.sensor_ids, Channel::Dht11DewPoint));
        assert(sensor_id_of(ctx.sensor_ids, Channel::Dht11Humidity) != sensor_id_of(ctx.sensor_ids, Channel::Dht11DewPoint));
    }
}

/// One malformed message between two well-formed ones: the loop handles all
/// three, dispatches four measurements for each well-formed one, drops the
/// malformed one with its parse failure recorded, and tallies two dispatches
/// and one drop.
pub proof fn lemma_malformed_isolated(s: BridgeStats, ctx: BridgeContext, first: BusEvent, bad: BusEvent, last: BusEvent)
    requires
        well_formed_event(first),
        malformed_event(bad),
        well_formed_event(last),
        s.dispatched < u64::MAX - 1,
        s.dropped < u64::MAX,
    ensures
        outcome_of(ctx, first) matches Outcome::Dispatched(ms) && ms.len() == 4,
        outcome_of(ctx, bad) is Dropped,
        outcome_of(ctx, last) matches Outcome::Dispatched(ms) && ms.len() == 4,
        run_stats(s, ctx, seq![first, bad, last]) == (BridgeStats {
            dispatched: (s.dispatched + 2) as u64,
            dropped: (s.dropped + 1) as u64,
            ..s
        }),
{
    lemma_decomposition(ctx, first);
    lemma_decomposition(ctx, last);
    let evs = seq![first, bad, last];
    assert(evs.drop_last() =~= seq![first, bad]);
    assert(seq![first, bad].drop_last() =~= seq![first]);
    assert(seq![first].drop_last() =~= Seq::<BusEvent>::empty());
    assert(run_stats(s, ctx, Seq::<BusEvent>::empty()) == s);
    let s1 = run_stats(s, ctx, seq![first]);
    assert(s1 == next_stats(s, ctx, first));
    let s2 = run_stats(s, ctx, seq![first, bad]);
    assert(s2 == next_stats(s1, ctx, bad));
    assert(run_stats(s, ctx, evs) == next_stats(s2, ctx, last));
}

} // verus!
