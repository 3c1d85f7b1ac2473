//! The calls of one polling cycle, and their order.
//!
//! A cycle is a run of calls to devices. Which call comes next depends on
//! the call before it and, after a read, on whether the read went well; it
//! never depends on how a send or an execute went. That is all there is to
//! the isolation of failures, and this file states it: first as one step,
//! then as the whole run of calls that the steps make.
use vstd::prelude::*;

verus! {

/// One call of a cycle, by the place of its device among those registered.
#[derive(Debug, Clone, Copy, PartialEq, Eq, Structural)]
pub enum CycleCall {
    /// Read this sensor.
    Read { sensor: usize },
    /// Send the reading of this sensor to the communicator.
    Send { sensor: usize },
    /// Hand the reading of this sensor to this actuator.
    Execute { sensor: usize, actuator: usize },
    /// The cycle is over.
    Finish,
}

/// What follows the last call made for a sensor: the read of the next
/// sensor, or the end of the cycle after the last one.
pub open spec fn after_sensor(sensors: nat, sensor: usize) -> CycleCall {
    if sensor + 1 < sensors {
        CycleCall::Read { sensor: (sensor + 1) as usize }
    } else {
        CycleCall::Finish
    }
}

/// The call that follows `last`, with `None` for the start of a cycle.
/// `read_ok` counts only after a read, and says whether it went well.
///
/// The first sensor is read first. A reading is sent, then handed to each
/// actuator in turn; a read that failed is followed by the next sensor's.
/// What follows a send or an execute is the same however it went.
pub open spec fn cycle_next(sensors: nat, actuators: nat, last: Option<CycleCall>, read_ok: bool)
    -> CycleCall {
    match last {
        None => if sensors > 0 {
            CycleCall::Read { sensor: 0 }
        } else {
            CycleCall::Finish
        },
        Some(CycleCall::Read { sensor }) => if read_ok {
            CycleCall::Send { sensor }
        } else {
            after_sensor(sensors, sensor)
        },
        Some(CycleCall::Send { sensor }) => if actuators > 0 {
            CycleCall::Execute { sensor, actuator: 0 }
        } else {
            after_sensor(sensors, sensor)
        },
        Some(CycleCall::Execute { sensor, actuator }) => if actuator + 1 < actuators {
            CycleCall::Execute { sensor, actuator: (actuator + 1) as usize }
        } else {
            after_sensor(sensors, sensor)
        },
        Some(CycleCall::Finish) => CycleCall::Finish,
    }
}

/// Says which call follows `last` in a cycle over so many sensors and
/// actuators.
pub fn cycle_step(sensors: usize, actuators: usize, last: Option<CycleCall>, read_ok: bool) -> (next:
    CycleCall)
    ensures
        next == cycle_next(sensors as nat, actuators as nat, last, read_ok),
{
    let sensor: usize = match last {
        None => {
            return if sensors > 0 {
                CycleCall::Read { sensor: 0 }
            } else {
                CycleCall::Finish
            };
        },
        Some(CycleCall::Finish) => {
            return CycleCall::Finish;
        },
        Some(CycleCall::Read { sensor }) => {
            if read_ok {
                return CycleCall::Send { sensor };
            }
            sensor
        },
        Some(CycleCall::Send { sensor }) => {
            if actuators > 0 {
                return CycleCall::Execute { sensor, actuator: 0 };
            }
            sensor
        },
        Some(CycleCall::Execute { sensor, actuator }) => {
            if actuators > 0 && actuator < actuators - 1 {
                return CycleCall::Execute { sensor, actuator: actuator + 1 };
            }
            sensor
        },
    };
    if sensors > 0 && sensor < sensors - 1 {
        CycleCall::Read { sensor: sensor + 1 }
    } else {
        CycleCall::Finish
    }
}

/// No failure of the communicator or of an actuator changes what is called
/// next: after a send comes the first actuator, after an actuator the next
/// one, and after the last the next sensor, however the call went.
pub proof fn lemma_failures_change_nothing(
    sensors: nat,
    actuators: nat,
    last: CycleCall,
    went_well: bool,
)
    requires
        last is Send || last is Execute,
    ensures
        cycle_next(sensors, actuators, Some(last), went_well) == cycle_next(
            sensors,
            actuators,
            Some(last),
            !went_well,
        ),
        last matches CycleCall::Send { sensor } ==> (actuators > 0 ==> cycle_next(
            sensors,
            actuators,
            Some(last),
            went_well,
        ) == (CycleCall::Execute { sensor, actuator: 0 })),
        last matches CycleCall::Execute { sensor, actuator } ==> (actuator + 1 < actuators
            ==> cycle_next(sensors, actuators, Some(last), went_well) == (CycleCall::Execute {
            sensor,
            actuator: (actuator + 1) as usize,
        })),
{
}

/// The calls made for one sensor: its read and, where the read went well, the
/// send of the reading and its hand-over to every actuator in the order of
/// registration.
pub open spec fn calls_for(sensor: usize, read_ok: bool, actuators: nat) -> Seq<CycleCall> {
    if read_ok {
        seq![CycleCall::Read { sensor }, CycleCall::Send { sensor }] + Seq::new(
            actuators,
            |j: int| CycleCall::Execute { sensor, actuator: j as usize },
        )
    } else {
        seq![CycleCall::Read { sensor }]
    }
}

/// The calls of a whole cycle in which the reads go as `reads_ok` says, one
/// entry for each sensor: the calls for the first sensor, then those for the
/// second, and so on.
pub open spec fn cycle_calls(reads_ok: Seq<bool>, actuators: nat) -> Seq<CycleCall>
    decreases reads_ok.len(),
{
    if reads_ok.len() == 0 {
        Seq::empty()
    } else {
        cycle_calls(reads_ok.drop_last(), actuators) + calls_for(
            (reads_ok.len() - 1) as usize,
            reads_ok.last(),
            actuators,
        )
    }
}

/// The sensor that a call is made for; -1 for the end of the cycle.
pub open spec fn sensor_of(call: CycleCall) -> int {
    match call {
        CycleCall::Read { sensor } => sensor as int,
        CycleCall::Send { sensor } => sensor as int,
        CycleCall::Execute { sensor, .. } => sensor as int,
        CycleCall::Finish => -1,
    }
}

/// Whether `call` was a read that went well.
pub open spec fn went_well(reads_ok: Seq<bool>, call: CycleCall) -> bool {
    call matches CycleCall::Read { sensor } && sensor < reads_ok.len() && reads_ok[sensor as int]
}

/// The call that the steps ask for once the calls of `made` have been made.
pub open spec fn next_after(reads_ok: Seq<bool>, actuators: nat, made: Seq<CycleCall>) -> CycleCall {
    if made.len() == 0 {
        cycle_next(reads_ok.len(), actuators, None, false)
    } else {
        cycle_next(reads_ok.len(), actuators, Some(made.last()), went_well(reads_ok, made.last()))
    }
}

proof fn lemma_own_calls(sensor: usize, read_ok: bool, actuators: nat)
    requires
        actuators <= usize::MAX,
    ensures
        calls_for(sensor, read_ok, actuators).len() == (if read_ok {
            2 + actuators
        } else {
            1
        }),
        calls_for(sensor, read_ok, actuators)[0] == (CycleCall::Read { sensor }),
        read_ok ==> calls_for(sensor, read_ok, actuators)[1] == (CycleCall::Send { sensor }),
        forall|j: int|
            read_ok && 0 <= j < actuators ==> #[trigger] calls_for(sensor, read_ok, actuators)[2
                + j] == (CycleCall::Execute { sensor, actuator: j as usize }),
        forall|q: int|
            0 <= q < calls_for(sensor, read_ok, actuators).len() ==> sensor_of(
                #[trigger] calls_for(sensor, read_ok, actuators)[q],
            ) == sensor,
{
    let own = calls_for(sensor, read_ok, actuators);
    if read_ok {
        let head = seq![CycleCall::Read { sensor }, CycleCall::Send { sensor }];
        let tail = Seq::new(actuators, |j: int| CycleCall::Execute { sensor, actuator: j as usize });
        assert(own == head + tail);
        assert forall|j: int| 0 <= j < actuators implies #[trigger] own[2 + j] == (
        CycleCall::Execute { sensor, actuator: j as usize }) by {
            assert(own[2 + j] == tail[j]);
        }
        assert forall|q: int| 0 <= q < own.len() implies sensor_of(#[trigger] own[q])
            == sensor by {
            if q >= 2 {
                assert(own[q] == tail[q - 2]);
            }
        }
    }
}

proof fn lemma_own_steps(reads_ok: Seq<bool>, actuators: nat, sensor: usize)
    requires
        reads_ok.len() <= usize::MAX,
        actuators <= usize::MAX,
        sensor < reads_ok.len(),
    ensures
        forall|q: int|
            1 <= q < calls_for(sensor, reads_ok[sensor as int], actuators).len()
                ==> #[trigger] calls_for(sensor, reads_ok[sensor as int], actuators)[q]
                == cycle_next(
                reads_ok.len(),
                actuators,
                Some(calls_for(sensor, reads_ok[sensor as int], actuators)[q - 1]),
                went_well(reads_ok, calls_for(sensor, reads_ok[sensor as int], actuators)[q - 1]),
            ),
        cycle_next(
            reads_ok.len(),
            actuators,
            Some(calls_for(sensor, reads_ok[sensor as int], actuators).last()),
            went_well(reads_ok, calls_for(sensor, reads_ok[sensor as int], actuators).last()),
        ) == after_sensor(reads_ok.len(), sensor),
{
    let ok = reads_ok[sensor as int];
    let own = calls_for(sensor, ok, actuators);
    lemma_own_calls(sensor, ok, actuators);
    if ok {
        assert forall|q: int| 1 <= q < own.len() implies #[trigger] own[q] == cycle_next(
            reads_ok.len(),
            actuators,
            Some(own[q - 1]),
            went_well(reads_ok, own[q - 1]),
        ) by {
            if q == 1 {
            } else if q == 2 {
                let first: int = 0;
                assert(own[2 + first] == (CycleCall::Execute { sensor, actuator: first as usize }));
            } else {
                let j = q - 2;
                assert(own[2 + j] == (CycleCall::Execute { sensor, actuator: j as usize }));
                assert(own[2 + (j - 1)] == (CycleCall::Execute {
                    sensor,
                    actuator: (j - 1) as usize,
                }));
            }
        }
        if actuators > 0 {
            let j = actuators - 1;
            assert(own[2 + j] == (CycleCall::Execute { sensor, actuator: j as usize }));
        }
    }
}

proof fn lemma_calls_named(reads_ok: Seq<bool>, actuators: nat)
    requires
        reads_ok.len() <= usize::MAX,
        actuators <= usize::MAX,
    ensures
        forall|p: int|
            0 <= p < cycle_calls(reads_ok, actuators).len() ==> 0 <= sensor_of(
                #[trigger] cycle_calls(reads_ok, actuators)[p],
            ) < reads_ok.len(),
    decreases reads_ok.len(),
{
    if reads_ok.len() > 0 {
        let calls = cycle_calls(reads_ok, actuators);
        let before = cycle_calls(reads_ok.drop_last(), actuators);
        let sensor = (reads_ok.len() - 1) as usize;
        let own = calls_for(sensor, reads_ok.last(), actuators);
        lemma_calls_named(reads_ok.drop_last(), actuators);
        lemma_own_calls(sensor, reads_ok.last(), actuators);
        assert forall|p: int| 0 <= p < calls.len() implies 0 <= sensor_of(#[trigger] calls[p])
            < reads_ok.len() by {
            if p < before.len() {
                assert(calls[p] == before[p]);
            } else {
                assert(calls[p] == own[p - before.len()]);
            }
        }
    }
}

proof fn lemma_calls_grow(reads_ok: Seq<bool>, actuators: nat, k: int)
    requires
        reads_ok.len() <= usize::MAX,
        actuators <= usize::MAX,
        0 <= k <= reads_ok.len(),
    ensures
        cycle_calls(reads_ok.take(k), actuators).len() <= cycle_calls(reads_ok, actuators).len(),
        cycle_calls(reads_ok, actuators).take(
            cycle_calls(reads_ok.take(k), actuators).len() as int,
        ) == cycle_calls(reads_ok.take(k), actuators),
        forall|p: int|
            cycle_calls(reads_ok.take(k), actuators).len() <= p < cycle_calls(
                reads_ok,
                actuators,
            ).len() ==> k <= sensor_of(#[trigger] cycle_calls(reads_ok, actuators)[p]),
    decreases reads_ok.len(),
{
    let all = cycle_calls(reads_ok, actuators);
    let part = cycle_calls(reads_ok.take(k), actuators);
    if k == reads_ok.len() {
        assert(reads_ok.take(k) =~= reads_ok);
        assert(all.take(all.len() as int) =~= all);
    } else {
        let fewer = reads_ok.drop_last();
        let less = cycle_calls(fewer, actuators);
        let sensor = (reads_ok.len() - 1) as usize;
        let own = calls_for(sensor, reads_ok.last(), actuators);
        assert(fewer.take(k) =~= reads_ok.take(k));
        lemma_calls_grow(fewer, actuators, k);
        lemma_own_calls(sensor, reads_ok.last(), actuators);
        assert(all == less + own);
        assert(all.take(part.len() as int) =~= less.take(part.len() as int));
        assert forall|p: int| part.len() <= p < all.len() implies k <= sensor_of(
            #[trigger] all[p],
        ) by {
            if p < less.len() {
                assert(all[p] == less[p]);
            } else {
                assert(all[p] == own[p - less.len()]);
            }
        }
    }
}

/// The steps make the calls of a cycle, and no others. Asked at the start
/// and after each call, [`cycle_next`] names the calls of [`cycle_calls`] one
/// after the other, and after the last of them the end of the cycle.
pub proof fn lemma_steps_make_the_calls(reads_ok: Seq<bool>, actuators: nat)
    requires
        reads_ok.len() <= usize::MAX,
        actuators <= usize::MAX,
    ensures
        forall|p: int|
            0 <= p < cycle_calls(reads_ok, actuators).len() ==> #[trigger] cycle_calls(
                reads_ok,
                actuators,
            )[p] == next_after(reads_ok, actuators, cycle_calls(reads_ok, actuators).take(p)),
        next_after(reads_ok, actuators, cycle_calls(reads_ok, actuators)) == CycleCall::Finish,
{
    lemma_steps_so_far(reads_ok, actuators, reads_ok.len() as int);
    assert(reads_ok.take(reads_ok.len() as int) =~= reads_ok);
}

proof fn lemma_steps_so_far(reads_ok: Seq<bool>, actuators: nat, k: int)
    requires
        reads_ok.len() <= usize::MAX,
        actuators <= usize::MAX,
        0 <= k <= reads_ok.len(),
    ensures
        forall|p: int|
            0 <= p < cycle_calls(reads_ok.take(k), actuators).len() ==> #[trigger] cycle_calls(
                reads_ok.take(k),
                actuators,
            )[p] == next_after(reads_ok, actuators, cycle_calls(reads_ok.take(k), actuators).take(p)),
        next_after(reads_ok, actuators, cycle_calls(reads_ok.take(k), actuators)) == (if k
            < reads_ok.len() {
            CycleCall::Read { sensor: k as usize }
        } else {
            CycleCall::Finish
        }),
    decreases k,
{
    let calls = cycle_calls(reads_ok.take(k), actuators);
    if k > 0 {
        let sensor = (k - 1) as usize;
        let ok = reads_ok[k - 1];
        let before = cycle_calls(reads_ok.take(k - 1), actuators);
        let own = calls_for(sensor, ok, actuators);
        assert(reads_ok.take(k).drop_last() =~= reads_ok.take(k - 1));
        assert(reads_ok.take(k).last() == ok);
        assert(calls == before + own);
        lemma_steps_so_far(reads_ok, actuators, k - 1);
        lemma_own_calls(sensor, ok, actuators);
        lemma_own_steps(reads_ok, actuators, sensor);
        assert forall|p: int| 0 <= p < calls.len() implies #[trigger] calls[p] == next_after(
            reads_ok,
            actuators,
            calls.take(p),
        ) by {
            if p < before.len() {
                assert(calls.take(p) =~= before.take(p));
                assert(calls[p] == before[p]);
            } else if p == before.len() {
                assert(calls.take(p) =~= before);
                assert(calls[p] == own[0]);
            } else {
                let q = p - before.len();
                assert(calls.take(p).last() == calls[p - 1]);
                assert(calls[p - 1] == own[q - 1]);
                assert(calls[p] == own[q]);
            }
        }
        assert(calls.last() == own.last());
    }
}

/// A failed read is passed over, and nothing else is. In the calls of a
/// cycle, those for any one sensor stand together, after the calls for every
/// sensor before it and before the calls for every sensor after it. They
/// begin with the one read of that sensor. Where the read went well, the one
/// send of its reading follows, and then its hand-over to each actuator once,
/// in the order of registration. Where the read failed, nothing is sent and
/// nothing is handed to an actuator on its account, and the next call is the
/// read of the next sensor.
pub proof fn lemma_failed_read_is_passed_over(reads_ok: Seq<bool>, actuators: nat, sensor: usize)
    requires
        reads_ok.len() <= usize::MAX,
        actuators <= usize::MAX,
        sensor < reads_ok.len(),
    ensures
        ({
            let calls = cycle_calls(reads_ok, actuators);
            let start = cycle_calls(reads_ok.take(sensor as int), actuators).len() as int;
            let own = calls_for(sensor, reads_ok[sensor as int], actuators);
            &&& start + own.len() <= calls.len()
            &&& calls.subrange(start, start + own.len()) == own
            &&& forall|p: int| 0 <= p < start ==> 0 <= sensor_of(#[trigger] calls[p]) < sensor
            &&& forall|p: int|
                start + own.len() <= p < calls.len() ==> sensor < sensor_of(#[trigger] calls[p])
            &&& calls[start] == CycleCall::Read { sensor }
            &&& reads_ok[sensor as int] ==> calls[start + 1] == CycleCall::Send { sensor }
                && own.len() == 2 + actuators && forall|j: int|
                0 <= j < actuators ==> #[trigger] calls[start + 2 + j] == (CycleCall::Execute {
                    sensor,
                    actuator: j as usize,
                })
            &&& !reads_ok[sensor as int] ==> own.len() == 1 && forall|p: int|
                0 <= p < calls.len() ==> #[trigger] calls[p] is Read || sensor_of(calls[p])
                    != sensor
        }),
{
    let calls = cycle_calls(reads_ok, actuators);
    let upto = reads_ok.take(sensor + 1);
    let before = cycle_calls(reads_ok.take(sensor as int), actuators);
    let own = calls_for(sensor, reads_ok[sensor as int], actuators);
    let start = before.len() as int;
    assert(upto.drop_last() =~= reads_ok.take(sensor as int));
    assert(upto.last() == reads_ok[sensor as int]);
    assert(cycle_calls(upto, actuators) == before + own);
    lemma_calls_grow(reads_ok, actuators, sensor + 1);
    lemma_calls_named(reads_ok.take(sensor as int), actuators);
    lemma_calls_named(reads_ok, actuators);
    assert(calls.take(start + own.len()) == before + own);
    assert(calls.subrange(start, start + own.len()) =~= own) by {
        assert forall|q: int| 0 <= q < own.len() implies calls[start + q] == own[q] by {
            assert(calls.take(start + own.len())[start + q] == (before + own)[start + q]);
        }
    }
    assert forall|p: int| 0 <= p < start implies 0 <= sensor_of(#[trigger] calls[p]) < sensor by {
        assert(calls.take(start + own.len())[p] == (before + own)[p]);
        assert(calls[p] == before[p]);
    }
    assert(calls[start] == own[0]) by {
        assert(calls.subrange(start, start + own.len())[0] == calls[start]);
    }
    if reads_ok[sensor as int] {
        assert(calls[start + 1] == own[1]) by {
            assert(calls.subrange(start, start + own.len())[1] == calls[start + 1]);
        }
        assert forall|j: int| 0 <= j < actuators implies #[trigger] calls[start + 2 + j] == (
        CycleCall::Execute { sensor, actuator: j as usize }) by {
            assert(calls.subrange(start, start + own.len())[2 + j] == calls[start + 2 + j]);
        }
    } else {
        assert forall|p: int| 0 <= p < calls.len() implies #[trigger] calls[p] is Read
            || sensor_of(calls[p]) != sensor by {
            if p == start {
            } else if p < start {
                assert(sensor_of(calls[p]) < sensor);
            } else {
                assert(sensor < sensor_of(calls[p]));
            }
        }
    }
}

} // verus!
