//! The single-wire protocol of the DHT family of sensors.
//!
//! A read is one exchange on one data line: the host asks, the sensor answers
//! with forty bits, each told by how long the line stays high. The program
//! around the crate owns the line and the clock. Everything it has to decide
//! is decided here: what to do to the line to ask, whether a poll of the line
//! ends a wait, which wait comes next, which bit a pulse stands for, and
//! whether the five bytes that came are a frame.
use crate::devices::sensors::frame::checksum_ok;
use crate::nucleo::types::SensorError;
use vstd::prelude::*;

verus! {

/// How long one awaited transition of the line may take, in microseconds.
pub const TRANSITION_TIMEOUT_US: u64 = 100;

/// A high pulse that lasts more than this many whole microseconds is a 1.
pub const PULSE_THRESHOLD_US: u128 = 40;

/// The waits of one capture: three to synchronise, then two for each bit.
pub const CAPTURE_WAITS: u8 = 83;

/// How long the host holds the line low to ask for a reading, in microseconds.
pub const REQUEST_HOLD_US: u64 = 20_000;

/// How long the host holds the line high before it listens, in microseconds.
pub const READY_HOLD_US: u64 = 30;

/// The pause between two polls of the line during a wait, in microseconds.
pub const POLL_PAUSE_US: u64 = 1;

/// What one poll of the line means for the wait that made it.
#[derive(Debug, Clone, Copy, PartialEq, Eq, Structural)]
pub enum WaitStep {
    /// The line is at the awaited level: the wait ends well.
    Reached,
    /// The line could not be read, or the time is up: the wait has failed.
    Expired,
    /// Neither: pause for [`POLL_PAUSE_US`] and poll again.
    Again,
}

/// One poll of the line during a wait.
#[derive(Debug, Clone, Copy, PartialEq, Eq, Structural)]
pub struct Poll {
    /// The level read, `true` for high; `None` where the read failed.
    pub level: Option<bool>,
    /// Nanoseconds since the wait began, taken after the read.
    pub elapsed_ns: u128,
}

/// What a poll means: the level is looked at first, the clock only after it.
pub open spec fn wait_step(poll: Poll, nivel: bool, timeout_us: u64) -> WaitStep {
    if poll.level == Some(nivel) {
        WaitStep::Reached
    } else if poll.level is None {
        WaitStep::Expired
    } else if poll.elapsed_ns > timeout_us * 1000 {
        WaitStep::Expired
    } else {
        WaitStep::Again
    }
}

/// How a wait ends that makes the polls of `polls` in turn: whether the level
/// was reached, and how many polls it took. `None` where the polls run out
/// before the wait has ended.
pub open spec fn wait_outcome(polls: Seq<Poll>, nivel: bool, timeout_us: u64) -> Option<(bool, nat)>
    decreases polls.len(),
{
    if polls.len() == 0 {
        None
    } else {
        match wait_step(polls[0], nivel, timeout_us) {
            WaitStep::Reached => Some((true, 1nat)),
            WaitStep::Expired => Some((false, 1nat)),
            WaitStep::Again => match wait_outcome(polls.skip(1), nivel, timeout_us) {
                Some((reached, taken)) => Some((reached, taken + 1)),
                None => None,
            },
        }
    }
}

/// A wait never reports a level that no poll has shown.
pub proof fn lemma_wait_needs_the_level(polls: Seq<Poll>, nivel: bool, timeout_us: u64)
    requires
        forall|i: int| 0 <= i < polls.len() ==> (#[trigger] polls[i]).level != Some(nivel),
    ensures
        match wait_outcome(polls, nivel, timeout_us) {
            Some((reached, _)) => !reached,
            None => true,
        },
    decreases polls.len(),
{
    if polls.len() > 0 {
        let rest = polls.skip(1);
        assert forall|i: int| 0 <= i < rest.len() implies (#[trigger] rest[i]).level != Some(
            nivel,
        ) by {
            assert(rest[i] == polls[i + 1]);
        }
        lemma_wait_needs_the_level(rest, nivel, timeout_us);
    }
}

/// A wait whose polls never show the level fails no later than at the first
/// poll that is taken after the time is up.
pub proof fn lemma_wait_expires(polls: Seq<Poll>, nivel: bool, timeout_us: u64, late: int)
    requires
        0 <= late < polls.len(),
        polls[late].elapsed_ns > timeout_us * 1000,
        forall|i: int| 0 <= i <= late ==> (#[trigger] polls[i]).level != Some(nivel),
    ensures
        wait_outcome(polls, nivel, timeout_us) matches Some((reached, taken)) && !reached && taken
            <= late + 1,
    decreases late,
{
    if wait_step(polls[0], nivel, timeout_us) == WaitStep::Again {
        let rest = polls.skip(1);
        assert(late > 0);
        assert(rest[late - 1] == polls[late]);
        assert forall|i: int| 0 <= i <= late - 1 implies (#[trigger] rest[i]).level != Some(
            nivel,
        ) by {
            assert(rest[i] == polls[i + 1]);
        }
        lemma_wait_expires(rest, nivel, timeout_us, late - 1);
    }
}

/// A wait ends well at the first poll that shows the level, whatever the clock
/// says at that poll, and takes no poll after it.
pub proof fn lemma_wait_ends_at_the_level(polls: Seq<Poll>, nivel: bool, timeout_us: u64, at: int)
    requires
        0 <= at < polls.len(),
        polls[at].level == Some(nivel),
        forall|i: int|
            0 <= i < at ==> (#[trigger] polls[i]).level == Some(!nivel) && polls[i].elapsed_ns
                <= timeout_us * 1000,
    ensures
        wait_outcome(polls, nivel, timeout_us) == Some((true, (at + 1) as nat)),
    decreases at,
{
    if at > 0 {
        let rest = polls.skip(1);
        assert(rest[at - 1] == polls[at]);
        assert forall|i: int| 0 <= i < at - 1 implies (#[trigger] rest[i]).level == Some(!nivel)
            && rest[i].elapsed_ns <= timeout_us * 1000 by {
            assert(rest[i] == polls[i + 1]);
        }
        lemma_wait_ends_at_the_level(rest, nivel, timeout_us, at - 1);
        assert(wait_step(polls[0], nivel, timeout_us) == WaitStep::Again);
    }
}

/// How the line is set up.
#[derive(Debug, Clone, Copy, PartialEq, Eq, Structural)]
pub enum PinMode {
    /// The host listens.
    Input,
    /// The host drives the line.
    Output,
}

/// One thing to do to the line, or one hold, of the start handshake.
#[derive(Debug, Clone, Copy, PartialEq, Eq, Structural)]
pub enum PinAction {
    /// Switch the line to a mode.
    SetMode(PinMode),
    /// Write a level, `true` for high.
    Write(bool),
    /// Let this many microseconds pass; a sleep of the scheduler will do.
    Sleep(u64),
    /// Let this many microseconds pass, as exactly as the machine can.
    SpinSleep(u64),
}

/// The start handshake: drive the line low for [`REQUEST_HOLD_US`], drive it
/// high for [`READY_HOLD_US`], then listen.
pub open spec fn handshake_plan() -> Seq<PinAction> {
    seq![
        PinAction::SetMode(PinMode::Output),
        PinAction::Write(false),
        PinAction::Sleep(REQUEST_HOLD_US),
        PinAction::SetMode(PinMode::Output),
        PinAction::Write(true),
        PinAction::SpinSleep(READY_HOLD_US),
        PinAction::SetMode(PinMode::Input),
    ]
}

/// How far a capture has come: the waits that ended well, and the bits set
/// so far in the five bytes.
pub struct Capture {
    pub waits_done: nat,
    pub data: Seq<u8>,
}

/// What the capture asks for, or how it ended, after one wait.
#[derive(Debug, Clone, Copy, PartialEq, Eq)]
pub enum CaptureStep {
    /// Wait for this level, for at most this many microseconds, and come back
    /// with how the wait ended.
    Wait { level: bool, timeout_us: u64 },
    /// All forty bits came: the five bytes, still unchecked.
    Done([u8; 5]),
    /// The capture is given up.
    Failed(SensorError),
}

/// The mathematical value of a [`CaptureStep`].
pub enum CaptureStepView {
    Wait { level: bool, timeout_us: u64 },
    Done(Seq<u8>),
    Failed(SensorError),
}

impl View for CaptureStep {
    type V = CaptureStepView;

    open spec fn view(&self) -> CaptureStepView {
        match *self {
            CaptureStep::Wait { level, timeout_us } => CaptureStepView::Wait { level, timeout_us },
            CaptureStep::Done(frame) => CaptureStepView::Done(frame@),
            CaptureStep::Failed(e) => CaptureStepView::Failed(e),
        }
    }
}

/// A capture of which nothing has happened yet.
pub open spec fn fresh_capture() -> Capture {
    Capture { waits_done: 0, data: seq![0u8, 0u8, 0u8, 0u8, 0u8] }
}

/// The level that wait number `wait` is for: low, high, low to synchronise,
/// then high and low in turn for each bit.
pub open spec fn wait_level(wait: nat) -> bool {
    wait % 2 == 1
}

/// Whether wait number `wait` is the wait for the end of a bit's high pulse.
pub open spec fn closes_a_bit(wait: nat) -> bool {
    wait >= 4 && wait % 2 == 0
}

/// The bit, counted from 0 in the order of arrival, whose pulse wait number
/// `wait` sees the end of.
pub open spec fn bit_of_wait(wait: nat) -> int {
    (wait - 4) / 2
}

/// Whether a high pulse of this length stands for a 1.
pub open spec fn long_pulse(elapsed_ns: u128) -> bool {
    elapsed_ns / 1000 > PULSE_THRESHOLD_US
}

/// Bit `bit` of a frame, the first bit to arrive being the most significant
/// bit of the first byte.
pub open spec fn frame_bit(data: Seq<u8>, bit: int) -> bool {
    (data[bit / 8] >> ((7 - bit % 8) as u8)) & 1u8 == 1u8
}

/// The frame with bit `bit` set.
pub open spec fn with_bit(data: Seq<u8>, bit: int) -> Seq<u8> {
    data.update(bit / 8, data[bit / 8] | (1u8 << ((7 - bit % 8) as u8)))
}

/// How one wait of a capture ended.
#[derive(Debug, Clone, Copy, PartialEq, Eq, Structural)]
pub struct WaitResult {
    /// Whether the line got to the awaited level in time.
    pub reached: bool,
    /// Nanoseconds from the moment before the wait began to its end.
    pub elapsed_ns: u128,
}

/// One step of a capture: the wait that was asked for has ended as `wait`
/// says. A wait that failed ends the capture. One that ended a long high pulse
/// sets that pulse's bit. The last wait hands out the frame; any other asks
/// for the next. A capture that ends, either way, leaves nothing behind.
pub open spec fn capture_step(c: Capture, wait: WaitResult) -> (Capture, CaptureStepView) {
    if !wait.reached {
        (fresh_capture(), CaptureStepView::Failed(SensorError::Timeout))
    } else {
        let data = if closes_a_bit(c.waits_done) && long_pulse(wait.elapsed_ns) {
            with_bit(c.data, bit_of_wait(c.waits_done))
        } else {
            c.data
        };
        if c.waits_done + 1 == CAPTURE_WAITS {
            (fresh_capture(), CaptureStepView::Done(data))
        } else {
            (
                Capture { waits_done: c.waits_done + 1, data },
                CaptureStepView::Wait {
                    level: wait_level(c.waits_done + 1),
                    timeout_us: TRANSITION_TIMEOUT_US,
                },
            )
        }
    }
}

/// Where a capture stands after the waits of `waits` in turn, and what it
/// answered to the last of them.
pub open spec fn capture_run(c: Capture, waits: Seq<WaitResult>) -> (
    Capture,
    Option<CaptureStepView>,
)
    decreases waits.len(),
{
    if waits.len() == 0 {
        (c, None)
    } else {
        let before = capture_run(c, waits.drop_last()).0;
        let (after, step) = capture_step(before, waits.last());
        (after, Some(step))
    }
}

/// Whether bit `bit` has arrived among `waits`, and as a 1: its high pulse is
/// the one that wait number `4 + 2 * bit` sees the end of.
pub open spec fn arrived_as_one(waits: Seq<WaitResult>, bit: int) -> bool {
    4 + 2 * bit < waits.len() && long_pulse(waits[4 + 2 * bit].elapsed_ns)
}

proof fn lemma_bit_after_or(x: u8, p: u8, q: u8)
    by (bit_vector)
    requires
        p < 8,
        q < 8,
    ensures
        ((x | (1u8 << p)) >> q) & 1u8 == (if p == q {
            1u8
        } else {
            (x >> q) & 1u8
        }),
        (0u8 >> q) & 1u8 == 0u8,
{
}

/// While every wait ends well and the capture is not over, it has counted the
/// waits and holds exactly the bits that have arrived as 1.
pub proof fn lemma_capture_under_way(waits: Seq<WaitResult>)
    requires
        waits.len() < CAPTURE_WAITS,
        forall|i: int| 0 <= i < waits.len() ==> (#[trigger] waits[i]).reached,
    ensures
        capture_run(fresh_capture(), waits).0.waits_done == waits.len(),
        capture_run(fresh_capture(), waits).0.data.len() == 5,
        forall|bit: int|
            0 <= bit < 40 ==> #[trigger] frame_bit(capture_run(fresh_capture(), waits).0.data, bit)
                == arrived_as_one(waits, bit),
        waits.len() > 0 ==> capture_run(fresh_capture(), waits).1 == Some(
            CaptureStepView::Wait {
                level: wait_level(waits.len()),
                timeout_us: TRANSITION_TIMEOUT_US,
            },
        ),
    decreases waits.len(),
{
    let here = capture_run(fresh_capture(), waits).0;
    if waits.len() == 0 {
        assert forall|bit: int| 0 <= bit < 40 implies #[trigger] frame_bit(here.data, bit)
            == arrived_as_one(waits, bit) by {
            lemma_bit_after_or(0u8, 0u8, (7 - bit % 8) as u8);
        }
    } else {
        let earlier = waits.drop_last();
        assert forall|i: int| 0 <= i < earlier.len() implies (#[trigger] earlier[i]).reached by {
            assert(earlier[i] == waits[i]);
        }
        lemma_capture_under_way(earlier);
        let before = capture_run(fresh_capture(), earlier).0;
        let wait = earlier.len();
        let last = waits.last();
        assert(last.reached);
        assert forall|bit: int| 0 <= bit < 40 implies #[trigger] frame_bit(here.data, bit)
            == arrived_as_one(waits, bit) by {
            assert(frame_bit(before.data, bit) == arrived_as_one(earlier, bit));
            if 4 + 2 * bit < earlier.len() {
                assert(earlier[4 + 2 * bit] == waits[4 + 2 * bit]);
            }
            if closes_a_bit(wait) && long_pulse(last.elapsed_ns) {
                let set = bit_of_wait(wait);
                lemma_bit_after_or(
                    before.data[set / 8],
                    (7 - set % 8) as u8,
                    (7 - bit % 8) as u8,
                );
            }
        }
    }
}

/// A capture whose eighty-three waits all end well hands out, at the last of
/// them, the frame whose bits are the pulses in the order of their arrival,
/// the first of each eight as the most significant bit of its byte; and it
/// keeps nothing.
pub proof fn lemma_capture_completes(waits: Seq<WaitResult>)
    requires
        waits.len() == CAPTURE_WAITS,
        forall|i: int| 0 <= i < waits.len() ==> (#[trigger] waits[i]).reached,
    ensures
        capture_run(fresh_capture(), waits).0 == fresh_capture(),
        capture_run(fresh_capture(), waits).1 matches Some(CaptureStepView::Done(frame))
            && frame.len() == 5 && forall|bit: int|
            0 <= bit < 40 ==> #[trigger] frame_bit(frame, bit) == long_pulse(
                waits[4 + 2 * bit].elapsed_ns,
            ),
{
    let earlier = waits.drop_last();
    assert forall|i: int| 0 <= i < earlier.len() implies (#[trigger] earlier[i]).reached by {
        assert(earlier[i] == waits[i]);
    }
    lemma_capture_under_way(earlier);
    let before = capture_run(fresh_capture(), earlier).0;
    let last = waits.last();
    assert(last.reached);
    let frame = capture_run(fresh_capture(), waits).1->0->Done_0;
    assert forall|bit: int| 0 <= bit < 40 implies #[trigger] frame_bit(frame, bit) == long_pulse(
        waits[4 + 2 * bit].elapsed_ns,
    ) by {
        assert(frame_bit(before.data, bit) == arrived_as_one(earlier, bit));
        if 4 + 2 * bit < earlier.len() {
            assert(earlier[4 + 2 * bit] == waits[4 + 2 * bit]);
        }
        if long_pulse(last.elapsed_ns) {
            lemma_bit_after_or(before.data[4], 0u8, (7 - bit % 8) as u8);
        }
    }
}

/// A capture ends at the first wait that fails, with a timeout, whatever came
/// before: no part of a frame is handed out, and none is kept.
pub proof fn lemma_capture_gives_up(waits: Seq<WaitResult>)
    requires
        0 < waits.len() <= CAPTURE_WAITS,
        forall|i: int| 0 <= i < waits.len() - 1 ==> (#[trigger] waits[i]).reached,
        !waits.last().reached,
    ensures
        capture_run(fresh_capture(), waits) == (
            fresh_capture(),
            Some(CaptureStepView::Failed(SensorError::Timeout)),
        ),
{
}

/// The decoder of one sensor on one data line.
///
/// It keeps the number of the line and, while a capture runs, how far the
/// capture has come. Between two reads it keeps nothing of the first.
pub struct DhtBase {
    pin_number: u8,
    waits_done: u8,
    data: [u8; 5],
}

impl View for DhtBase {
    type V = Capture;

    closed spec fn view(&self) -> Capture {
        Capture { waits_done: self.waits_done as nat, data: self.data@ }
    }
}

impl DhtBase {
    #[verifier::type_invariant]
    spec fn in_capture(self) -> bool {
        self.waits_done < CAPTURE_WAITS
    }

    /// The number of the line that the sensor is on.
    pub closed spec fn pin(&self) -> u8 {
        self.pin_number
    }

    /// A decoder for the sensor on line `pin_number`, with no capture begun.
    pub fn new(pin_number: u8) -> (base: Self)
        ensures
            base.pin() == pin_number,
            base@ == fresh_capture(),
    {
        let base = DhtBase { pin_number, waits_done: 0, data: [0u8; 5] };
        assert(base.data@ =~= fresh_capture().data);
        base
    }

    /// The number of the line that the sensor is on.
    pub fn pin_number(&self) -> (pin: u8)
        ensures
            pin == self.pin(),
    {
        self.pin_number
    }

    /// The wait that the capture is at: the level to wait for, and for how
    /// many microseconds at most. There always is one: a capture that has
    /// ended is a capture not yet begun.
    pub fn pending_wait(&self) -> (wait: (bool, u64))
        ensures
            wait.0 == wait_level(self@.waits_done),
            wait.1 == TRANSITION_TIMEOUT_US,
            self@.waits_done < CAPTURE_WAITS,
            self@.data.len() == 5,
    {
        proof {
            use_type_invariant(self);
        }
        (self.waits_done % 2 == 1, TRANSITION_TIMEOUT_US)
    }

    /// Begins a read: forgets any capture that was under way and hands out
    /// what to do to the line, in order, to ask the sensor for a reading. The
    /// first wait of the capture follows the last action.
    pub fn iniciar_secuencia(&mut self) -> (plan: [PinAction; 7])
        ensures
            plan@ == handshake_plan(),
            final(self)@ == fresh_capture(),
            final(self).pin() == old(self).pin(),
    {
        self.waits_done = 0;
        self.data = [0u8; 5];
        let plan = [
            PinAction::SetMode(PinMode::Output),
            PinAction::Write(false),
            PinAction::Sleep(REQUEST_HOLD_US),
            PinAction::SetMode(PinMode::Output),
            PinAction::Write(true),
            PinAction::SpinSleep(READY_HOLD_US),
            PinAction::SetMode(PinMode::Input),
        ];
        assert(self.data@ =~= fresh_capture().data);
        assert(plan@ =~= handshake_plan());
        plan
    }

    /// Takes the capture one wait further: the wait that
    /// [`Self::pending_wait`] names has ended as `wait` says.
    pub fn leer_bits(&mut self, wait: WaitResult) -> (step: CaptureStep)
        ensures
            (final(self)@, step@) == capture_step(old(self)@, wait),
            final(self).pin() == old(self).pin(),
    {
        proof {
            use_type_invariant(&*self);
        }
        if !wait.reached {
            self.waits_done = 0;
            self.data = [0u8; 5];
            assert(self.data@ =~= fresh_capture().data);
            return CaptureStep::Failed(SensorError::Timeout);
        }
        let done: u8 = self.waits_done;
        if done >= 4 && done % 2 == 0 && wait.elapsed_ns / 1000 > PULSE_THRESHOLD_US {
            let bit: u8 = (done - 4) / 2;
            let byte: usize = (bit / 8) as usize;
            let shift: u8 = 7 - bit % 8;
            self.data[byte] = self.data[byte] | (1u8 << shift);
        }
        if done + 1 == CAPTURE_WAITS {
            let frame: [u8; 5] = self.data;
            self.waits_done = 0;
            self.data = [0u8; 5];
            assert(self.data@ =~= fresh_capture().data);
            CaptureStep::Done(frame)
        } else {
            self.waits_done = done + 1;
            CaptureStep::Wait { level: (done + 1) % 2 == 1, timeout_us: TRANSITION_TIMEOUT_US }
        }
    }

    /// Decides what one poll of the line means for a wait for the level
    /// `nivel` that may last `timeout_us` microseconds: the wait ends well as
    /// soon as a poll shows the level, fails when a poll cannot read the line
    /// or comes after the time is up, and goes on otherwise.
    pub fn esperar_nivel(poll: Poll, nivel: bool, timeout_us: u64) -> (step: WaitStep)
        ensures
            step == wait_step(poll, nivel, timeout_us),
    {
        match poll.level {
            Some(level) => {
                if level == nivel {
                    WaitStep::Reached
                } else if poll.elapsed_ns > (timeout_us as u128) * 1000 {
                    WaitStep::Expired
                } else {
                    WaitStep::Again
                }
            },
            None => WaitStep::Expired,
        }
    }

    /// Checks the fifth byte of a frame against the sum of the other four.
    pub fn validar_checksum(data: &[u8; 5]) -> (outcome: Result<(), SensorError>)
        ensures
            outcome is Ok <==> checksum_ok(data@),
            outcome is Err ==> outcome == Err::<(), SensorError>(SensorError::InvalidData),
    {
        let checksum: u8 = data[0].wrapping_add(data[1]).wrapping_add(data[2]).wrapping_add(
            data[3],
        );
        if checksum != data[4] {
            Err(SensorError::InvalidData)
        } else {
            Ok(())
        }
    }
}

} // verus!
