//! Circular sample store, two-phase debounced contact detection, and the
//! bounded history of confirmed detection events.
//!
//! The store keeps the most recent `capacity` averaged 8-bit samples. Two
//! counters track the newest slot: an unbounded logical counter (for
//! diagnostics, event stamps and `detection_idx`) and the same counter
//! already folded into `[0, capacity)`, which is the only form ever used to
//! index the store.

use vstd::arithmetic::div_mod::{lemma_add_mod_noop, lemma_small_mod};
use vstd::prelude::*;
use vstd::string::StringExecFns;

use crate::counter::{wrap_add_spec, wrap_sub_spec, SampleCounter};
use crate::critical::raise_alert_in_critical_section;
use crate::status::{alert_transition, error_transition, StatusLedMulti};

verus! {

/// Index of a detection event, combined with the confirmed voltage drop.
pub type DetectionEvent = (SampleCounter, u8);

/// Default capacity of the long-term sample store: 45000 samples cover about
/// 90 s of history at one averaged sample per 2 ms.
pub const LONGTERM_CAPACITY: usize = 45000;

/// Fixed number of slots in the detection-event history.
pub const DETECTION_EVENT_SLOTS: usize = 10;

/// Initial averaged difference used for detecting contact.
///
/// Ex. a trigger delta of 128 on a 3.3V signal requires that the average
/// voltage range has decreased by approximately 1.65V.
pub const INIT_TRIGGER_DELTA: u8 = 160;

/// Initial averaged difference used to detect the end of contact: the rise
/// in voltage relative to the last detection event.
pub const INIT_RESTORE_DELTA: u8 = 100;

/// Difference of two 8-bit readings, saturating at zero: a rise between an
/// earlier and a later reading counts as no drop rather than wrapping.
pub open spec fn sat_diff(high: u8, low: u8) -> int {
    if high >= low {
        high - low
    } else {
        0
    }
}

/// Mathematical state of the detector: the circular store's contents, the
/// unbounded logical counter, its folded slot index, the event history and
/// the debounce flag.
#[verifier::ext_equal]
pub struct DetectorModel {
    /// Contents of the circular store, by physical slot
    pub samples: Seq<u8>,
    /// Logical counter of the most recently written sample
    pub counter: nat,
    /// The counter folded into `[0, |samples|)`: the newest slot
    pub head: nat,
    /// Detection events, newest first
    pub events: Seq<Option<DetectionEvent>>,
    /// A first-stage trigger fired; a confirming sample is pending
    pub armed: bool,
}

/// Well-formedness: the store holds at least two slots, the folded index is
/// the logical counter reduced modulo the capacity, and the event history
/// has its fixed number of slots.
pub open spec fn model_wf(m: DetectorModel) -> bool {
    &&& m.samples.len() >= 2
    &&& m.head == m.counter % m.samples.len()
    &&& m.events.len() == DETECTION_EVENT_SLOTS
}

/// Slot holding the reading taken `back` samples before the newest one.
pub open spec fn slot_back(m: DetectorModel, back: int) -> int {
    wrap_sub_spec(m.head as int, back, m.samples.len() as int)
}

/// First-stage drop: from the previous slot to the newest slot.
pub open spec fn first_stage_drop(m: DetectorModel) -> int {
    sat_diff(m.samples[slot_back(m, 1)], m.samples[m.head as int])
}

/// Second-stage drop: from two slots back (the reading before the candidate
/// transition) to the newest slot.
pub open spec fn second_stage_drop(m: DetectorModel) -> int {
    sat_diff(m.samples[slot_back(m, 2)], m.samples[m.head as int])
}

/// Whether one detection step fires a confirmed alert.
pub open spec fn detect_fires(m: DetectorModel) -> bool {
    m.armed && second_stage_drop(m) >= INIT_TRIGGER_DELTA
}

/// The event a confirmed detection records: the stamping counter together
/// with the confirmed drop.
pub open spec fn confirmed_event(m: DetectorModel) -> DetectionEvent {
    (SampleCounter(m.counter as usize), second_stage_drop(m) as u8)
}

/// Event history after recording `e`: newest at slot 0, older entries
/// shifted down one, the oldest silently discarded.
pub open spec fn push_event(
    events: Seq<Option<DetectionEvent>>,
    e: DetectionEvent,
) -> Seq<Option<DetectionEvent>> {
    seq![Some(e)] + events.drop_last()
}

/// One call of `Buffers::detect_contact` as a state transformer.
pub open spec fn detect_step(m: DetectorModel) -> DetectorModel {
    if !m.armed {
        if first_stage_drop(m) >= INIT_TRIGGER_DELTA {
            DetectorModel { armed: true, ..m }
        } else {
            m
        }
    } else if second_stage_drop(m) >= INIT_TRIGGER_DELTA {
        DetectorModel { armed: false, events: push_event(m.events, confirmed_event(m)), ..m }
    } else {
        m
    }
}

/// One call of `Buffers::insert` as a state transformer: on a saturated
/// counter the store is left untouched (the escalation runs instead).
pub open spec fn insert_step(m: DetectorModel, sample: u8) -> DetectorModel {
    if m.counter < usize::MAX {
        DetectorModel {
            samples: m.samples.update(
                wrap_add_spec(m.head as int, 1, m.samples.len() as int),
                sample,
            ),
            counter: (m.counter + 1) as nat,
            head: wrap_add_spec(m.head as int, 1, m.samples.len() as int) as nat,
            ..m
        }
    } else {
        m
    }
}

/// End-of-contact condition: the newest detection event is present, its
/// stamped reading is still within the store's horizon, and the newest
/// sample has risen by at least `INIT_RESTORE_DELTA` relative to the reading
/// stored at the event's slot. An event older than the horizon has been
/// overwritten and can no longer be assessed: it yields false.
pub open spec fn contact_end_condition(m: DetectorModel) -> bool {
    match m.events[0] {
        Some(e) => {
            let c = e.0.0 as int;
            let len = m.samples.len() as int;
            &&& c <= m.counter
            &&& m.counter - c < len
            &&& sat_diff(m.samples[m.head as int], m.samples[c % len]) >= INIT_RESTORE_DELTA
        },
        None => false,
    }
}

/// One acquisition cycle as a state transformer: one sample inserted, one
/// detection step run, as the acquisition routine does once per cycle.
pub open spec fn ingest_step(m: DetectorModel, sample: u8) -> DetectorModel {
    detect_step(insert_step(m, sample))
}

/// A whole run of acquisition cycles over a sample sequence.
pub open spec fn run_ingest(m: DetectorModel, samples: Seq<u8>) -> DetectorModel
    decreases samples.len(),
{
    if samples.len() == 0 {
        m
    } else {
        run_ingest(ingest_step(m, samples[0]), samples.subrange(1, samples.len() as int))
    }
}

/// Whether any cycle of the run fires a confirmed alert.
pub open spec fn fires_during(m: DetectorModel, samples: Seq<u8>) -> bool
    decreases samples.len(),
{
    if samples.len() == 0 {
        false
    } else {
        ||| detect_fires(insert_step(m, samples[0]))
        ||| fires_during(ingest_step(m, samples[0]), samples.subrange(1, samples.len() as int))
    }
}

/// Whether no cycle of the run ever satisfies the second-stage check.
pub open spec fn never_confirms(m: DetectorModel, samples: Seq<u8>) -> bool
    decreases samples.len(),
{
    if samples.len() == 0 {
        true
    } else {
        &&& second_stage_drop(insert_step(m, samples[0])) < INIT_TRIGGER_DELTA
        &&& never_confirms(ingest_step(m, samples[0]), samples.subrange(1, samples.len() as int))
    }
}

/// An armed detector fed any sample sequence whose cycles never satisfy the
/// second-stage check fires no alert during the whole run and is still armed
/// at its end: a single false first-stage trigger suppresses detection
/// indefinitely, there being no timeout.
pub proof fn lemma_armed_run_without_confirmation(m: DetectorModel, samples: Seq<u8>)
    requires
        m.armed,
        never_confirms(m, samples),
    ensures
        run_ingest(m, samples).armed,
        !fires_during(m, samples),
    decreases samples.len(),
{
    if samples.len() > 0 {
        let inserted = insert_step(m, samples[0]);
        lemma_armed_without_confirmation_is_stutter(inserted);
        lemma_armed_run_without_confirmation(
            ingest_step(m, samples[0]),
            samples.subrange(1, samples.len() as int),
        );
    }
}

/// Debounce, whole-run form: from an idle detector, a cycle whose sample
/// produces a qualifying first-stage drop fires nothing and arms; any
/// following cycles that fail the second-stage check fire nothing; the first
/// cycle whose sample satisfies the second-stage check fires, and the
/// detector leaves that cycle disarmed, unable to fire again without a new
/// candidate. The confirmed alert thus fires exactly once, at the confirming
/// cycle, never at the candidate cycle.
pub proof fn lemma_debounced_alert_fires_at_confirmation(
    m: DetectorModel,
    candidate: u8,
    middle: Seq<u8>,
    confirming: u8,
)
    requires
        !m.armed,
        first_stage_drop(insert_step(m, candidate)) >= INIT_TRIGGER_DELTA,
        never_confirms(ingest_step(m, candidate), middle),
        second_stage_drop(
            insert_step(run_ingest(ingest_step(m, candidate), middle), confirming),
        ) >= INIT_TRIGGER_DELTA,
    ensures
        !detect_fires(insert_step(m, candidate)),
        !fires_during(ingest_step(m, candidate), middle),
        detect_fires(insert_step(run_ingest(ingest_step(m, candidate), middle), confirming)),
        !ingest_step(run_ingest(ingest_step(m, candidate), middle), confirming).armed,
{
    let after_candidate = ingest_step(m, candidate);
    lemma_first_trigger_only_arms(insert_step(m, candidate));
    lemma_armed_run_without_confirmation(after_candidate, middle);
    let confirming_state = insert_step(run_ingest(after_candidate, middle), confirming);
    lemma_confirmation_fires_once(confirming_state);
}

/// A detector that is not armed never fires: a first qualifying drop only
/// arms the detector and changes nothing else; the alert is left for a
/// later, confirming step.
pub proof fn lemma_first_trigger_only_arms(m: DetectorModel)
    requires
        !m.armed,
    ensures
        !detect_fires(m),
        detect_step(m).armed <==> first_stage_drop(m) >= INIT_TRIGGER_DELTA,
        detect_step(m).samples == m.samples,
        detect_step(m).counter == m.counter,
        detect_step(m).head == m.head,
        detect_step(m).events == m.events,
{
}

/// An armed detector whose second-stage check fails is left exactly as it
/// was: without a confirming drop it stays armed indefinitely and no alert
/// ever fires.
pub proof fn lemma_armed_without_confirmation_is_stutter(m: DetectorModel)
    requires
        m.armed,
        second_stage_drop(m) < INIT_TRIGGER_DELTA,
    ensures
        !detect_fires(m),
        detect_step(m) == m,
{
}

/// A confirmed second-stage drop fires exactly one alert: the step records
/// one event, disarms the detector, and the immediately following state can
/// no longer fire.
pub proof fn lemma_confirmation_fires_once(m: DetectorModel)
    requires
        m.armed,
        second_stage_drop(m) >= INIT_TRIGGER_DELTA,
    ensures
        detect_fires(m),
        !detect_step(m).armed,
        !detect_fires(detect_step(m)),
        detect_step(m).events =~= push_event(m.events, confirmed_event(m)),
{
}

/// The event history keeps its fixed size: recording one more event keeps
/// exactly `DETECTION_EVENT_SLOTS` slots, puts the newest event at position
/// 0, shifts every older entry down one, and discards the oldest.
pub proof fn lemma_event_history_bound(events: Seq<Option<DetectionEvent>>, e: DetectionEvent)
    requires
        events.len() == DETECTION_EVENT_SLOTS,
    ensures
        push_event(events, e).len() == DETECTION_EVENT_SLOTS,
        push_event(events, e)[0] == Some(e),
        forall|j: int|
            1 <= j < DETECTION_EVENT_SLOTS ==> #[trigger] push_event(events, e)[j] == events[j - 1],
{
}

/// Various buffers used for managing signal samples.
pub struct Buffers {
    /// Circular store of the most recent `longterm_buffer.len()` averaged samples
    pub longterm_buffer: Vec<u8>,
    /// Unbounded logical counter for the most recent sample added; never used to index
    pub current_sample: SampleCounter,
    /// `current_sample` folded into `[0, capacity)`: the only index form
    pub head: SampleCounter,
    /// Up to 10 recent detection events, most recent at index 0
    pub detection_events: Vec<Option<DetectionEvent>>,
    /// A potential detection event has been recorded, and the system is
    /// awaiting a second average sample
    pub await_confirm: bool,
}

impl Buffers {
    /// The mathematical state this store represents.
    pub open spec fn model(self) -> DetectorModel {
        DetectorModel {
            samples: self.longterm_buffer@,
            counter: self.current_sample.0 as nat,
            head: self.head.0 as nat,
            events: self.detection_events@,
            armed: self.await_confirm,
        }
    }

    /// Capacity of the circular sample store.
    pub open spec fn capacity(self) -> int {
        self.longterm_buffer@.len() as int
    }

    /// Well-formedness of the store.
    pub open spec fn wf(self) -> bool {
        model_wf(self.model())
    }

    /// A zeroed store of the given capacity: counter at 0, no events, the
    /// debounce flag clear.
    pub fn with_capacity(capacity: usize) -> (b: Buffers)
        requires
            2 <= capacity,
        ensures
            b.wf(),
            b.capacity() == capacity,
            forall|i: int| 0 <= i < capacity ==> b.model().samples[i] == 0,
            b.model().counter == 0,
            b.model().head == 0,
            forall|j: int| 0 <= j < DETECTION_EVENT_SLOTS ==> b.model().events[j] is None,
            !b.model().armed,
    {
        let mut store: Vec<u8> = Vec::new();
        while store.len() < capacity
            invariant
                store@.len() <= capacity,
                forall|i: int| 0 <= i < store@.len() ==> store@[i] == 0,
            decreases capacity - store@.len(),
        {
            store.push(0u8);
        }
        let mut events: Vec<Option<DetectionEvent>> = Vec::new();
        while events.len() < DETECTION_EVENT_SLOTS
            invariant
                events@.len() <= DETECTION_EVENT_SLOTS,
                forall|j: int| 0 <= j < events@.len() ==> events@[j] is None,
            decreases DETECTION_EVENT_SLOTS - events@.len(),
        {
            events.push(None);
        }
        Buffers {
            longterm_buffer: store,
            current_sample: SampleCounter(0),
            head: SampleCounter(0),
            detection_events: events,
            await_confirm: false,
        }
    }

    /// A zeroed store with the default long-term capacity. The singleton
    /// claim and the publication into the shared cell belong to the
    /// embedding program.
    pub fn init() -> (b: Buffers)
        ensures
            b.wf(),
            b.capacity() == LONGTERM_CAPACITY,
            forall|i: int| 0 <= i < LONGTERM_CAPACITY ==> b.model().samples[i] == 0,
            b.model().counter == 0,
            b.model().head == 0,
            forall|j: int| 0 <= j < DETECTION_EVENT_SLOTS ==> b.model().events[j] is None,
            !b.model().armed,
    {
        Buffers::with_capacity(LONGTERM_CAPACITY)
    }

    /// Insert a new sample at the head: write it to the wrapped successor
    /// slot, then advance both counter forms. Exactly one new sample is
    /// retained per call; the oldest sample beyond the horizon is
    /// overwritten. If the logical counter is saturated the sample is
    /// dropped and the unrecoverable-counter escalation of
    /// `SampleCounter::increment` runs instead.
    pub fn insert(&mut self, sample: u8, leds: &mut StatusLedMulti)
        requires
            old(self).wf(),
        ensures
            final(self).wf(),
            final(self).model() =~= insert_step(old(self).model(), sample),
            old(self).model().counter < usize::MAX ==> *final(leds) == *old(leds),
            old(self).model().counter == usize::MAX ==> *final(leds) == error_transition(
                *old(leds),
            ),
    {
        if self.current_sample.get_counter() < usize::MAX {
            let new_head = self.head.wrapping_counter_add(1, self.longterm_buffer.len());
            self.longterm_buffer[new_head] = sample;
            self.head = SampleCounter(new_head);
        }
        self.current_sample.increment(leds);
        proof {
            let m = old(self).model();
            if m.counter < usize::MAX {
                lemma_small_mod(1nat, m.samples.len());
                lemma_add_mod_noop(m.counter as int, 1, m.samples.len() as int);
            }
        }
    }

    /// Analyze the most recent data to determine if a contact event has
    /// occurred, advancing the two-state debounce machine one step.
    ///
    /// Idle: a first-stage drop of at least `INIT_TRIGGER_DELTA` from the
    /// previous slot to the newest arms the detector and does nothing else.
    /// Armed: a second-stage drop of at least `INIT_TRIGGER_DELTA` from two
    /// slots back to the newest confirms the event: the LED state takes the
    /// alert transition under a critical section with a rendered detection
    /// message, the event is appended to the history, and the machine
    /// returns to idle. A failed second-stage check leaves everything as it
    /// was: there is no timeout, and the machine re-checks on every call
    /// until a confirming sample arrives.
    pub fn detect_contact(&mut self, leds: &mut StatusLedMulti)
        requires
            old(self).wf(),
            old(self).await_confirm ==> old(self).current_sample.0 >= 1,
        ensures
            final(self).wf(),
            final(self).model() =~= detect_step(old(self).model()),
            *final(leds) == (if detect_fires(old(self).model()) {
                alert_transition(*old(leds))
            } else {
                *old(leds)
            }),
    {
        let cap = self.longterm_buffer.len();
        let latest = self.longterm_buffer[self.head.get_counter()];
        if !self.await_confirm {
            // First contact check
            let prev_slot = self.head.wrapping_counter_sub(1, cap);
            let earlier = self.longterm_buffer[prev_slot];
            let delta: u8 = if earlier >= latest {
                earlier - latest
            } else {
                0
            };
            if delta >= INIT_TRIGGER_DELTA {
                self.await_confirm = true;
            }
        } else {
            // Validation contact check
            let prev_high_slot = self.head.wrapping_counter_sub(2, cap);
            let earlier = self.longterm_buffer[prev_high_slot];
            let delta: u8 = if earlier >= latest {
                earlier - latest
            } else {
                0
            };
            if delta >= INIT_TRIGGER_DELTA {
                let message = DetectionMsg::create(self);
                raise_alert_in_critical_section(leds, Some(message));
                self.add_detection_event();
                self.await_confirm = false;
            }
        }
    }

    /// Shortcut to return the logical index of a successful detection
    /// sample: the most recently completed sample, `current_sample - 1`.
    /// Meaningful only after at least one `insert`.
    pub fn detection_idx(&self) -> (r: usize)
        requires
            self.current_sample.0 >= 1,
        ensures
            r == self.current_sample.0 - 1,
    {
        self.current_sample.get_counter() - 1
    }

    /// Record a detection event for the newest sample: stamp the current
    /// counter with the second-stage drop, shift the older entries down one
    /// slot, and discard the oldest past the fixed history size.
    pub fn add_detection_event(&mut self)
        requires
            old(self).wf(),
        ensures
            final(self).wf(),
            final(self).model() =~= (DetectorModel {
                events: push_event(old(self).model().events, confirmed_event(old(self).model())),
                ..old(self).model()
            }),
    {
        let cap = self.longterm_buffer.len();
        let latest = self.longterm_buffer[self.head.get_counter()];
        let prev_high_slot = self.head.wrapping_counter_sub(2, cap);
        let earlier = self.longterm_buffer[prev_high_slot];
        let delta: u8 = if earlier >= latest {
            earlier - latest
        } else {
            0
        };
        let slots = self.detection_events.len();
        let mut i: usize = slots - 1;
        while i > 0
            invariant
                old(self).wf(),
                i < slots,
                slots == DETECTION_EVENT_SLOTS,
                self.longterm_buffer == old(self).longterm_buffer,
                self.current_sample == old(self).current_sample,
                self.head == old(self).head,
                self.await_confirm == old(self).await_confirm,
                self.detection_events@.len() == slots,
                forall|j: int|
                    0 <= j <= i ==> self.detection_events@[j] == old(self).detection_events@[j],
                forall|j: int|
                    i < j < slots ==> self.detection_events@[j] == old(self).detection_events@[j
                        - 1],
            decreases i,
        {
            let moved = self.detection_events[i - 1];
            self.detection_events[i] = moved;
            i = i - 1;
        }
        self.detection_events[0] = Some((self.current_sample, delta));
    }

    /// Analyze the most recent data and contact events to determine when
    /// contact ends: true exactly when `contact_end_condition` holds of the
    /// store, that is, when the newest sample has risen by at least
    /// `INIT_RESTORE_DELTA` over the reading stored for the most recent
    /// detection event, and that event is still within the store's horizon.
    /// The store itself is left unchanged.
    pub fn detect_end_contact(&mut self) -> (r: bool)
        requires
            old(self).wf(),
        ensures
            *final(self) == *old(self),
            r == contact_end_condition(old(self).model()),
    {
        let cap = self.longterm_buffer.len();
        match self.detection_events[0] {
            None => false,
            Some(e) => {
                let stamp = e.0.get_counter();
                let current = self.current_sample.get_counter();
                if stamp > current || current - stamp >= cap {
                    false
                } else {
                    let event_value = self.longterm_buffer[stamp % cap];
                    let latest = self.longterm_buffer[self.head.get_counter()];
                    let rise: u8 = if latest >= event_value {
                        latest - event_value
                    } else {
                        0
                    };
                    rise >= INIT_RESTORE_DELTA
                }
            },
        }
    }

    /// Whether a first-stage trigger is pending confirmation.
    pub fn awaiting_confirmation(&self) -> (r: bool)
        ensures
            r == self.await_confirm,
    {
        self.await_confirm
    }

    /// The recorded detection event at the given history position, newest
    /// first.
    pub fn detection_event(&self, position: usize) -> (r: Option<DetectionEvent>)
        requires
            self.wf(),
            position < DETECTION_EVENT_SLOTS,
        ensures
            r == self.model().events[position as int],
    {
        self.detection_events[position]
    }
}

/// The character for one decimal digit value.
pub open spec fn digit_char(d: int) -> char {
    if d == 0 {
        '0'
    } else if d == 1 {
        '1'
    } else if d == 2 {
        '2'
    } else if d == 3 {
        '3'
    } else if d == 4 {
        '4'
    } else if d == 5 {
        '5'
    } else if d == 6 {
        '6'
    } else if d == 7 {
        '7'
    } else if d == 8 {
        '8'
    } else {
        '9'
    }
}

/// The usual decimal rendering of a number, most significant digit first,
/// without leading zeros (a lone zero for 0).
pub open spec fn decimal_digits(n: nat) -> Seq<char>
    decreases n,
{
    if n < 10 {
        seq![digit_char(n as int)]
    } else {
        decimal_digits(n / 10) + seq![digit_char((n % 10) as int)]
    }
}

/// The fixed-format detection line for a sample index.
pub open spec fn detection_msg_text(index: nat) -> Seq<char> {
    "contact detected on sample "@ + decimal_digits(index) + "! Adding to detection events"@
}

/// The characters of collected digit values read back most significant
/// first: the values arrive least significant first, so the order reverses.
pub open spec fn digits_rev_chars(ds: Seq<u8>) -> Seq<char> {
    Seq::new(ds.len(), |i: int| digit_char(ds[ds.len() - 1 - i] as int))
}

/// The single-character text of one decimal digit value.
fn digit_str(d: u8) -> (r: &'static str)
    requires
        d < 10,
    ensures
        r@ =~= seq![digit_char(d as int)],
{
    proof {
        reveal_strlit("0");
        reveal_strlit("1");
        reveal_strlit("2");
        reveal_strlit("3");
        reveal_strlit("4");
        reveal_strlit("5");
        reveal_strlit("6");
        reveal_strlit("7");
        reveal_strlit("8");
        reveal_strlit("9");
    }
    match d {
        0 => "0",
        1 => "1",
        2 => "2",
        3 => "3",
        4 => "4",
        5 => "5",
        6 => "6",
        7 => "7",
        8 => "8",
        _ => "9",
    }
}

/// Newtype that captures the logical index of the confirming sample when
/// `Buffers::detect_contact` succeeds; `render` turns it into the fixed
/// human-readable line handed to the log sink outside this core.
#[derive(Clone, Copy, Debug, PartialEq, Eq, Structural)]
pub struct DetectionMsg(pub SampleCounter);

impl DetectionMsg {
    /// Create a detection message carrying `Buffers::detection_idx`.
    pub fn create(buffer: &Buffers) -> (m: DetectionMsg)
        requires
            buffer.current_sample.0 >= 1,
        ensures
            m.0.0 == buffer.current_sample.0 - 1,
    {
        DetectionMsg(SampleCounter(buffer.detection_idx()))
    }

    /// The logical sample index the message reports.
    pub fn sample_index(&self) -> (r: usize)
        ensures
            r == self.0.0,
    {
        self.0.get_counter()
    }

    /// Render the fixed-format human-readable line
    /// "contact detected on sample {index}! Adding to detection events".
    pub fn render(&self) -> (r: String)
        ensures
            r@ == detection_msg_text(self.0.0 as nat),
    {
        let index = self.0.get_counter();
        // Collect the decimal digit values, least significant first.
        let mut digit_values: Vec<u8> = Vec::new();
        let mut remaining: usize = index;
        let first_digit = (remaining % 10) as u8;
        proof {
            if remaining < 10 {
                lemma_small_mod(remaining as nat, 10);
            }
            assert(digits_rev_chars(seq![first_digit]) =~= seq![digit_char(first_digit as int)]);
        }
        digit_values.push(first_digit);
        remaining = remaining / 10;
        while remaining > 0
            invariant
                digit_values@.len() > 0,
                forall|k: int| 0 <= k < digit_values@.len() ==> digit_values@[k] < 10,
                remaining == 0 ==> decimal_digits(index as nat) =~= digits_rev_chars(
                    digit_values@,
                ),
                remaining > 0 ==> decimal_digits(index as nat) =~= decimal_digits(remaining as nat)
                    + digits_rev_chars(digit_values@),
            decreases remaining,
        {
            let digit = (remaining % 10) as u8;
            let rest = remaining / 10;
            proof {
                let ds = digit_values@;
                assert(digits_rev_chars(ds.push(digit)) =~= seq![digit_char(digit as int)]
                    + digits_rev_chars(ds));
                if remaining < 10 {
                    lemma_small_mod(remaining as nat, 10);
                }
            }
            digit_values.push(digit);
            remaining = rest;
        }
        // Emit the digits most significant first between the two fixed parts.
        let mut line: String = "contact detected on sample ".to_owned();
        let count = digit_values.len();
        let mut i: usize = count;
        while i > 0
            invariant
                i <= count,
                count == digit_values@.len(),
                forall|k: int| 0 <= k < count ==> digit_values@[k] < 10,
                line@ =~= "contact detected on sample "@ + digits_rev_chars(digit_values@).take(
                    count - i,
                ),
            decreases i,
        {
            i = i - 1;
            line.append(digit_str(digit_values[i]));
            proof {
                let rev = digits_rev_chars(digit_values@);
                assert(rev.take(count - i) =~= rev.take(count - i - 1) + seq![rev[count - i - 1]]);
            }
        }
        proof {
            assert(digits_rev_chars(digit_values@).take(count as int) =~= digits_rev_chars(
                digit_values@,
            ));
        }
        line.append("! Adding to detection events");
        proof {
            assert(line@ =~= detection_msg_text(self.0.0 as nat));
        }
        line
    }
}

} // verus!
