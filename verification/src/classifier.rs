use vstd::prelude::*;
use crate::press::PressType;

verus! {

/// Settle delay after a rising edge before the line is reconfirmed high, in
/// milliseconds.
pub const SETTLE_DELAY_MS: u64 = 1;

/// Hold duration at which a press stops being short and becomes long, in
/// milliseconds.
pub const HOLD_THRESHOLD_MS: u64 = 200;

/// What the reader loop observed on the input line, already resolved in
/// time: the loop waits on edges and timers and reports whichever condition
/// became true first.
#[derive(Clone, Copy, Debug, PartialEq, Eq, Structural)]
pub enum LineEvent {
    /// A rising edge: a press (or a bounce) began.
    Rose,
    /// The settle delay elapsed; `high` is the line level sampled then.
    Settled { high: bool },
    /// The hold threshold elapsed with the line still high.
    HoldExpired,
    /// A falling edge: the button was released.
    Fell,
}

/// Where the classifier stands between two line events.
#[derive(Clone, Copy, Debug, PartialEq, Eq, Structural)]
pub enum ClassifierState {
    /// Waiting for a rising edge.
    Idle,
    /// A rising edge was seen; waiting out the settle delay.
    Debouncing,
    /// The press was confirmed; racing the hold threshold against release.
    Deciding,
    /// A long press was emitted; waiting for the eventual release.
    HeldDown,
}

/// One step of the classifier: the next state and the press event emitted,
/// if this step finished classifying a press.
///
/// A settle check that finds the line low is a bounce: the classifier
/// returns to Idle and waits for a fresh rising edge, emitting nothing.
/// A release before the hold threshold emits Short; the threshold elapsing
/// first emits Long, and the eventual release is then swallowed. Events that
/// cannot occur in a state leave it unchanged.
pub open spec fn spec_classifier_step(s: ClassifierState, e: LineEvent) -> (
    ClassifierState,
    Option<PressType>,
) {
    match s {
        ClassifierState::Idle => match e {
            LineEvent::Rose => (ClassifierState::Debouncing, None),
            _ => (ClassifierState::Idle, None),
        },
        ClassifierState::Debouncing => match e {
            LineEvent::Settled { high } => if high {
                (ClassifierState::Deciding, None)
            } else {
                (ClassifierState::Idle, None)
            },
            _ => (ClassifierState::Debouncing, None),
        },
        ClassifierState::Deciding => match e {
            LineEvent::Fell => (ClassifierState::Idle, Some(PressType::Short)),
            LineEvent::HoldExpired => (ClassifierState::HeldDown, Some(PressType::Long)),
            _ => (ClassifierState::Deciding, None),
        },
        ClassifierState::HeldDown => match e {
            LineEvent::Fell => (ClassifierState::Idle, None),
            _ => (ClassifierState::HeldDown, None),
        },
    }
}

/// The press-classification state machine of the reader loop.
pub struct ButtonClassifier {
    state: ClassifierState,
}

impl ButtonClassifier {
    /// Where the classifier stands now.
    pub closed spec fn state(self) -> ClassifierState {
        self.state
    }

    /// A fresh classifier waits for a rising edge.
    pub fn new() -> (r: ButtonClassifier)
        ensures
            r.state() == ClassifierState::Idle,
    {
        ButtonClassifier { state: ClassifierState::Idle }
    }

    /// Feed one observed line event; returns the classified press if this
    /// event completed one.
    pub fn step(&mut self, e: LineEvent) -> (emit: Option<PressType>)
        ensures
            final(self).state() == spec_classifier_step(old(self).state(), e).0,
            emit == spec_classifier_step(old(self).state(), e).1,
    {
        let (next, emit) = classifier_step(self.state, e);
        self.state = next;
        emit
    }
}

/// Executable classifier step; total over every (state, event) pair.
pub fn classifier_step(s: ClassifierState, e: LineEvent) -> (r: (
    ClassifierState,
    Option<PressType>,
))
    ensures
        r == spec_classifier_step(s, e),
{
    match s {
        ClassifierState::Idle => match e {
            LineEvent::Rose => (ClassifierState::Debouncing, None),
            _ => (ClassifierState::Idle, None),
        },
        ClassifierState::Debouncing => match e {
            LineEvent::Settled { high } => if high {
                (ClassifierState::Deciding, None)
            } else {
                (ClassifierState::Idle, None)
            },
            _ => (ClassifierState::Debouncing, None),
        },
        ClassifierState::Deciding => match e {
            LineEvent::Fell => (ClassifierState::Idle, Some(PressType::Short)),
            LineEvent::HoldExpired => (ClassifierState::HeldDown, Some(PressType::Long)),
            _ => (ClassifierState::Deciding, None),
        },
        ClassifierState::HeldDown => match e {
            LineEvent::Fell => (ClassifierState::Idle, None),
            _ => (ClassifierState::HeldDown, None),
        },
    }
}

/// A physical press as the electrical level shows it: `bounces` glitches
/// shorter than the settle delay before the line stabilizes high, then a
/// hold of `hold_ms` milliseconds before the release.
pub struct PressRecord {
    pub bounces: nat,
    pub hold_ms: nat,
}

/// What the classifier owes for one press: Short under the hold threshold,
/// Long at or above it.
pub open spec fn spec_classify(p: PressRecord) -> PressType {
    if p.hold_ms >= HOLD_THRESHOLD_MS {
        PressType::Long
    } else {
        PressType::Short
    }
}

/// The two line events one bounce produces: a rising edge, then a settle
/// check that finds the line low again.
pub open spec fn bounce_events() -> Seq<LineEvent> {
    seq![LineEvent::Rose, LineEvent::Settled { high: false }]
}

/// The line events of `k` bounces in a row.
pub open spec fn bounces_events(k: nat) -> Seq<LineEvent>
    decreases k,
{
    if k == 0 {
        Seq::empty()
    } else {
        bounces_events((k - 1) as nat) + bounce_events()
    }
}

/// The line events of a stable press once the line holds high: the rising
/// edge, the settle check, and the hold race's outcome in real time — the
/// release first for a short hold, the threshold first (then the release)
/// for a long one.
pub open spec fn press_core_events(p: PressRecord) -> Seq<LineEvent> {
    if p.hold_ms >= HOLD_THRESHOLD_MS {
        seq![
            LineEvent::Rose,
            LineEvent::Settled { high: true },
            LineEvent::HoldExpired,
            LineEvent::Fell,
        ]
    } else {
        seq![LineEvent::Rose, LineEvent::Settled { high: true }, LineEvent::Fell]
    }
}

/// All line events of one physical press, bounces included.
pub open spec fn press_events(p: PressRecord) -> Seq<LineEvent> {
    bounces_events(p.bounces) + press_core_events(p)
}

/// The line events of a whole sequence of presses, in order.
pub open spec fn presses_events(ps: Seq<PressRecord>) -> Seq<LineEvent>
    decreases ps.len(),
{
    if ps.len() == 0 {
        Seq::empty()
    } else {
        press_events(ps[0]) + presses_events(ps.drop_first())
    }
}

/// The press events owed for a sequence of presses, in arrival order.
pub open spec fn spec_classify_all(ps: Seq<PressRecord>) -> Seq<PressType> {
    ps.map_values(|p: PressRecord| spec_classify(p))
}

/// Run the classifier over a sequence of line events: the final state and
/// every press event emitted along the way, in order.
pub open spec fn run_classifier(s: ClassifierState, events: Seq<LineEvent>) -> (
    ClassifierState,
    Seq<PressType>,
)
    decreases events.len(),
{
    if events.len() == 0 {
        (s, Seq::<PressType>::empty())
    } else {
        let step = spec_classifier_step(s, events[0]);
        let rest = run_classifier(step.0, events.drop_first());
        (
            rest.0,
            match step.1 {
                Some(p) => seq![p] + rest.1,
                None => rest.1,
            },
        )
    }
}

/// Running the classifier over two event sequences in a row is running it
/// over their concatenation.
pub proof fn lemma_run_append(s: ClassifierState, a: Seq<LineEvent>, b: Seq<LineEvent>)
    ensures
        run_classifier(s, a + b).0 == run_classifier(run_classifier(s, a).0, b).0,
        run_classifier(s, a + b).1 == run_classifier(s, a).1 + run_classifier(
            run_classifier(s, a).0,
            b,
        ).1,
    decreases a.len(),
{
    if a.len() == 0 {
        assert(a + b =~= b);
        assert(run_classifier(s, a).1 + run_classifier(run_classifier(s, a).0, b).1
            =~= run_classifier(s, b).1);
    } else {
        let step = spec_classifier_step(s, a[0]);
        assert((a + b)[0] == a[0]);
        assert((a + b).drop_first() =~= a.drop_first() + b);
        lemma_run_append(step.0, a.drop_first(), b);
        match step.1 {
            Some(p) => {
                assert(seq![p] + (run_classifier(step.0, a.drop_first()).1 + run_classifier(
                    run_classifier(step.0, a.drop_first()).0,
                    b,
                ).1) =~= (seq![p] + run_classifier(step.0, a.drop_first()).1) + run_classifier(
                    run_classifier(step.0, a.drop_first()).0,
                    b,
                ).1);
            },
            None => {},
        }
    }
}

/// Law: bounces alone never produce a press event; the classifier returns
/// to waiting for a rising edge.
pub proof fn lemma_bounces_silent(k: nat)
    ensures
        run_classifier(ClassifierState::Idle, bounces_events(k)).0 == ClassifierState::Idle,
        run_classifier(ClassifierState::Idle, bounces_events(k)).1 == Seq::<PressType>::empty(),
    decreases k,
{
    reveal_with_fuel(run_classifier, 3);
    if k > 0 {
        lemma_bounces_silent((k - 1) as nat);
        lemma_run_append(ClassifierState::Idle, bounces_events((k - 1) as nat), bounce_events());
        assert(bounce_events().drop_first() =~= seq![LineEvent::Settled { high: false }]);
        assert(seq![LineEvent::Settled { high: false }].drop_first()
            =~= Seq::<LineEvent>::empty());
        assert(run_classifier(ClassifierState::Idle, bounce_events()).0 == ClassifierState::Idle);
        assert(run_classifier(ClassifierState::Idle, bounce_events()).1
            =~= Seq::<PressType>::empty());
    }
}

/// Once the line is stable, the confirmed press emits exactly its
/// classification and the classifier returns to waiting.
pub proof fn lemma_press_core(p: PressRecord)
    ensures
        run_classifier(ClassifierState::Idle, press_core_events(p)).0 == ClassifierState::Idle,
        run_classifier(ClassifierState::Idle, press_core_events(p)).1 == seq![spec_classify(p)],
{
    reveal_with_fuel(run_classifier, 6);
    let es = press_core_events(p);
    if p.hold_ms >= HOLD_THRESHOLD_MS {
        assert(es.drop_first() =~= seq![
            LineEvent::Settled { high: true },
            LineEvent::HoldExpired,
            LineEvent::Fell,
        ]);
        assert(es.drop_first().drop_first() =~= seq![LineEvent::HoldExpired, LineEvent::Fell]);
        assert(es.drop_first().drop_first().drop_first() =~= seq![LineEvent::Fell]);
        assert(es.drop_first().drop_first().drop_first().drop_first()
            =~= Seq::<LineEvent>::empty());
        assert(run_classifier(ClassifierState::Idle, es).1 =~= seq![PressType::Long]);
    } else {
        assert(es.drop_first() =~= seq![LineEvent::Settled { high: true }, LineEvent::Fell]);
        assert(es.drop_first().drop_first() =~= seq![LineEvent::Fell]);
        assert(es.drop_first().drop_first().drop_first() =~= Seq::<LineEvent>::empty());
        assert(run_classifier(ClassifierState::Idle, es).1 =~= seq![PressType::Short]);
    }
}

/// Law: one physical press emits exactly one press event — its
/// classification — whatever its bounce count, and leaves the classifier
/// waiting for the next press.
pub proof fn lemma_press_once(p: PressRecord)
    ensures
        run_classifier(ClassifierState::Idle, press_events(p)).0 == ClassifierState::Idle,
        run_classifier(ClassifierState::Idle, press_events(p)).1 == seq![spec_classify(p)],
{
    lemma_bounces_silent(p.bounces);
    lemma_run_append(ClassifierState::Idle, bounces_events(p.bounces), press_core_events(p));
    lemma_press_core(p);
    assert(Seq::<PressType>::empty() + seq![spec_classify(p)] =~= seq![spec_classify(p)]);
}

/// Law: a sequence of physical presses emits exactly one press event per
/// press, each its classification, in arrival order.
pub proof fn lemma_classifier_emits_in_order(ps: Seq<PressRecord>)
    ensures
        run_classifier(ClassifierState::Idle, presses_events(ps)).0 == ClassifierState::Idle,
        run_classifier(ClassifierState::Idle, presses_events(ps)).1 == spec_classify_all(ps),
    decreases ps.len(),
{
    if ps.len() == 0 {
        assert(spec_classify_all(ps) =~= Seq::<PressType>::empty());
    } else {
        lemma_press_once(ps[0]);
        lemma_run_append(ClassifierState::Idle, press_events(ps[0]), presses_events(
            ps.drop_first(),
        ));
        lemma_classifier_emits_in_order(ps.drop_first());
        assert(seq![spec_classify(ps[0])] + spec_classify_all(ps.drop_first())
            =~= spec_classify_all(ps));
    }
}

/// Law: presses all held under the hold threshold emit exactly one Short
/// each, in arrival order.
pub proof fn lemma_short_presses(ps: Seq<PressRecord>)
    requires
        forall|i: int| 0 <= i < ps.len() ==> ps[i].hold_ms < HOLD_THRESHOLD_MS,
    ensures
        run_classifier(ClassifierState::Idle, presses_events(ps)).1 == Seq::new(
            ps.len(),
            |i: int| PressType::Short,
        ),
{
    lemma_classifier_emits_in_order(ps);
    assert(spec_classify_all(ps) =~= Seq::new(ps.len(), |i: int| PressType::Short));
}

/// Law: presses held at or beyond the hold threshold emit exactly one Long
/// each, whatever the exact hold duration.
pub proof fn lemma_long_presses(ps: Seq<PressRecord>)
    requires
        forall|i: int| 0 <= i < ps.len() ==> ps[i].hold_ms >= HOLD_THRESHOLD_MS,
    ensures
        run_classifier(ClassifierState::Idle, presses_events(ps)).1 == Seq::new(
            ps.len(),
            |i: int| PressType::Long,
        ),
{
    lemma_classifier_emits_in_order(ps);
    assert(spec_classify_all(ps) =~= Seq::new(ps.len(), |i: int| PressType::Long));
}

/// Law: contact bounce before the line stabilizes adds no extra press
/// event: two presses of equal hold emit the same single event, whatever
/// their bounce counts.
pub proof fn lemma_bounce_adds_nothing(p: PressRecord, q: PressRecord)
    requires
        p.hold_ms == q.hold_ms,
    ensures
        run_classifier(ClassifierState::Idle, press_events(p)).1 == run_classifier(
            ClassifierState::Idle,
            press_events(q),
        ).1,
        run_classifier(ClassifierState::Idle, press_events(p)).1.len() == 1,
{
    lemma_press_once(p);
    lemma_press_once(q);
}

} // verus!
