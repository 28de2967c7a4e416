//! The events a monitor reports and the reason codes they come from.
use vstd::prelude::*;

verus! {

/// The classified outcome of one device-change notification.
#[derive(Debug, Clone, Copy, PartialEq, Eq, Structural)]
pub enum SystemEvent {
    DevAdded,
    DevRemoved,
    DevNodesChanged,
}

/// Reason code: a device or piece of media has been inserted.
pub const DBT_DEVICEARRIVAL: u32 = 0x8000;

/// Reason code: a device or piece of media has been removed.
pub const DBT_DEVICEREMOVECOMPLETE: u32 = 0x8004;

/// Reason code: a device has been added to or removed from the system.
pub const DBT_DEVNODES_CHANGED: u32 = 0x0007;

/// The event that one reason code maps to; `None` for a code that is not reported.
pub open spec fn event_of(reason: u32) -> Option<SystemEvent> {
    if reason == DBT_DEVICEARRIVAL {
        Some(SystemEvent::DevAdded)
    } else if reason == DBT_DEVICEREMOVECOMPLETE {
        Some(SystemEvent::DevRemoved)
    } else if reason == DBT_DEVNODES_CHANGED {
        Some(SystemEvent::DevNodesChanged)
    } else {
        None
    }
}

/// Classifies the reason code of a device-change notification.
pub fn classify(reason: u32) -> (r: Option<SystemEvent>)
    ensures
        r == event_of(reason),
{
    if reason == DBT_DEVICEARRIVAL {
        Some(SystemEvent::DevAdded)
    } else if reason == DBT_DEVICEREMOVECOMPLETE {
        Some(SystemEvent::DevRemoved)
    } else if reason == DBT_DEVNODES_CHANGED {
        Some(SystemEvent::DevNodesChanged)
    } else {
        None
    }
}

/// The events that a sequence of reason codes gives, in the order of the codes:
/// each code is mapped by `event_of`, and codes that map to nothing are left out.
pub open spec fn events_of(reasons: Seq<u32>) -> Seq<SystemEvent> {
    reasons.filter_map(|c: u32| event_of(c))
}

/// Classifies a whole sequence of reason codes, keeping their order.
pub fn classify_all(reasons: &Vec<u32>) -> (r: Vec<SystemEvent>)
    ensures
        r@ == events_of(reasons@),
{
    let mut out: Vec<SystemEvent> = Vec::new();
    let mut i: usize = 0;
    while i < reasons.len()
        invariant
            i <= reasons.len(),
            out@ == events_of(reasons@.take(i as int)),
        decreases reasons.len() - i,
    {
        proof {
            reasons@.lemma_filter_map_take_succ(|c: u32| event_of(c), i as int);
        }
        match classify(reasons[i]) {
            Some(e) => out.push(e),
            None => {},
        }
        i = i + 1;
    }
    assert(reasons@.take(reasons.len() as int) =~= reasons@);
    out
}

/// Classifying two runs of codes one after the other gives the events of the
/// first run followed by those of the second: the order of the codes is kept.
pub proof fn lemma_events_of_concat(a: Seq<u32>, b: Seq<u32>)
    ensures
        events_of(a + b) == events_of(a) + events_of(b),
    decreases b.len(),
{
    if b.len() == 0 {
        assert(a + b =~= a);
        assert(events_of(a) + events_of(b) =~= events_of(a));
    } else {
        let b0 = b.drop_last();
        lemma_events_of_concat(a, b0);
        assert((a + b).drop_last() =~= a + b0);
        assert((a + b).last() == b.last());
        match event_of(b.last()) {
            Some(e) => {
                assert(events_of(a) + events_of(b) =~= events_of(a) + events_of(b0) + seq![e]);
            },
            None => {},
        }
    }
}

/// No code gives more than one event.
pub proof fn lemma_events_of_len(reasons: Seq<u32>)
    ensures
        events_of(reasons).len() <= reasons.len(),
    decreases reasons.len(),
{
    if reasons.len() > 0 {
        lemma_events_of_len(reasons.drop_last());
    }
}

/// The events of a single reason code: one event, or none.
proof fn lemma_events_of_single(code: u32)
    ensures
        events_of(seq![code]) == match event_of(code) {
            Some(e) => seq![e],
            None => Seq::<SystemEvent>::empty(),
        },
{
    Seq::lemma_filter_map_singleton(code, |c: u32| event_of(c));
}

/// One code placed between two runs contributes exactly its own events between
/// the events of those runs.
proof fn lemma_events_of_occurrence(a: Seq<u32>, code: u32, b: Seq<u32>)
    ensures
        events_of(a + seq![code] + b) == events_of(a) + events_of(seq![code]) + events_of(b),
{
    lemma_events_of_concat(a, seq![code]);
    lemma_events_of_concat(a + seq![code], b);
}

/// Each arrival code gives exactly one `DevAdded` event, in its place, and nothing else.
pub proof fn lemma_arrival_gives_added(a: Seq<u32>, b: Seq<u32>)
    ensures
        events_of(a + seq![DBT_DEVICEARRIVAL] + b) == events_of(a) + seq![SystemEvent::DevAdded]
            + events_of(b),
{
    lemma_events_of_occurrence(a, DBT_DEVICEARRIVAL, b);
    lemma_events_of_single(DBT_DEVICEARRIVAL);
}

/// Each removal-complete code gives exactly one `DevRemoved` event, in its place, and nothing else.
pub proof fn lemma_removal_gives_removed(a: Seq<u32>, b: Seq<u32>)
    ensures
        events_of(a + seq![DBT_DEVICEREMOVECOMPLETE] + b) == events_of(a) + seq![
            SystemEvent::DevRemoved,
        ] + events_of(b),
{
    lemma_events_of_occurrence(a, DBT_DEVICEREMOVECOMPLETE, b);
    lemma_events_of_single(DBT_DEVICEREMOVECOMPLETE);
}

/// Each nodes-changed code gives exactly one `DevNodesChanged` event, in its place, and nothing else.
pub proof fn lemma_nodes_changed_gives_nodes_changed(a: Seq<u32>, b: Seq<u32>)
    ensures
        events_of(a + seq![DBT_DEVNODES_CHANGED] + b) == events_of(a) + seq![
            SystemEvent::DevNodesChanged,
        ] + events_of(b),
{
    lemma_events_of_occurrence(a, DBT_DEVNODES_CHANGED, b);
    lemma_events_of_single(DBT_DEVNODES_CHANGED);
}

/// A code other than arrival, removal-complete and nodes-changed gives no event.
pub proof fn lemma_other_code_gives_nothing(a: Seq<u32>, code: u32, b: Seq<u32>)
    requires
        code != DBT_DEVICEARRIVAL,
        code != DBT_DEVICEREMOVECOMPLETE,
        code != DBT_DEVNODES_CHANGED,
    ensures
        events_of(a + seq![code] + b) == events_of(a) + events_of(b),
{
    lemma_events_of_occurrence(a, code, b);
    lemma_events_of_single(code);
    assert(events_of(a) + Seq::<SystemEvent>::empty() =~= events_of(a));
}

/// The reason code that gives each event.
pub open spec fn code_of(e: SystemEvent) -> u32 {
    match e {
        SystemEvent::DevAdded => DBT_DEVICEARRIVAL,
        SystemEvent::DevRemoved => DBT_DEVICEREMOVECOMPLETE,
        SystemEvent::DevNodesChanged => DBT_DEVNODES_CHANGED,
    }
}

/// Whether an event is of the kind `k`.
pub open spec fn is_kind(k: SystemEvent) -> spec_fn(SystemEvent) -> bool {
    |e: SystemEvent| e == k
}

/// Whether a reason code is the one that gives events of the kind `k`.
pub open spec fn is_code_of(k: SystemEvent) -> spec_fn(u32) -> bool {
    |c: u32| c == code_of(k)
}

/// Whether a reason code gives an event at all.
pub open spec fn is_known(c: u32) -> bool {
    event_of(c) is Some
}

/// The codes of a sequence that give an event, in their order.
pub open spec fn known_codes(reasons: Seq<u32>) -> Seq<u32> {
    reasons.filter(|c: u32| is_known(c))
}

/// Of each kind, the events of a sequence of codes hold exactly as many
/// events as the sequence holds codes that give that kind.
pub proof fn lemma_events_of_count(reasons: Seq<u32>, k: SystemEvent)
    ensures
        events_of(reasons).filter(is_kind(k)).len() == reasons.filter(is_code_of(k)).len(),
    decreases reasons.len(),
{
    if reasons.len() > 0 {
        let rest = reasons.drop_last();
        let c = reasons.last();
        lemma_events_of_count(rest, k);
        assert(reasons =~= rest.push(c));
        rest.lemma_filter_push(c, is_code_of(k));
        match event_of(c) {
            Some(e) => {
                assert(events_of(reasons) =~= events_of(rest).push(e));
                events_of(rest).lemma_filter_push(e, is_kind(k));
            },
            None => {},
        }
    }
}

/// Leaving out the codes that give no event leaves the events unchanged.
proof fn lemma_events_of_known_codes(reasons: Seq<u32>)
    ensures
        events_of(reasons) == events_of(known_codes(reasons)),
    decreases reasons.len(),
{
    if reasons.len() > 0 {
        let rest = reasons.drop_last();
        let c = reasons.last();
        lemma_events_of_known_codes(rest);
        assert(reasons =~= rest.push(c));
        rest.lemma_filter_push(c, |c: u32| is_known(c));
        match event_of(c) {
            Some(e) => {
                let kept = known_codes(rest).push(c);
                assert(kept.drop_last() =~= known_codes(rest));
                assert(events_of(kept) =~= events_of(known_codes(rest)).push(e));
                assert(events_of(reasons) =~= events_of(rest).push(e));
            },
            None => {},
        }
    }
}

/// Codes that give no event, inserted anywhere and in any number, neither add,
/// remove nor reorder events: two sequences with the same known codes in the
/// same order give the same events.
pub proof fn lemma_unknown_codes_give_nothing(a: Seq<u32>, b: Seq<u32>)
    requires
        known_codes(a) == known_codes(b),
    ensures
        events_of(a) == events_of(b),
{
    lemma_events_of_known_codes(a);
    lemma_events_of_known_codes(b);
}

} // verus!
