//! The cooperative frame loop.
//!
//! One logical task drives the application: each iteration drains every
//! pending message that the active filter admits, hands them to the
//! application, updates state, issues draw calls against a batch, and
//! presents the batch.  The loop is a two-state machine: it starts
//! `Running` and moves to `Stopped` on an application-level decision —
//! here, observing a fresh press of the escape key — or on a fatal input
//! error, and never moves back.

use vstd::prelude::*;

use crate::keycode::KeyCode;
use crate::msg::{admits_code, classified, kind_of};
use crate::msg::{ExMessage, ExMessageType, InputError, Message, MessageFilter, RawEvent};
use crate::queue::{
    drained_end, first_admitted, lemma_drained_end_unique, lemma_first_admitted,
    lemma_surfaced_empty_iff, surfaced, EventQueue,
};

verus! {

/// The classified forms of a sequence of records, in order.
pub open spec fn classified_all(s: Seq<RawEvent>) -> Seq<ExMessage> {
    s.map_values(|r: RawEvent| classified(r))
}

/// The index of the first record of `s` whose identifier is outside the
/// closed set, or `s.len()` where every identifier is known.
pub open spec fn first_unknown(s: Seq<RawEvent>) -> int
    decreases s.len(),
{
    if s.len() == 0 {
        0
    } else if kind_of(s[0].message) is None {
        0
    } else {
        1 + first_unknown(s.drop_first())
    }
}

/// Drains the pending records that `filter` admits, oldest first, by
/// repeated consuming polls until the queue reports none left.
///
/// On success the result holds the classified form of every admitted
/// record that was pending on entry, in arrival order, and the queue keeps
/// exactly the suffix that arrived after the last admitted record.  The
/// drain fails only where a surfaced record has an unknown identifier
/// (possible only under [`MessageFilter::All`]); the error names that
/// record's identifier and the record stays at the front of the queue.
pub fn drain_events(queue: &mut EventQueue, filter: MessageFilter) -> (res: Result<
    Vec<ExMessage>,
    InputError,
>)
    ensures
        ({
            let s = old(queue)@;
            let m = surfaced(s, filter);
            &&& (res is Ok <==> first_unknown(m) == m.len())
            &&& (res matches Ok(v) ==> v@ == classified_all(m) && final(queue)@ == s.skip(
                drained_end(s, filter),
            ))
            &&& (res matches Err(e) ==> e == InputError::UnrecognizedEventKind(
                m[first_unknown(m)].message,
            ) && surfaced(final(queue)@, filter) == m.skip(first_unknown(m)))
        }),
{
    let ghost s = queue@;
    let ghost m = surfaced(s, filter);
    let mut out: Vec<ExMessage> = Vec::new();
    let ghost mut jj: int = 0;
    proof {
        assert(s.skip(0) =~= s);
        assert(m.skip(0) =~= m);
    }
    loop
        invariant
            s == old(queue)@,
            queue@ == s.skip(jj),
            0 <= jj <= s.len(),
            jj > 0 ==> admits_code(filter, s[jj - 1].message),
            m == surfaced(s, filter),
            surfaced(queue@, filter) =~= m.skip(out@.len() as int),
            out@.len() <= m.len(),
            forall|i: int|
                0 <= i < out@.len() ==> kind_of(#[trigger] m[i].message) is Some && out@[i]
                    == classified(m[i]),
        decreases s.len() - jj,
    {
        let ghost cur = queue@;
        let ghost c = out@.len() as int;
        proof {
            lemma_first_admitted(cur, filter);
        }
        match queue.poll(filter, true) {
            Ok(None) => {
                proof {
                    // nothing admitted is left, so the drain is complete
                    assert(surfaced(cur, filter).len() == 0);
                    assert(m.skip(c).len() == 0);
                    assert(c == m.len());
                    assert(out@ =~= classified_all(m));
                    lemma_first_unknown_unique(m, c);
                    lemma_surfaced_empty_iff(cur, filter);
                    assert forall|i: int| jj <= i < s.len() implies !admits_code(
                        filter,
                        #[trigger] s[i].message,
                    ) by {
                        assert(cur[i - jj] == s[i]);
                    }
                    lemma_drained_end_unique(s, filter, jj);
                }
                return Ok(out);
            },
            Ok(Some(msg)) => {
                proof {
                    let fa = first_admitted(cur, filter);
                    assert(surfaced(cur, filter)[0] == cur[fa]);
                    assert(m.skip(c)[0] == m[c]);
                    assert(msg == classified(m[c]));
                    assert(surfaced(cur.skip(fa + 1), filter) == surfaced(cur, filter)
                        .drop_first());
                    assert(surfaced(cur, filter).drop_first() =~= m.skip(c + 1));
                    assert(cur.skip(fa + 1) =~= s.skip(jj + fa + 1));
                    assert(s[jj + fa] == cur[fa]);
                    jj = jj + fa + 1;
                }
                out.push(msg);
            },
            Err(e) => {
                proof {
                    let fa = first_admitted(cur, filter);
                    assert(surfaced(cur, filter)[0] == cur[fa]);
                    assert(m.skip(c)[0] == m[c]);
                    assert(kind_of(m[c].message) is None);
                    // every earlier surfaced record had a known kind, so
                    // the failing one is the first unknown
                    assert forall|i: int| 0 <= i < c implies kind_of(
                        #[trigger] m[i].message,
                    ) is Some by {}
                    lemma_first_unknown_unique(m, c);
                }
                return Err(e);
            },
        }
    }
}

/// Only one index can be the first with an unknown identifier.
proof fn lemma_first_unknown_unique(s: Seq<RawEvent>, j: int)
    requires
        0 <= j <= s.len(),
        forall|i: int| 0 <= i < j ==> kind_of(#[trigger] s[i].message) is Some,
        j < s.len() ==> kind_of(s[j].message) is None,
    ensures
        j == first_unknown(s),
    decreases s.len(),
{
    if s.len() > 0 {
        if kind_of(s[0].message) is None {
            assert(j == 0);
        } else {
            assert(j > 0 || j < s.len());
            lemma_first_unknown_unique(s.drop_first(), j - 1);
            assert(forall|i: int| 0 <= i < s.drop_first().len() ==> s.drop_first()[i] == s[i
                + 1]);
        }
    }
}

/// Whether a message is a fresh press of the escape key: a key-down of
/// `Escape` whose key was not already held down.
pub open spec fn is_escape_press(m: ExMessage) -> bool {
    m.ty == ExMessageType::KeyDown && (m.msg matches Message::KeyBoard {
        vkcode,
        prevdown,
        ..
    } && vkcode == KeyCode::Escape && !prevdown)
}

/// Whether any message of `v` is a fresh escape press.
pub open spec fn any_escape_press(v: Seq<ExMessage>) -> bool {
    exists|i: int| 0 <= i < v.len() && is_escape_press(v[i])
}

/// Whether a message is a fresh press of the escape key.
pub fn escape_press(m: &ExMessage) -> (b: bool)
    ensures
        b == is_escape_press(*m),
{
    if m.ty == ExMessageType::KeyDown {
        match m.msg {
            Message::KeyBoard { vkcode, prevdown, .. } => vkcode == KeyCode::Escape
                && !prevdown,
            _ => false,
        }
    } else {
        false
    }
}

/// The two states of the frame loop.
#[derive(Debug, Clone, Copy, PartialEq, Eq, Structural)]
pub enum LoopState {
    /// The loop renders frames and accepts input.
    Running,
    /// The loop has exited; the batch scope is to be closed and the
    /// surface released.
    Stopped,
}

/// The frame loop: its state and the filter its input phase drains under.
#[derive(Debug)]
pub struct FrameLoop {
    state: LoopState,
    filter: MessageFilter,
}

impl FrameLoop {
    /// The current state.
    pub closed spec fn spec_state(self) -> LoopState {
        self.state
    }

    /// The filter the input phase drains under.
    pub closed spec fn spec_filter(self) -> MessageFilter {
        self.filter
    }

    /// A fresh loop, entered in the `Running` state.
    pub fn new(filter: MessageFilter) -> (fl: FrameLoop)
        ensures
            fl.spec_state() == LoopState::Running,
            fl.spec_filter() == filter,
    {
        FrameLoop { state: LoopState::Running, filter }
    }

    /// The current state.
    pub fn state(&self) -> (st: LoopState)
        ensures
            st == self.spec_state(),
    {
        self.state
    }

    /// Stops the loop: an explicit application-level decision.
    pub fn stop(&mut self)
        ensures
            final(self).spec_state() == LoopState::Stopped,
            final(self).spec_filter() == old(self).spec_filter(),
    {
        self.state = LoopState::Stopped;
    }

    /// The input phase of one frame iteration: drains every pending
    /// admitted message and decides whether the loop keeps running.
    ///
    /// The loop stops within this same iteration exactly when a drained
    /// message is a fresh escape press, and also on a fatal input error,
    /// which is never silently swallowed.
    pub fn frame_input(&mut self, queue: &mut EventQueue) -> (res: Result<
        Vec<ExMessage>,
        InputError,
    >)
        requires
            old(self).spec_state() == LoopState::Running,
        ensures
            final(self).spec_filter() == old(self).spec_filter(),
            ({
                let s = old(queue)@;
                let m = surfaced(s, old(self).spec_filter());
                &&& (res is Ok <==> first_unknown(m) == m.len())
                &&& (res matches Ok(v) ==> v@ == classified_all(m) && final(queue)@ == s.skip(
                    drained_end(s, old(self).spec_filter()),
                ))
                &&& (res matches Err(e) ==> e == InputError::UnrecognizedEventKind(
                    m[first_unknown(m)].message,
                ))
            }),
            res matches Ok(v) ==> final(self).spec_state() == (if any_escape_press(v@) {
                LoopState::Stopped
            } else {
                LoopState::Running
            }),
            res is Err ==> final(self).spec_state() == LoopState::Stopped,
    {
        match drain_events(queue, self.filter) {
            Ok(events) => {
                let n = events.len();
                let mut i: usize = 0;
                let mut saw_escape = false;
                while i < n
                    invariant
                        n == events@.len(),
                        0 <= i <= n,
                        saw_escape == exists|j: int|
                            0 <= j < i && is_escape_press(events@[j]),
                    decreases n - i,
                {
                    if escape_press(&events[i]) {
                        saw_escape = true;
                    }
                    i += 1;
                }
                if saw_escape {
                    self.state = LoopState::Stopped;
                }
                Ok(events)
            },
            Err(e) => {
                self.state = LoopState::Stopped;
                Err(e)
            },
        }
    }
}

} // verus!
