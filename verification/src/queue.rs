//! The polled message queue at the filter boundary.
//!
//! [`EventQueue`] models the native, stateful message queue that the
//! windowing subsystem owns: records enter at the back in arrival order,
//! and [`EventQueue::poll`] surfaces the first record that the active
//! filter admits.  Filtering happens at this boundary: records outside the
//! filter are either left queued (peek) or silently dropped when a later
//! matching record is consumed past them — they are never partially
//! decoded.
//!
//! A real host feeds this queue from its window procedure; a test feeds it
//! synthetic records.  Either way the polling semantics are the same.

use vstd::prelude::*;

use crate::msg::{admits_code, classified, kind_of, family_of};
use crate::msg::{ExMessage, InputError, MessageFilter, RawEvent};

verus! {

/// The records of `s` that filter `f` admits, in arrival order.
pub open spec fn surfaced(s: Seq<RawEvent>, f: MessageFilter) -> Seq<RawEvent>
    decreases s.len(),
{
    if s.len() == 0 {
        Seq::empty()
    } else if admits_code(f, s[0].message) {
        seq![s[0]] + surfaced(s.drop_first(), f)
    } else {
        surfaced(s.drop_first(), f)
    }
}

/// The index of the first record of `s` that `f` admits, or `s.len()`
/// where none is admitted.
pub open spec fn first_admitted(s: Seq<RawEvent>, f: MessageFilter) -> int
    decreases s.len(),
{
    if s.len() == 0 {
        0
    } else if admits_code(f, s[0].message) {
        0
    } else {
        1 + first_admitted(s.drop_first(), f)
    }
}

/// The index just past the last record of `s` that `f` admits, or `0`
/// where none is admitted.  A drain that consumes every admitted record
/// leaves exactly the suffix of `s` from this index on.
pub open spec fn drained_end(s: Seq<RawEvent>, f: MessageFilter) -> int
    decreases s.len(),
{
    if s.len() == 0 {
        0
    } else if admits_code(f, s[s.len() - 1].message) {
        s.len() as int
    } else {
        drained_end(s.take(s.len() - 1), f)
    }
}


/// The `All` filter surfaces every queued record, in order.
pub proof fn lemma_surfaced_all(s: Seq<RawEvent>)
    ensures
        surfaced(s, MessageFilter::All) == s,
    decreases s.len(),
{
    if s.len() > 0 {
        lemma_surfaced_all(s.drop_first());
        assert(surfaced(s, MessageFilter::All) =~= s);
    }
}

/// A queue is free of admitted records exactly when no single record of it
/// is admitted.
pub proof fn lemma_surfaced_empty_iff(s: Seq<RawEvent>, f: MessageFilter)
    ensures
        surfaced(s, f).len() == 0 <==> (forall|i: int|
            0 <= i < s.len() ==> !admits_code(f, s[i].message)),
    decreases s.len(),
{
    if s.len() > 0 {
        lemma_surfaced_empty_iff(s.drop_first(), f);
        assert forall|i: int|
            0 <= i < s.len() && surfaced(s, f).len() == 0 implies !admits_code(
            f,
            s[i].message,
        ) by {
            if i > 0 {
                assert(s.drop_first()[i - 1] == s[i]);
            }
        }
        if forall|i: int| 0 <= i < s.len() ==> !admits_code(f, s[i].message) {
            assert(forall|i: int|
                0 <= i < s.drop_first().len() ==> s.drop_first()[i] == s[i + 1]);
        }
    }
}

/// Where the first admitted record of `s` sits, and how the surfaced
/// records relate to it: the records before it are not admitted, it heads
/// the surfaced sequence, and the rest of the surfaced sequence comes from
/// the suffix just past it.
pub proof fn lemma_first_admitted(s: Seq<RawEvent>, f: MessageFilter)
    ensures
        0 <= first_admitted(s, f) <= s.len(),
        first_admitted(s, f) == s.len() <==> surfaced(s, f).len() == 0,
        forall|j: int| 0 <= j < first_admitted(s, f) ==> !admits_code(f, s[j].message),
        first_admitted(s, f) < s.len() ==> {
            let fa = first_admitted(s, f);
            &&& admits_code(f, s[fa].message)
            &&& surfaced(s, f)[0] == s[fa]
            &&& surfaced(s, f).drop_first() == surfaced(s.skip(fa + 1), f)
        },
    decreases s.len(),
{
    if s.len() > 0 {
        lemma_first_admitted(s.drop_first(), f);
        if admits_code(f, s[0].message) {
            assert(surfaced(s, f) == seq![s[0]] + surfaced(s.drop_first(), f));
            assert(surfaced(s, f).drop_first() =~= surfaced(s.drop_first(), f));
            assert(s.skip(1) =~= s.drop_first());
        } else {
            let fa = first_admitted(s, f);
            assert(fa == 1 + first_admitted(s.drop_first(), f));
            assert(forall|j: int| 1 <= j < fa ==> s.drop_first()[j - 1] == s[j]);
            if fa < s.len() {
                assert(s.drop_first()[fa - 1] == s[fa]);
                assert(s.drop_first().skip(fa) =~= s.skip(fa + 1));
            }
        }
    }
}

/// Where a drain of `s` under `f` ends: every record from that index on is
/// outside the filter, and the record just before it (if any) is admitted.
pub proof fn lemma_drained_end(s: Seq<RawEvent>, f: MessageFilter)
    ensures
        0 <= drained_end(s, f) <= s.len(),
        forall|i: int| drained_end(s, f) <= i < s.len() ==> !admits_code(f, s[i].message),
        drained_end(s, f) > 0 ==> admits_code(f, s[drained_end(s, f) - 1].message),
    decreases s.len(),
{
    if s.len() > 0 && !admits_code(f, s[s.len() - 1].message) {
        let t = s.take(s.len() - 1);
        lemma_drained_end(t, f);
        assert(forall|i: int| 0 <= i < t.len() ==> t[i] == s[i]);
    }
}

/// Only one index can satisfy the characterization of `drained_end`.
pub proof fn lemma_drained_end_unique(s: Seq<RawEvent>, f: MessageFilter, j: int)
    requires
        0 <= j <= s.len(),
        forall|i: int| j <= i < s.len() ==> !admits_code(f, s[i].message),
        j > 0 ==> admits_code(f, s[j - 1].message),
    ensures
        j == drained_end(s, f),
{
    lemma_drained_end(s, f);
    let de = drained_end(s, f);
    if j < de {
        assert(!admits_code(f, s[de - 1].message));
    } else if j > de {
        assert(!admits_code(f, s[j - 1].message));
    }
}

/// Only one index can satisfy the characterization of `first_admitted`.
pub proof fn lemma_first_admitted_unique(s: Seq<RawEvent>, f: MessageFilter, j: int)
    requires
        0 <= j <= s.len(),
        forall|i: int| 0 <= i < j ==> !admits_code(f, s[i].message),
        j < s.len() ==> admits_code(f, s[j].message),
    ensures
        j == first_admitted(s, f),
{
    lemma_first_admitted(s, f);
    let fa = first_admitted(s, f);
    if j < fa {
        assert(!admits_code(f, s[j].message));
    } else if j > fa {
        assert(!admits_code(f, s[fa].message));
        if fa == s.len() {
            assert(fa <= j <= s.len());
        }
    }
}


/// The outcome a poll of records `s` under `filter` must deliver,
/// decided entirely by the first admitted record: empty where nothing is
/// admitted, the classified record where its kind is known, and the
/// unrecognized-kind error otherwise.
pub open spec fn poll_outcome(
    s: Seq<RawEvent>,
    filter: MessageFilter,
    res: Result<Option<ExMessage>, InputError>,
) -> bool {
    let fa = first_admitted(s, filter);
    &&& (fa == s.len() ==> res == Ok::<Option<ExMessage>, InputError>(None))
    &&& (fa < s.len() && kind_of(s[fa].message) is Some ==> res == Ok::<
        Option<ExMessage>,
        InputError,
    >(Some(classified(s[fa]))))
    &&& (fa < s.len() && kind_of(s[fa].message) is None ==> res == Err::<
        Option<ExMessage>,
        InputError,
    >(InputError::UnrecognizedEventKind(s[fa].message)))
}

/// A poll outcome is a function of the queued records and the filter
/// alone.  A non-consuming poll leaves the records as they were, so two
/// peeks in a row deliver the same outcome.
pub proof fn lemma_poll_outcome_deterministic(
    s: Seq<RawEvent>,
    filter: MessageFilter,
    r1: Result<Option<ExMessage>, InputError>,
    r2: Result<Option<ExMessage>, InputError>,
)
    requires
        poll_outcome(s, filter, r1),
        poll_outcome(s, filter, r2),
    ensures
        r1 == r2,
{
    lemma_first_admitted(s, filter);
}

/// Consuming removes exactly the surfaced head: the records left after a
/// consuming poll that returned a record surface everything the old
/// queue surfaced but the first.
pub proof fn lemma_consume_removes_head(s: Seq<RawEvent>, filter: MessageFilter)
    requires
        surfaced(s, filter).len() > 0,
    ensures
        surfaced(s.skip(first_admitted(s, filter) + 1), filter) == surfaced(
            s,
            filter,
        ).drop_first(),
{
    lemma_first_admitted(s, filter);
}

/// The message queue: raw records in arrival order, oldest first.
#[derive(Debug)]
pub struct EventQueue {
    events: Vec<RawEvent>,
}

impl View for EventQueue {
    type V = Seq<RawEvent>;

    closed spec fn view(&self) -> Seq<RawEvent> {
        self.events@
    }
}

impl EventQueue {
    /// An empty queue.
    pub fn new() -> (q: EventQueue)
        ensures
            q@ == Seq::<RawEvent>::empty(),
    {
        EventQueue { events: Vec::new() }
    }

    /// Appends one record at the back, preserving arrival order.
    pub fn push(&mut self, r: RawEvent)
        ensures
            final(self)@ == old(self)@.push(r),
    {
        self.events.push(r);
    }

    /// How many records are queued, admitted by any filter or not.
    pub fn len(&self) -> (n: usize)
        ensures
            n == self@.len(),
    {
        self.events.len()
    }

    /// Fetches the first record that `filter` admits, without blocking.
    ///
    /// Returns `Ok(None)` at once when no queued record matches; the queue
    /// is then left untouched.  When a matching record is found it is
    /// classified and returned; with `consume` false the queue is left
    /// exactly as it was, so the same record will be returned again, and
    /// with `consume` true the record is removed together with the
    /// unmatched records that preceded it, which are silently dropped.
    ///
    /// A record with an identifier outside the known set can only be
    /// surfaced by [`MessageFilter::All`]; it yields
    /// [`InputError::UnrecognizedEventKind`] and the queue is left
    /// untouched, so the error is not silently swallowed.
    pub fn poll(&mut self, filter: MessageFilter, consume: bool) -> (res: Result<
        Option<ExMessage>,
        InputError,
    >)
        ensures
            poll_outcome(old(self)@, filter, res),
            ({
                let s = old(self)@;
                let fa = first_admitted(s, filter);
                &&& (fa == s.len() ==> final(self)@ == s)
                &&& (fa < s.len() && kind_of(s[fa].message) is Some
                    ==> (consume ==> final(self)@ == s.skip(fa + 1)) && (!consume
                    ==> final(self)@ == s))
                &&& (fa < s.len() && kind_of(s[fa].message) is None ==> final(self)@ == s)
            }),
            forall|m: ExMessage|
                filter != MessageFilter::All && res == Ok::<Option<ExMessage>, InputError>(
                    Some(m),
                ) ==> family_of(m.ty) == filter,
    {
        let ghost s = self.events@;
        let n = self.events.len();
        let mut i: usize = 0;
        while i < n && !filter.admits(self.events[i].message)
            invariant
                self.events@ == s,
                n == s.len(),
                0 <= i <= n,
                forall|j: int| 0 <= j < i ==> !admits_code(filter, s[j].message),
            decreases n - i,
        {
            i += 1;
        }
        proof {
            lemma_first_admitted_unique(s, filter, i as int);
        }
        if i == n {
            return Ok(None);
        }
        let found = self.events[i];
        match ExMessage::classify(&found) {
            Err(e) => Err(e),
            Ok(m) => {
                if consume {
                    let mut k: usize = 0;
                    while k <= i
                        invariant
                            0 <= k <= i + 1,
                            i < usize::MAX,
                            i < s.len(),
                            self.events@ == s.skip(k as int),
                        decreases i + 1 - k,
                    {
                        proof {
                            assert(s.skip(k as int).len() == s.len() - k);
                        }
                        self.events.remove(0);
                        proof {
                            assert(s.skip(k as int).remove(0) =~= s.skip(k as int + 1));
                        }
                        k += 1;
                    }
                }
                Ok(Some(m))
            },
        }
    }

    /// Fetches the first record that `filter` admits, consuming it.
    ///
    /// This is the blocking fetch of the message interface: a live host
    /// suspends until a matching record arrives, so a caller of this model
    /// must hand it a queue that already holds one.
    pub fn wait(&mut self, filter: MessageFilter) -> (res: Result<ExMessage, InputError>)
        requires
            surfaced(old(self)@, filter).len() > 0,
        ensures
            ({
                let s = old(self)@;
                let fa = first_admitted(s, filter);
                &&& (kind_of(s[fa].message) is Some ==> res == Ok::<ExMessage, InputError>(
                    classified(s[fa]),
                ) && final(self)@ == s.skip(fa + 1))
                &&& (kind_of(s[fa].message) is None ==> res == Err::<ExMessage, InputError>(
                    InputError::UnrecognizedEventKind(s[fa].message),
                ) && final(self)@ == s)
            }),
    {
        proof {
            lemma_first_admitted(old(self)@, filter);
        }
        match self.poll(filter, true) {
            Ok(Some(m)) => Ok(m),
            // a surfaced record exists, so poll cannot come back empty
            Ok(None) => vstd::pervasive::unreached(),
            Err(e) => Err(e),
        }
    }
}

} // verus!
