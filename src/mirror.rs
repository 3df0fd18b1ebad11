use vstd::prelude::*;

use crate::category::{is_category, valid_category, NUM_CATEGORIES};
use crate::counter::Counter;

verus! {

/// Why the initial counts could not be had.
#[derive(Clone, Copy, Debug, PartialEq, Eq)]
pub enum LoadFailure {
    /// The ledger could not be read, or answered with something that is not
    /// one count per category.
    RemoteRead,
    /// The worker that ran the read stopped before handing back a result.
    Bridge,
}

/// What recording one event asks of the remote side.
#[derive(Clone, Copy, Debug, PartialEq, Eq)]
pub enum RecordOutcome {
    /// The category is outside the supported set: nothing was recorded.
    Rejected,
    /// Recorded locally; the mirror is offline, so no remote write follows.
    LocalOnly,
    /// Recorded locally; the given category is to be incremented remotely,
    /// best effort and without waiting.
    Propagate(u8),
}

/// A snapshot of the ledger: one count per category, in category order.
pub struct AggregateCounts {
    per_category: Vec<u64>,
}

impl View for AggregateCounts {
    type V = Seq<u64>;

    closed spec fn view(&self) -> Seq<u64> {
        self.per_category@
    }
}

impl AggregateCounts {
    #[verifier::type_invariant]
    spec fn one_per_category(&self) -> bool {
        self.per_category@.len() == NUM_CATEGORIES as nat
    }

    /// One count per category.
    pub open spec fn wf(&self) -> bool {
        self@.len() == NUM_CATEGORIES as nat
    }

    /// Assembles a snapshot from one read per category, in category order,
    /// where `None` stands for a read that failed. A snapshot is built only
    /// when there is exactly one read per category and every one of them
    /// succeeded: a partial result is never used.
    pub fn from_reads(reads: Vec<Option<u64>>) -> (r: Result<AggregateCounts, LoadFailure>)
        ensures
            r is Ok <==> reads@.len() == NUM_CATEGORIES as nat && forall|i: int|
                0 <= i < reads@.len() ==> (#[trigger] reads@[i]) is Some,
            r is Ok ==> r->Ok_0.wf() && forall|i: int|
                0 <= i < reads@.len() ==> r->Ok_0@[i] == (#[trigger] reads@[i])->Some_0,
            r is Err ==> r == Err::<AggregateCounts, LoadFailure>(LoadFailure::RemoteRead),
    {
        if reads.len() != NUM_CATEGORIES as usize {
            return Err(LoadFailure::RemoteRead);
        }
        let mut counts: Vec<u64> = Vec::new();
        let mut i: usize = 0;
        while i < reads.len()
            invariant
                i <= reads@.len(),
                counts@.len() == i,
                forall|k: int| 0 <= k < i ==> (#[trigger] reads@[k]) is Some && counts@[k] == reads@[k]->Some_0,
            decreases reads@.len() - i,
        {
            match reads[i] {
                Some(n) => counts.push(n),
                None => return Err(LoadFailure::RemoteRead),
            }
            i = i + 1;
        }
        Ok(AggregateCounts { per_category: counts })
    }

    /// Takes the whole state of a ledger at once.
    pub fn from_counter(counter: &Counter) -> (r: AggregateCounts)
        ensures
            r.wf(),
            r@ == seq![counter.counts().0, counter.counts().1, counter.counts().2],
    {
        let (red, green, blue) = counter.get_sword_counts();
        let mut counts: Vec<u64> = Vec::new();
        counts.push(red);
        counts.push(green);
        counts.push(blue);
        assert(counts@ =~= seq![red, green, blue]);
        AggregateCounts { per_category: counts }
    }

    /// The count of category `c`.
    pub fn count(&self, c: u8) -> (r: u64)
        requires
            valid_category(c as int),
        ensures
            r == self@[c as int],
    {
        proof {
            use_type_invariant(self);
        }
        self.per_category[c as usize]
    }
}

/// `n` entries of category `c`.
pub open spec fn repeated(c: u8, n: nat) -> Seq<u8> {
    Seq::new(n, |i: int| c)
}

/// The first `k` categories, each repeated as often as `counts` says.
pub open spec fn expansion_upto(counts: Seq<u64>, k: int) -> Seq<u8>
    decreases k,
{
    if k <= 0 {
        Seq::empty()
    } else {
        expansion_upto(counts, k - 1) + repeated((k - 1) as u8, counts[k - 1] as nat)
    }
}

/// Every category repeated as often as `counts` says, in category order.
pub open spec fn expansion(counts: Seq<u64>) -> Seq<u8> {
    expansion_upto(counts, NUM_CATEGORIES as int)
}

/// How many entries of `s` are `c`.
pub open spec fn occurrences(s: Seq<u8>, c: u8) -> nat
    decreases s.len(),
{
    if s.len() == 0 {
        0
    } else {
        occurrences(s.drop_last(), c) + if s.last() == c {
            1nat
        } else {
            0nat
        }
    }
}

/// The log the mirror starts with: the ledger's counts expanded when it is
/// online and the read succeeded, empty otherwise.
pub open spec fn initial_log(online: bool, read: Result<Seq<u64>, LoadFailure>) -> Seq<u8> {
    match read {
        Ok(counts) => if online {
            expansion(counts)
        } else {
            Seq::empty()
        },
        Err(_) => Seq::empty(),
    }
}

/// The log after recording `c`.
pub open spec fn after_record(log: Seq<u8>, c: u8) -> Seq<u8> {
    if valid_category(c as int) {
        log.push(c)
    } else {
        log
    }
}

/// The log after recording each of `cs` in turn.
pub open spec fn after_records(log: Seq<u8>, cs: Seq<u8>) -> Seq<u8>
    decreases cs.len(),
{
    if cs.len() == 0 {
        log
    } else {
        after_record(after_records(log, cs.drop_last()), cs.last())
    }
}

/// What recording `c` asks of the remote side.
pub open spec fn record_outcome(online: bool, c: u8) -> RecordOutcome {
    if !valid_category(c as int) {
        RecordOutcome::Rejected
    } else if online {
        RecordOutcome::Propagate(c)
    } else {
        RecordOutcome::LocalOnly
    }
}

/// The local collection log, the one source of truth for what was collected.
///
/// It only grows, holds supported categories only, and is never read back
/// from the ledger after startup.
pub struct StateMirror {
    log: Vec<u8>,
    online: bool,
}

impl View for StateMirror {
    type V = Seq<u8>;

    closed spec fn view(&self) -> Seq<u8> {
        self.log@
    }
}

impl StateMirror {
    /// Whether recorded events are propagated to the ledger.
    pub closed spec fn is_online(&self) -> bool {
        self.online
    }

    /// Every entry is a supported category.
    pub open spec fn wf(&self) -> bool {
        forall|i: int| 0 <= i < self@.len() ==> valid_category(#[trigger] self@[i] as int)
    }

    /// Seeds the log from the initial read of the ledger.
    ///
    /// Online and with the counts in hand, each category appears as often as
    /// the ledger counted it. Offline, or after a failed read, the log starts
    /// empty: a read is used whole or not at all.
    pub fn start(online: bool, read: Result<AggregateCounts, LoadFailure>) -> (r: StateMirror)
        ensures
            r@ == initial_log(
                online,
                match read {
                    Ok(a) => Ok(a@),
                    Err(e) => Err(e),
                },
            ),
            r.is_online() == online,
            r.wf(),
    {
        let log = match read {
            Ok(counts) => if online {
                proof {
                    use_type_invariant(&counts);
                }
                expand_counts(&counts)
            } else {
                Vec::new()
            },
            Err(_) => Vec::new(),
        };
        StateMirror { log, online }
    }

    /// Records one collection event.
    ///
    /// A supported category is appended to the log at once, whatever becomes
    /// of the remote write; the result says whether that write is due. An
    /// unsupported one is rejected and leaves the log as it was.
    pub fn record(&mut self, category: u8) -> (r: RecordOutcome)
        requires
            old(self).wf(),
        ensures
            final(self)@ == after_record(old(self)@, category),
            final(self).is_online() == old(self).is_online(),
            final(self).wf(),
            r == record_outcome(old(self).is_online(), category),
    {
        if !is_category(category) {
            return RecordOutcome::Rejected;
        }
        self.log.push(category);
        assert(forall|i: int| 0 <= i < self@.len() ==> valid_category(#[trigger] self@[i] as int)) by {
            assert forall|i: int| 0 <= i < self@.len() implies valid_category(#[trigger] self@[i] as int) by {
                if i < self@.len() - 1 {
                    assert(self@[i] == old(self)@[i]);
                }
            }
        }
        if self.online {
            RecordOutcome::Propagate(category)
        } else {
            RecordOutcome::LocalOnly
        }
    }

    /// The log, oldest entry first.
    pub fn entries(&self) -> (r: &[u8])
        ensures
            r@ == self@,
    {
        self.log.as_slice()
    }

    /// Whether recorded events are propagated to the ledger.
    pub fn online(&self) -> (r: bool)
        ensures
            r == self.is_online(),
    {
        self.online
    }

    /// How many entries of each category the log holds, in category order.
    pub fn tally(&self) -> (r: Vec<usize>)
        ensures
            r@.len() == NUM_CATEGORIES as nat,
            forall|c: int| 0 <= c < NUM_CATEGORIES as int ==> r@[c] == occurrences(self@, c as u8),
    {
        let mut totals: Vec<usize> = Vec::new();
        let mut c: u8 = 0;
        while c < NUM_CATEGORIES
            invariant
                c <= NUM_CATEGORIES,
                totals@.len() == c as nat,
                forall|d: int| 0 <= d < c ==> totals@[d] == occurrences(self@, d as u8),
            decreases NUM_CATEGORIES - c,
        {
            let n = count_in(&self.log, c);
            totals.push(n);
            c = c + 1;
        }
        totals
    }
}

/// Counts the entries of `s` equal to `c`.
fn count_in(s: &Vec<u8>, c: u8) -> (r: usize)
    ensures
        r == occurrences(s@, c),
{
    let mut n: usize = 0;
    let mut i: usize = 0;
    while i < s.len()
        invariant
            i <= s@.len(),
            n == occurrences(s@.subrange(0, i as int), c),
            n <= i,
        decreases s@.len() - i,
    {
        assert(s@.subrange(0, i + 1).drop_last() == s@.subrange(0, i as int));
        if s[i] == c {
            n = n + 1;
        }
        i = i + 1;
    }
    assert(s@.subrange(0, s@.len() as int) == s@);
    n
}

/// Expands a snapshot into a log: each category repeated as often as counted.
fn expand_counts(counts: &AggregateCounts) -> (r: Vec<u8>)
    requires
        counts.wf(),
    ensures
        r@ == expansion(counts@),
        forall|i: int| 0 <= i < r@.len() ==> valid_category(#[trigger] r@[i] as int),
{
    let mut log: Vec<u8> = Vec::new();
    let mut c: u8 = 0;
    while c < NUM_CATEGORIES
        invariant
            counts.wf(),
            c <= NUM_CATEGORIES,
            log@ == expansion_upto(counts@, c as int),
            forall|i: int| 0 <= i < log@.len() ==> valid_category(#[trigger] log@[i] as int),
        decreases NUM_CATEGORIES - c,
    {
        let n = counts.count(c);
        let ghost before = log@;
        let mut k: u64 = 0;
        while k < n
            invariant
                k <= n,
                c < NUM_CATEGORIES,
                log@ == before + repeated(c, k as nat),
                forall|i: int| 0 <= i < log@.len() ==> valid_category(#[trigger] log@[i] as int),
            decreases n - k,
        {
            log.push(c);
            k = k + 1;
            assert(log@ =~= before + repeated(c, k as nat));
        }
        c = c + 1;
        assert(log@ =~= expansion_upto(counts@, c as int));
    }
    log
}

proof fn lemma_occurrences_concat(a: Seq<u8>, b: Seq<u8>, c: u8)
    ensures
        occurrences(a + b, c) == occurrences(a, c) + occurrences(b, c),
    decreases b.len(),
{
    if b.len() == 0 {
        assert(a + b =~= a);
    } else {
        assert((a + b).drop_last() =~= a + b.drop_last());
        lemma_occurrences_concat(a, b.drop_last(), c);
    }
}

proof fn lemma_occurrences_repeated(d: u8, n: nat, c: u8)
    ensures
        occurrences(repeated(d, n), c) == if d == c {
            n
        } else {
            0
        },
    decreases n,
{
    if n > 0 {
        assert(repeated(d, n).drop_last() =~= repeated(d, (n - 1) as nat));
        lemma_occurrences_repeated(d, (n - 1) as nat, c);
    }
}

proof fn lemma_expansion_upto(counts: Seq<u64>, k: int, c: u8)
    requires
        0 <= k <= counts.len(),
        k <= 256,
    ensures
        occurrences(expansion_upto(counts, k), c) == if (c as int) < k {
            counts[c as int] as nat
        } else {
            0
        },
    decreases k,
{
    if k > 0 {
        lemma_expansion_upto(counts, k - 1, c);
        lemma_occurrences_concat(
            expansion_upto(counts, k - 1),
            repeated((k - 1) as u8, counts[k - 1] as nat),
            c,
        );
        lemma_occurrences_repeated((k - 1) as u8, counts[k - 1] as nat, c);
    }
}

/// The initial expansion holds each supported category exactly as often as
/// the ledger counted it, nothing else, and as many entries as the counts add
/// up to; the order of the entries carries no meaning.
pub proof fn expansion_tallies(counts: Seq<u64>, c: u8)
    requires
        counts.len() == NUM_CATEGORIES as nat,
    ensures
        occurrences(expansion(counts), c) == if valid_category(c as int) {
            counts[c as int] as nat
        } else {
            0
        },
        expansion(counts).len() == counts[0] + counts[1] + counts[2],
{
    lemma_expansion_upto(counts, NUM_CATEGORIES as int, c);
    reveal_with_fuel(expansion_upto, 4);
}

/// Every one of a run of recorded events in supported categories lands in
/// the log, in the order recorded, after what was there before.
pub proof fn records_all_land(log: Seq<u8>, cs: Seq<u8>)
    requires
        forall|i: int| 0 <= i < cs.len() ==> valid_category(#[trigger] cs[i] as int),
    ensures
        after_records(log, cs) == log + cs,
        after_records(log, cs).len() == log.len() + cs.len(),
    decreases cs.len(),
{
    if cs.len() > 0 {
        records_all_land(log, cs.drop_last());
        assert((log + cs.drop_last()).push(cs.last()) =~= log + cs);
    } else {
        assert(log + cs =~= log);
    }
}

/// Offline, whatever the initial read would have said, the log starts empty,
/// recording a supported category `c` leaves exactly `[c]`, and no remote
/// write is asked for.
pub proof fn offline_session(read: Result<Seq<u64>, LoadFailure>, c: u8)
    requires
        valid_category(c as int),
    ensures
        initial_log(false, read) == Seq::<u8>::empty(),
        after_record(initial_log(false, read), c) == seq![c],
        record_outcome(false, c) == RecordOutcome::LocalOnly,
{
    assert(Seq::<u8>::empty().push(c) =~= seq![c]);
}

/// A failed initial read leaves the log empty, online or not: no part of a
/// failed read is ever used.
pub proof fn failed_read_starts_empty(online: bool, e: LoadFailure)
    ensures
        initial_log(online, Err(e)) == Seq::<u8>::empty(),
{
}

} // verus!
