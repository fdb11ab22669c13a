//! Process Directory snapshots and the Process Locator.
use vstd::prelude::*;

verus! {

/// The lowercase form of a string, as `str::to_lowercase` gives it.
pub uninterp spec fn lowercase_of(s: Seq<char>) -> Seq<char>;

/// Relies on `str::to_lowercase`: the lowercase form of `s`, a function of its
/// characters alone.
#[verifier::external_body]
fn to_lower(s: &str) -> (r: String)
    ensures
        r@ == lowercase_of(s@),
{
    s.to_lowercase()
}

/// One record of a process snapshot: the process id and the base file name
/// of its executable.
#[derive(Debug, Clone)]
pub struct ProcessInfo {
    pub pid: u32,
    pub name: String,
}

/// Why a process lookup failed.
#[derive(Debug, Clone, Copy, PartialEq, Eq, Structural)]
pub enum ProcessError {
    /// The snapshot of the process table could not be taken.
    SnapshotFailed,
    /// No process in the snapshot has the name looked for.
    NotFound,
}

/// A record matches a query when both names are equal once lowercased.
pub open spec fn name_matches(record: ProcessInfo, query: Seq<char>) -> bool {
    lowercase_of(record.name@) == lowercase_of(query)
}

/// `i` is the first record of `records` whose name matches `query`.
pub open spec fn is_first_match(records: Seq<ProcessInfo>, query: Seq<char>, i: int) -> bool {
    &&& 0 <= i < records.len()
    &&& name_matches(records[i], query)
    &&& forall|j: int| 0 <= j < i ==> !name_matches(#[trigger] records[j], query)
}

/// Some record of `records` matches `query`.
pub open spec fn has_match(records: Seq<ProcessInfo>, query: Seq<char>) -> bool {
    exists|i: int| 0 <= i < records.len() && name_matches(#[trigger] records[i], query)
}

/// What one lookup in a snapshot gives: the id of the first matching record,
/// or `NotFound`.
pub open spec fn locate(records: Seq<ProcessInfo>, query: Seq<char>) -> Result<u32, ProcessError> {
    if exists|i: int| is_first_match(records, query, i) {
        Ok(records[choose|i: int| is_first_match(records, query, i)].pid)
    } else {
        Err(ProcessError::NotFound)
    }
}

/// A record that matches has a first match before or at it.
proof fn lemma_first_match_exists(records: Seq<ProcessInfo>, query: Seq<char>, k: int)
    requires
        0 <= k < records.len(),
        name_matches(records[k], query),
    ensures
        exists|i: int| is_first_match(records, query, i),
    decreases k,
{
    if forall|j: int| 0 <= j < k ==> !name_matches(#[trigger] records[j], query) {
        assert(is_first_match(records, query, k));
    } else {
        let j = choose|j: int| 0 <= j < k && name_matches(#[trigger] records[j], query);
        lemma_first_match_exists(records, query, j);
    }
}

/// There is at most one first match.
proof fn lemma_first_match_unique(records: Seq<ProcessInfo>, query: Seq<char>, i: int, k: int)
    requires
        is_first_match(records, query, i),
        is_first_match(records, query, k),
    ensures
        i == k,
{
    if i < k {
        assert(!name_matches(records[i], query));
    } else if k < i {
        assert(!name_matches(records[k], query));
    }
}

/// Position of the first of `names` equal to `query`, comparing exactly.
/// With names and query already lowercased this is the case-insensitive
/// comparison of the Process Locator.
pub fn position_of_name(names: &Vec<String>, query: &String) -> (r: Option<usize>)
    ensures
        match r {
            Some(i) => {
                &&& i < names.len()
                &&& names@[i as int]@ == query@
                &&& forall|j: int| 0 <= j < i ==> names@[j]@ != query@
            },
            None => forall|j: int| 0 <= j < names.len() ==> names@[j]@ != query@,
        },
{
    let mut i: usize = 0;
    while i < names.len()
        invariant
            i <= names.len(),
            forall|j: int| 0 <= j < i ==> names@[j]@ != query@,
        decreases names.len() - i,
    {
        if names[i] == *query {
            return Some(i);
        }
        i = i + 1;
    }
    None
}

/// Looks `name` up in one snapshot of the process table, ignoring case, and
/// returns the id of the first record whose name matches.
pub fn find_process_by_name(processes: &Vec<ProcessInfo>, name: &str) -> (r: Result<u32, ProcessError>)
    ensures
        r == locate(processes@, name@),
        r is Ok <==> has_match(processes@, name@),
{
    let query = to_lower(name);
    let mut lowered: Vec<String> = Vec::new();
    let mut k: usize = 0;
    while k < processes.len()
        invariant
            k <= processes.len(),
            lowered.len() == k,
            forall|j: int| 0 <= j < k ==> #[trigger] lowered@[j]@ == lowercase_of(processes@[j].name@),
        decreases processes.len() - k,
    {
        lowered.push(to_lower(processes[k].name.as_str()));
        k = k + 1;
    }
    match position_of_name(&lowered, &query) {
        Some(i) => {
            assert forall|j: int| 0 <= j < i implies !name_matches(#[trigger] processes@[j], name@) by {
                assert(lowered@[j]@ != query@);
            }
            assert(is_first_match(processes@, name@, i as int));
            proof {
                let c = choose|c: int| is_first_match(processes@, name@, c);
                lemma_first_match_unique(processes@, name@, i as int, c);
            }
            Ok(processes[i].pid)
        },
        None => {
            assert forall|j: int| 0 <= j < processes.len() implies !name_matches(#[trigger] processes@[j], name@) by {
                assert(lowered@[j]@ != query@);
            }
            Err(ProcessError::NotFound)
        },
    }
}

/// Case does not matter: two queries with the same lowercase form find the
/// same process in any snapshot, and where exactly one record matches, that
/// record's id is found.
pub proof fn lemma_lookup_ignores_case(records: Seq<ProcessInfo>, query: Seq<char>, variant: Seq<char>, k: int)
    requires
        lowercase_of(variant) == lowercase_of(query),
        0 <= k < records.len(),
        name_matches(records[k], query),
        forall|j: int| 0 <= j < records.len() && j != k ==> !name_matches(#[trigger] records[j], query),
    ensures
        locate(records, variant) == locate(records, query),
        locate(records, variant) == Ok::<u32, ProcessError>(records[k].pid),
{
    assert(is_first_match(records, query, k));
    assert(is_first_match(records, variant, k));
    let c = choose|c: int| is_first_match(records, variant, c);
    lemma_first_match_unique(records, variant, k, c);
    let d = choose|d: int| is_first_match(records, query, d);
    lemma_first_match_unique(records, query, k, d);
}

/// Fixed pause between two lookups of either locator, in milliseconds.
pub const RETRY_INTERVAL_MS: u64 = 1000;

/// What the Process Locator does after a lookup that failed.
#[derive(Debug, Clone, Copy, PartialEq, Eq, Structural)]
pub enum NextStep {
    /// Pause one interval, then look again.
    Retry,
    /// Stop and report the failure of the last lookup.
    GiveUp,
}

/// Bookkeeping of the Process Locator's bounded retry: a first lookup, then
/// up to `retries` more, one interval apart. Only `NotFound` is retried: a
/// snapshot that could not be taken ends the search at once.
#[derive(Debug, Clone, Copy, PartialEq, Eq, Structural)]
pub struct ProcessSearch {
    pub retries: u32,
    pub failed: u32,
}

impl ProcessSearch {
    pub open spec fn wf(self) -> bool {
        self.failed <= self.retries
    }

    /// The next state and step after a lookup failed with `error`.
    pub open spec fn after_failure_spec(self, error: ProcessError) -> (ProcessSearch, NextStep) {
        if error == ProcessError::NotFound && self.failed < self.retries {
            (ProcessSearch { retries: self.retries, failed: (self.failed + 1) as u32 }, NextStep::Retry)
        } else {
            (self, NextStep::GiveUp)
        }
    }

    pub fn new(retries: u32) -> (r: ProcessSearch)
        ensures
            r == (ProcessSearch { retries, failed: 0 }),
            r.wf(),
    {
        ProcessSearch { retries, failed: 0 }
    }

    /// Records a failed lookup and says whether to look again.
    pub fn after_failure(&mut self, error: ProcessError) -> (r: NextStep)
        requires
            old(self).wf(),
        ensures
            (*final(self), r) == old(self).after_failure_spec(error),
            final(self).wf(),
    {
        if error == ProcessError::NotFound && self.failed < self.retries {
            self.failed = self.failed + 1;
            NextStep::Retry
        } else {
            NextStep::GiveUp
        }
    }
}

/// A search from state `s` whose successive lookups give `lookups`: how many
/// lookups it makes, and what it reports.
pub open spec fn process_run(s: ProcessSearch, lookups: Seq<Result<u32, ProcessError>>) -> (nat, Result<u32, ProcessError>)
    decreases lookups.len(),
{
    if lookups.len() == 0 {
        (0, Err(ProcessError::NotFound))
    } else {
        match lookups[0] {
            Ok(pid) => (1, Ok(pid)),
            Err(e) => {
                let (next, step) = s.after_failure_spec(e);
                if step == NextStep::GiveUp {
                    (1, Err(e))
                } else {
                    let (n, r) = process_run(next, lookups.drop_first());
                    (n + 1, r)
                }
            },
        }
    }
}

/// What the lookups in successive snapshots give.
pub open spec fn lookups_in(snapshots: Seq<Seq<ProcessInfo>>, name: Seq<char>) -> Seq<Result<u32, ProcessError>> {
    snapshots.map_values(|snapshot: Seq<ProcessInfo>| locate(snapshot, name))
}

proof fn lemma_run_found(s: ProcessSearch, lookups: Seq<Result<u32, ProcessError>>, m: int)
    requires
        s.wf(),
        0 <= m <= s.retries - s.failed,
        m < lookups.len(),
        forall|i: int| 0 <= i < m ==> lookups[i] == Err::<u32, ProcessError>(ProcessError::NotFound),
        lookups[m] is Ok,
    ensures
        process_run(s, lookups) == (m as nat + 1, lookups[m]),
    decreases m,
{
    if m > 0 {
        let rest = lookups.drop_first();
        assert(lookups[0] == Err::<u32, ProcessError>(ProcessError::NotFound));
        let next = s.after_failure_spec(ProcessError::NotFound).0;
        assert forall|i: int| 0 <= i < m - 1 implies rest[i] == Err::<u32, ProcessError>(ProcessError::NotFound) by {
            assert(rest[i] == lookups[i + 1]);
        }
        lemma_run_found(next, rest, m - 1);
    }
}

proof fn lemma_run_exhausted(s: ProcessSearch, lookups: Seq<Result<u32, ProcessError>>)
    requires
        s.wf(),
        lookups.len() > s.retries - s.failed,
        forall|i: int| 0 <= i <= s.retries - s.failed ==> lookups[i] == Err::<u32, ProcessError>(ProcessError::NotFound),
    ensures
        process_run(s, lookups) == ((s.retries - s.failed + 1) as nat, Err::<u32, ProcessError>(ProcessError::NotFound)),
    decreases s.retries - s.failed,
{
    assert(lookups[0] == Err::<u32, ProcessError>(ProcessError::NotFound));
    if s.failed < s.retries {
        let rest = lookups.drop_first();
        let next = s.after_failure_spec(ProcessError::NotFound).0;
        assert forall|i: int| 0 <= i <= next.retries - next.failed implies rest[i] == Err::<u32, ProcessError>(ProcessError::NotFound) by {
            assert(rest[i] == lookups[i + 1]);
        }
        lemma_run_exhausted(next, rest);
    }
}

/// A snapshot with a matching record gives an id.
pub proof fn lemma_match_is_found(records: Seq<ProcessInfo>, name: Seq<char>)
    requires
        has_match(records, name),
    ensures
        locate(records, name) is Ok,
{
    let k = choose|k: int| 0 <= k < records.len() && name_matches(#[trigger] records[k], name);
    lemma_first_match_exists(records, name, k);
}

/// A process that first shows in the `k`-th snapshot, after `k - 1` snapshots
/// without it, is found by the `k`-th lookup and not before.
pub proof fn lemma_found_on_attempt(retries: u32, name: Seq<char>, snapshots: Seq<Seq<ProcessInfo>>, k: int)
    requires
        1 <= k <= retries + 1,
        k <= snapshots.len(),
        forall|i: int| 0 <= i < k - 1 ==> !has_match(#[trigger] snapshots[i], name),
        has_match(snapshots[k - 1], name),
    ensures
        process_run(ProcessSearch { retries, failed: 0 }, lookups_in(snapshots, name))
            == (k as nat, locate(snapshots[k - 1], name)),
        locate(snapshots[k - 1], name) is Ok,
{
    let lookups = lookups_in(snapshots, name);
    lemma_match_is_found(snapshots[k - 1], name);
    assert forall|i: int| 0 <= i < k - 1 implies lookups[i] == Err::<u32, ProcessError>(ProcessError::NotFound) by {
        assert(!has_match(snapshots[i], name));
        assert(!exists|c: int| is_first_match(snapshots[i], name, c));
    }
    lemma_run_found(ProcessSearch { retries, failed: 0 }, lookups, k - 1);
}

/// A process absent from the first `retries + 1` snapshots is reported
/// `NotFound` after exactly `retries + 1` lookups, never more.
pub proof fn lemma_exhausted_after_last_attempt(retries: u32, name: Seq<char>, snapshots: Seq<Seq<ProcessInfo>>)
    requires
        snapshots.len() >= retries + 1,
        forall|i: int| 0 <= i <= retries ==> !has_match(#[trigger] snapshots[i], name),
    ensures
        process_run(ProcessSearch { retries, failed: 0 }, lookups_in(snapshots, name))
            == ((retries + 1) as nat, Err::<u32, ProcessError>(ProcessError::NotFound)),
{
    let lookups = lookups_in(snapshots, name);
    assert forall|i: int| 0 <= i <= retries implies lookups[i] == Err::<u32, ProcessError>(ProcessError::NotFound) by {
        assert(!has_match(snapshots[i], name));
        assert(!exists|c: int| is_first_match(snapshots[i], name, c));
    }
    lemma_run_exhausted(ProcessSearch { retries, failed: 0 }, lookups);
}

} // verus!
