//! The background job registry: render, analysis, separation and scan jobs are
//! registered under a fresh id, move through `queued`, `running`,
//! `cancelling` and end `completed`, `failed` or `cancelled`. A cancelled job
//! never promotes a result, whatever its worker reports afterwards.

use vstd::prelude::*;
use crate::text::{concat2, concat3, decimal, digit_char, str_eq, to_string, u64_to_decimal, append_str};

verus! {

broadcast use vstd::string::group_string_axioms;

/// The message of a job that ended by cancellation.
pub open spec fn cancelled_message() -> Seq<char> {
    "Job cancelled; no partial result was promoted."@
}

/// The message of a job whose cancellation was requested.
pub open spec fn cancelling_message() -> Seq<char> {
    "Cancellation requested; the worker is finishing its current block."@
}

/// The id given to the job started with sequence number `n`.
pub open spec fn job_id(kind: Seq<char>, n: nat) -> Seq<char> {
    "job:"@ + kind + ":"@ + decimal(n)
}

/// What a caller sees of a job. `progress_complete` is the progress bar: it
/// is full exactly when the job completed with a result.
#[derive(Debug)]
pub struct JobStatus<R> {
    pub id: String,
    pub kind: String,
    pub state: String,
    pub progress_complete: bool,
    pub message: String,
    pub result: Option<R>,
}

/// The mathematical view of a registered job, with its cancellation flag.
pub struct JobEntry<R> {
    pub id: Seq<char>,
    pub kind: Seq<char>,
    pub state: Seq<char>,
    pub progress_complete: bool,
    pub message: Seq<char>,
    pub result: Option<R>,
    pub cancelled: bool,
}

struct JobRecord<R> {
    status: JobStatus<R>,
    cancelled: bool,
}

/// The registry of jobs, in start order, and the next sequence number.
pub struct JobRegistry<R> {
    records: Vec<JobRecord<R>>,
    sequence: u64,
}

/// The mathematical view of a [`JobRegistry`].
pub struct JobRegistryView<R> {
    pub entries: Seq<JobEntry<R>>,
    pub sequence: u64,
}

impl<R> JobRecord<R> {
    spec fn entry(self) -> JobEntry<R> {
        JobEntry {
            id: self.status.id@,
            kind: self.status.kind@,
            state: self.status.state@,
            progress_complete: self.status.progress_complete,
            message: self.status.message@,
            result: self.status.result,
            cancelled: self.cancelled,
        }
    }
}

impl<R> View for JobRegistry<R> {
    type V = JobRegistryView<R>;

    closed spec fn view(&self) -> JobRegistryView<R> {
        JobRegistryView {
            entries: Seq::new(self.records@.len(), |i: int| self.records@[i].entry()),
            sequence: self.sequence,
        }
    }
}

/// The index of the job registered under `id` among the first `n` entries:
/// the latest one, as a map keyed by id keeps the last insertion.
pub open spec fn find_in<R>(entries: Seq<JobEntry<R>>, id: Seq<char>, n: int) -> Option<int>
    decreases n,
{
    if n <= 0 {
        None
    } else if entries[n - 1].id == id {
        Some(n - 1)
    } else {
        find_in(entries, id, n - 1)
    }
}

/// The index of the job registered under `id`.
pub open spec fn find<R>(v: JobRegistryView<R>, id: Seq<char>) -> Option<int> {
    find_in(v.entries, id, v.entries.len() as int)
}

/// The job registered under `id`.
pub open spec fn lookup<R>(v: JobRegistryView<R>, id: Seq<char>) -> Option<JobEntry<R>> {
    match find(v, id) {
        Some(i) => Some(v.entries[i]),
        None => None,
    }
}

/// The registry with the job under `id` replaced by `e` (unchanged when no
/// job has that id).
pub open spec fn with_entry<R>(v: JobRegistryView<R>, id: Seq<char>, e: JobEntry<R>) -> JobRegistryView<R> {
    match find(v, id) {
        Some(i) => JobRegistryView { entries: v.entries.update(i, e), sequence: v.sequence },
        None => v,
    }
}

/// The sequence number after `n`: the counter wraps like an atomic add.
pub open spec fn next_sequence(n: u64) -> u64 {
    if n == u64::MAX { 0 } else { (n + 1) as u64 }
}

/// The entry of a newly started job.
pub open spec fn queued_entry<R>(kind: Seq<char>, n: u64) -> JobEntry<R> {
    JobEntry {
        id: job_id(kind, n as nat),
        kind,
        state: "queued"@,
        progress_complete: false,
        message: kind + " job queued."@,
        result: None,
        cancelled: false,
    }
}

/// The registry after starting a job of `kind`.
pub open spec fn start_spec<R>(v: JobRegistryView<R>, kind: Seq<char>) -> JobRegistryView<R> {
    JobRegistryView { entries: v.entries.push(queued_entry(kind, v.sequence)), sequence: next_sequence(v.sequence) }
}

/// The job after its worker started, with `message`.
pub open spec fn running_entry<R>(e: JobEntry<R>, message: Seq<char>) -> JobEntry<R> {
    JobEntry { state: "running"@, message, ..e }
}

/// The job after its worker finished with `result`: a cancelled job drops the
/// result and ends cancelled.
pub open spec fn completed_entry<R>(e: JobEntry<R>, result: R, message: Seq<char>) -> JobEntry<R> {
    if e.cancelled {
        JobEntry { state: "cancelled"@, message: cancelled_message(), result: None, ..e }
    } else {
        JobEntry { state: "completed"@, progress_complete: true, message, result: Some(result), ..e }
    }
}

/// The job after its worker failed: a cancelled job ends cancelled.
pub open spec fn failed_entry<R>(e: JobEntry<R>, message: Seq<char>) -> JobEntry<R> {
    if e.cancelled {
        JobEntry { state: "cancelled"@, message: cancelled_message(), ..e }
    } else {
        JobEntry { state: "failed"@, message, ..e }
    }
}

/// Whether a job in `state` can still be cancelled.
pub open spec fn cancellable(state: Seq<char>) -> bool {
    state == "queued"@ || state == "running"@ || state == "cancelling"@
}

/// The job after a cancellation request.
pub open spec fn cancel_entry<R>(e: JobEntry<R>) -> JobEntry<R> {
    if cancellable(e.state) {
        JobEntry { state: "cancelling"@, message: cancelling_message(), cancelled: true, ..e }
    } else {
        e
    }
}

/// The job after its worker acknowledged a cancellation.
pub open spec fn marked_cancelled_entry<R>(e: JobEntry<R>) -> JobEntry<R> {
    JobEntry { state: "cancelled"@, message: cancelled_message(), result: None, ..e }
}

/// The registry after applying `f` to the job under `id`.
pub open spec fn update_spec<R>(v: JobRegistryView<R>, id: Seq<char>, f: spec_fn(JobEntry<R>) -> JobEntry<R>) -> JobRegistryView<R> {
    match lookup(v, id) {
        Some(e) => with_entry(v, id, f(e)),
        None => v,
    }
}

/// A status handed out for `e`: every field but the result is copied, and the
/// result is a clone of the job's.
pub open spec fn reports<R: Clone>(s: JobStatus<R>, e: JobEntry<R>) -> bool {
    &&& s.id@ == e.id
    &&& s.kind@ == e.kind
    &&& s.state@ == e.state
    &&& s.progress_complete == e.progress_complete
    &&& s.message@ == e.message
    &&& (s.result is Some <==> e.result is Some)
    &&& (e.result matches Some(a) ==> cloned::<R>(a, s.result->0))
}

proof fn lemma_find_in_bounds<R>(entries: Seq<JobEntry<R>>, id: Seq<char>, n: int)
    requires
        n <= entries.len(),
    ensures
        find_in(entries, id, n) matches Some(i) ==> 0 <= i < n && entries[i].id == id,
        find_in(entries, id, n) is None ==> forall|j: int| 0 <= j < n ==> entries[j].id != id,
    decreases n,
{
    if n > 0 {
        lemma_find_in_bounds(entries, id, n - 1);
    }
}

/// Lookup only depends on the ids of the entries.
proof fn lemma_find_in_same_ids<R>(a: Seq<JobEntry<R>>, b: Seq<JobEntry<R>>, id: Seq<char>, n: int)
    requires
        n <= a.len(),
        n <= b.len(),
        forall|j: int| 0 <= j < n ==> a[j].id == b[j].id,
    ensures
        find_in(a, id, n) == find_in(b, id, n),
    decreases n,
{
    if n > 0 {
        lemma_find_in_same_ids(a, b, id, n - 1);
    }
}

impl<R> JobRegistry<R> {
    /// The index of the latest job registered under `id`.
    fn position(&self, id: &str) -> (r: Option<usize>)
        ensures
            match find(self@, id@) {
                Some(i) => r == Some(i as usize),
                None => r is None,
            },
            r matches Some(i) ==> i < self.records@.len() && find(self@, id@) == Some(i as int)
                && self.records@[i as int].status.id@ == id@,
    {
        proof { lemma_find_in_bounds(self@.entries, id@, self@.entries.len() as int); }
        let mut n = self.records.len();
        while n > 0
            invariant
                n <= self.records@.len(),
                find(self@, id@) == find_in(self@.entries, id@, n as int),
            decreases n,
        {
            let found = str_eq(self.records[n - 1].status.id.as_str(), id);
            if found {
                return Some(n - 1);
            }
            n -= 1;
        }
        None
    }
}

impl<R> JobRegistry<R> {
    /// A registry that differs from `prev` only in the record at `i`, which is
    /// the job under `id` and keeps its id, is `prev` with that job replaced.
    proof fn lemma_view_after_update(self, prev: JobRegistry<R>, i: int, id: Seq<char>)
        requires
            find(prev@, id) == Some(i),
            self.sequence == prev.sequence,
            self.records@.len() == prev.records@.len(),
            forall|j: int| 0 <= j < prev.records@.len() && j != i ==> self.records@[j] == prev.records@[j],
            self.records@[i].entry().id == id,
        ensures
            self@ == with_entry(prev@, id, self.records@[i].entry()),
            find(self@, id) == Some(i),
    {
        lemma_find_in_bounds(prev@.entries, id, prev@.entries.len() as int);
        assert(self@.entries =~= prev@.entries.update(i, self.records@[i].entry()));
        lemma_find_in_same_ids(self@.entries, prev@.entries, id, prev@.entries.len() as int);
    }

    /// Replaces the state and message of the record at `i`.
    fn set_state(&mut self, i: usize, state: &str, message: String)
        requires
            i < old(self).records@.len(),
        ensures
            final(self).sequence == old(self).sequence,
            final(self).records@.len() == old(self).records@.len(),
            forall|j: int| 0 <= j < old(self).records@.len() && j != i ==> final(self).records@[j] == old(self).records@[j],
            final(self).records@[i as int].entry() == (JobEntry {
                state: state@,
                message: message@,
                ..old(self).records@[i as int].entry()
            }),
    {
        let s = to_string(state);
        self.records[i].status.state = s;
        self.records[i].status.message = message;
    }

    /// Marks a job running with `message`; unknown ids are ignored.
    pub fn set_running(&mut self, id: &str, message: String)
        ensures
            final(self)@ == update_spec(old(self)@, id@, |e: JobEntry<R>| running_entry(e, message@)),
    {
        match self.position(id) {
            Some(i) => {
                self.set_state(i, "running", message);
                proof { self.lemma_view_after_update(*old(self), i as int, id@); }
            }
            None => {}
        }
    }
}

impl<R> JobRegistry<R> {
    /// Replaces state, message, progress and result of the record at `i`.
    fn set_outcome(&mut self, i: usize, state: &str, message: String, progress_complete: bool, result: Option<R>)
        requires
            i < old(self).records@.len(),
        ensures
            final(self).sequence == old(self).sequence,
            final(self).records@.len() == old(self).records@.len(),
            forall|j: int| 0 <= j < old(self).records@.len() && j != i ==> final(self).records@[j] == old(self).records@[j],
            final(self).records@[i as int].entry() == (JobEntry {
                state: state@,
                message: message@,
                progress_complete,
                result,
                ..old(self).records@[i as int].entry()
            }),
    {
        self.set_state(i, state, message);
        self.records[i].status.progress_complete = progress_complete;
        self.records[i].status.result = result;
    }

    /// Whether cancellation was requested for the job under `id` (false for
    /// unknown ids).
    pub fn is_cancelled(&self, id: &str) -> (r: bool)
        ensures
            r == (lookup(self@, id@) matches Some(e) && e.cancelled),
    {
        match self.position(id) {
            Some(i) => self.records[i].cancelled,
            None => false,
        }
    }

    /// Records the worker's result. A job whose cancellation was requested
    /// ends `cancelled` and the result is dropped; otherwise it ends
    /// `completed` with the result and a full progress bar.
    pub fn complete(&mut self, id: &str, result: R, message: String)
        ensures
            final(self)@ == update_spec(old(self)@, id@, |e: JobEntry<R>| completed_entry(e, result, message@)),
    {
        match self.position(id) {
            Some(i) => {
                if self.records[i].cancelled {
                    let progress = self.records[i].status.progress_complete;
                    self.set_outcome(i, "cancelled", to_string("Job cancelled; no partial result was promoted."), progress, None);
                } else {
                    self.set_outcome(i, "completed", message, true, Some(result));
                }
                proof { self.lemma_view_after_update(*old(self), i as int, id@); }
            }
            None => {}
        }
    }

    /// Records the worker's failure. A job whose cancellation was requested
    /// ends `cancelled` instead.
    pub fn fail(&mut self, id: &str, message: String)
        ensures
            final(self)@ == update_spec(old(self)@, id@, |e: JobEntry<R>| failed_entry(e, message@)),
    {
        match self.position(id) {
            Some(i) => {
                if self.records[i].cancelled {
                    self.set_state(i, "cancelled", to_string("Job cancelled; no partial result was promoted."));
                } else {
                    self.set_state(i, "failed", message);
                }
                proof { self.lemma_view_after_update(*old(self), i as int, id@); }
            }
            None => {}
        }
    }

    /// Records that the worker stopped on a cancellation; any result is
    /// dropped.
    pub fn mark_cancelled(&mut self, id: &str)
        ensures
            final(self)@ == update_spec(old(self)@, id@, |e: JobEntry<R>| marked_cancelled_entry(e)),
    {
        match self.position(id) {
            Some(i) => {
                let progress = self.records[i].status.progress_complete;
                self.set_outcome(i, "cancelled", to_string("Job cancelled; no partial result was promoted."), progress, None);
                proof { self.lemma_view_after_update(*old(self), i as int, id@); }
            }
            None => {}
        }
    }
}

impl<R: Clone> JobRegistry<R> {
    /// A copy of the status of the record at `i`.
    fn status_at(&self, i: usize) -> (s: JobStatus<R>)
        requires
            i < self.records@.len(),
        ensures
            reports(s, self.records@[i as int].entry()),
    {
        let st = &self.records[i].status;
        JobStatus {
            id: st.id.clone(),
            kind: st.kind.clone(),
            state: st.state.clone(),
            progress_complete: st.progress_complete,
            message: st.message.clone(),
            result: st.result.clone(),
        }
    }

    /// Registers a `queued` job of `kind` under the id
    /// `job:<kind>:<sequence>` and returns the id and the job's status.
    pub fn start(&mut self, kind: &str) -> (r: (String, JobStatus<R>))
        ensures
            final(self)@ == start_spec(old(self)@, kind@),
            r.0@ == job_id(kind@, old(self)@.sequence as nat),
            reports(r.1, queued_entry(kind@, old(self)@.sequence)),
    {
        let n = self.sequence;
        self.sequence = n.wrapping_add(1);
        let mut id = concat3("job:", kind, ":");
        let digits = u64_to_decimal(n);
        append_str(&mut id, digits.as_str());
        let status = JobStatus {
            id: id.clone(),
            kind: to_string(kind),
            state: to_string("queued"),
            progress_complete: false,
            message: concat2(kind, " job queued."),
            result: None,
        };
        let record = JobRecord { status, cancelled: false };
        self.records.push(record);
        let last = self.records.len() - 1;
        let s = self.status_at(last);
        proof {
            assert(self@.entries =~= old(self)@.entries.push(queued_entry(kind@, old(self)@.sequence)));
        }
        (id, s)
    }

    /// The status of the job under `id`.
    pub fn status(&self, id: &str) -> (r: Option<JobStatus<R>>)
        ensures
            match lookup(self@, id@) {
                Some(e) => r matches Some(s) && reports(s, e),
                None => r is None,
            },
    {
        match self.position(id) {
            Some(i) => Some(self.status_at(i)),
            None => None,
        }
    }

    /// Requests cancellation: a `queued`, `running` or `cancelling` job
    /// becomes `cancelling` and its cancellation flag is raised; a finished
    /// job is left as it is. Returns the job's status afterwards.
    pub fn cancel(&mut self, id: &str) -> (r: Option<JobStatus<R>>)
        ensures
            final(self)@ == update_spec(old(self)@, id@, |e: JobEntry<R>| cancel_entry(e)),
            match lookup(old(self)@, id@) {
                Some(e) => r matches Some(s) && reports(s, cancel_entry(e)),
                None => r is None,
            },
    {
        match self.position(id) {
            Some(i) => {
                let st = self.records[i].status.state.as_str();
                let open = str_eq(st, "queued") || str_eq(st, "running") || str_eq(st, "cancelling");
                if open {
                    self.records[i].cancelled = true;
                    self.set_state(i, "cancelling", to_string("Cancellation requested; the worker is finishing its current block."));
                }
                proof { self.lemma_view_after_update(*old(self), i as int, id@); }
                Some(self.status_at(i))
            }
            None => None,
        }
    }
}

/// Every registered id is `job:<kind>:<n>` for the job's kind and a sequence
/// number below the registry's counter.
pub open spec fn ids_issued_below<R>(v: JobRegistryView<R>) -> bool {
    forall|i: int| #![trigger v.entries[i]] 0 <= i < v.entries.len() ==>
        exists|n: nat| n < v.sequence && v.entries[i].id == job_id(v.entries[i].kind, n)
}

proof fn lemma_digit_char_injective(a: nat, b: nat)
    requires
        a < 10,
        b < 10,
        digit_char(a) == digit_char(b),
    ensures
        a == b,
{
}

proof fn lemma_decimal_digits(n: nat)
    ensures
        decimal(n).len() >= 1,
        n >= 10 ==> decimal(n).len() >= 2,
        forall|i: int| 0 <= i < decimal(n).len() ==> decimal(n)[i] != ':',
    decreases n,
{
    if n >= 10 {
        lemma_decimal_digits(n / 10);
        assert forall|i: int| 0 <= i < decimal(n).len() implies decimal(n)[i] != ':' by {
            if i < decimal(n / 10).len() {
                assert(decimal(n)[i] == decimal(n / 10)[i]);
            }
        }
    }
}

proof fn lemma_decimal_injective(n: nat, m: nat)
    requires
        decimal(n) == decimal(m),
    ensures
        n == m,
    decreases n,
{
    lemma_decimal_digits(n);
    lemma_decimal_digits(m);
    if n < 10 && m < 10 {
        assert(decimal(n)[0] == digit_char(n));
        assert(decimal(m)[0] == digit_char(m));
        lemma_digit_char_injective(n, m);
    } else if n >= 10 && m >= 10 {
        let dn = decimal(n / 10);
        let dm = decimal(m / 10);
        assert(decimal(n).drop_last() =~= dn);
        assert(decimal(m).drop_last() =~= dm);
        lemma_decimal_injective(n / 10, m / 10);
        assert(decimal(n).last() == digit_char(n % 10));
        assert(decimal(m).last() == digit_char(m % 10));
        lemma_digit_char_injective(n % 10, m % 10);
    }
}

/// Two ids that agree end in the same sequence number: the digits follow the
/// last colon.
proof fn lemma_job_id_injective(k1: Seq<char>, n1: nat, k2: Seq<char>, n2: nat)
    requires
        job_id(k1, n1) == job_id(k2, n2),
    ensures
        n1 == n2,
{
    let x = job_id(k1, n1);
    let d1 = decimal(n1);
    let d2 = decimal(n2);
    lemma_decimal_digits(n1);
    lemma_decimal_digits(n2);
    let len = x.len() as int;
    reveal_strlit(":");
    let pre1 = "job:"@ + k1 + ":"@;
    let pre2 = "job:"@ + k2 + ":"@;
    assert(x == pre1 + d1);
    assert(x == pre2 + d2);
    assert(pre1[pre1.len() - 1] == ':');
    assert(pre2[pre2.len() - 1] == ':');
    if d1.len() < d2.len() {
        let p = len - 1 - d1.len();
        assert(x[p] == pre1[pre1.len() - 1]);
        assert(x[p] == d2[p - (len - d2.len())]);
    } else if d2.len() < d1.len() {
        let p = len - 1 - d2.len();
        assert(x[p] == pre2[pre2.len() - 1]);
        assert(x[p] == d1[p - (len - d1.len())]);
    }
    assert(d1 =~= x.subrange(len - d1.len(), len));
    assert(d2 =~= x.subrange(len - d2.len(), len));
    lemma_decimal_injective(n1, n2);
}

/// Cancellation wins over a late result: once a job's cancellation flag is
/// raised, the worker reporting a result leaves the job `cancelled` with no
/// result, and reporting a failure leaves it `cancelled` too.
pub proof fn law_cancelled_job_never_promotes_result<R>(v: JobRegistryView<R>, id: Seq<char>, result: R, message: Seq<char>)
    requires
        lookup(v, id) matches Some(e) && e.cancelled,
    ensures
        lookup(update_spec(v, id, |e: JobEntry<R>| completed_entry(e, result, message)), id) matches Some(c)
            && c.state == "cancelled"@ && c.result is None,
        lookup(update_spec(v, id, |e: JobEntry<R>| failed_entry(e, message)), id) matches Some(f)
            && f.state == "cancelled"@,
{
    let i = find(v, id)->0;
    lemma_find_in_bounds(v.entries, id, v.entries.len() as int);
    let e = v.entries[i];
    let c = update_spec(v, id, |e: JobEntry<R>| completed_entry(e, result, message));
    let f = update_spec(v, id, |e: JobEntry<R>| failed_entry(e, message));
    lemma_find_in_same_ids(c.entries, v.entries, id, v.entries.len() as int);
    lemma_find_in_same_ids(f.entries, v.entries, id, v.entries.len() as int);
}

/// Cancelling a queued or running job means its result is never promoted:
/// after `cancel`, a `complete` leaves the job `cancelled` with no result.
pub proof fn law_cancel_then_complete_drops_result<R>(v: JobRegistryView<R>, id: Seq<char>, result: R, message: Seq<char>)
    requires
        lookup(v, id) matches Some(e) && cancellable(e.state),
    ensures
        ({
            let cancelled = update_spec(v, id, |e: JobEntry<R>| cancel_entry(e));
            lookup(update_spec(cancelled, id, |e: JobEntry<R>| completed_entry(e, result, message)), id) matches Some(c)
                && c.state == "cancelled"@ && c.result is None
        }),
{
    let cancelled = update_spec(v, id, |e: JobEntry<R>| cancel_entry(e));
    lemma_find_in_bounds(v.entries, id, v.entries.len() as int);
    lemma_find_in_same_ids(cancelled.entries, v.entries, id, v.entries.len() as int);
    law_cancelled_job_never_promotes_result(cancelled, id, result, message);
}

/// Updating one job keeps every id, so lookups are unchanged.
proof fn lemma_update_keeps_ids<R>(v: JobRegistryView<R>, id: Seq<char>, f: spec_fn(JobEntry<R>) -> JobEntry<R>)
    requires
        forall|e: JobEntry<R>| #[trigger] f(e).id == e.id && f(e).kind == e.kind,
    ensures
        update_spec(v, id, f).sequence == v.sequence,
        update_spec(v, id, f).entries.len() == v.entries.len(),
        forall|j: int| 0 <= j < v.entries.len() ==> #[trigger] update_spec(v, id, f).entries[j].id == v.entries[j].id
            && update_spec(v, id, f).entries[j].kind == v.entries[j].kind,
{
    lemma_find_in_bounds(v.entries, id, v.entries.len() as int);
    if let Some(i) = find(v, id) {
        let e = v.entries[i];
        assert(f(e).id == e.id);
    }
}

/// A raised cancellation flag stays raised: no operation of the registry
/// lowers it or removes the job.
pub proof fn law_cancellation_flag_is_sticky<R>(v: JobRegistryView<R>, id: Seq<char>, kind: Seq<char>, result: R, message: Seq<char>, j: int)
    requires
        0 <= j < v.entries.len(),
        v.entries[j].cancelled,
    ensures
        start_spec(v, kind).entries[j].cancelled,
        update_spec(v, id, |e: JobEntry<R>| running_entry(e, message)).entries[j].cancelled,
        update_spec(v, id, |e: JobEntry<R>| completed_entry(e, result, message)).entries[j].cancelled,
        update_spec(v, id, |e: JobEntry<R>| failed_entry(e, message)).entries[j].cancelled,
        update_spec(v, id, |e: JobEntry<R>| cancel_entry(e)).entries[j].cancelled,
        update_spec(v, id, |e: JobEntry<R>| marked_cancelled_entry(e)).entries[j].cancelled,
{
    lemma_find_in_bounds(v.entries, id, v.entries.len() as int);
}

/// Ids are never reused: while the counter has not wrapped, the id a new job
/// gets is held by no registered job, and every id stays of the issued form
/// through any sequence of operations.
pub proof fn law_started_job_id_is_fresh<R>(v: JobRegistryView<R>, kind: Seq<char>, id: Seq<char>, result: R, message: Seq<char>)
    requires
        ids_issued_below(v),
        v.sequence < u64::MAX,
    ensures
        lookup(v, job_id(kind, v.sequence as nat)) is None,
        ids_issued_below(start_spec(v, kind)),
        ids_issued_below(update_spec(v, id, |e: JobEntry<R>| running_entry(e, message))),
        ids_issued_below(update_spec(v, id, |e: JobEntry<R>| completed_entry(e, result, message))),
        ids_issued_below(update_spec(v, id, |e: JobEntry<R>| failed_entry(e, message))),
        ids_issued_below(update_spec(v, id, |e: JobEntry<R>| cancel_entry(e))),
        ids_issued_below(update_spec(v, id, |e: JobEntry<R>| marked_cancelled_entry(e))),
{
    let new_id = job_id(kind, v.sequence as nat);
    lemma_find_in_bounds(v.entries, new_id, v.entries.len() as int);
    if let Some(i) = find(v, new_id) {
        let e = v.entries[i];
        let n = choose|n: nat| n < v.sequence && e.id == job_id(e.kind, n);
        lemma_job_id_injective(e.kind, n, kind, v.sequence as nat);
    }
    let s = start_spec(v, kind);
    assert forall|i: int| #![trigger s.entries[i]] 0 <= i < s.entries.len() implies
        exists|n: nat| n < s.sequence && s.entries[i].id == job_id(s.entries[i].kind, n) by {
        if i < v.entries.len() {
            let n = choose|n: nat| n < v.sequence && v.entries[i].id == job_id(v.entries[i].kind, n);
            assert(s.entries[i] == v.entries[i]);
            assert(n < s.sequence && s.entries[i].id == job_id(s.entries[i].kind, n));
        } else {
            assert(s.entries[i] == queued_entry::<R>(kind, v.sequence));
            assert(s.entries[i].id == job_id(s.entries[i].kind, v.sequence as nat));
        }
    }
    lemma_issued_kept(v, id, |e: JobEntry<R>| running_entry(e, message));
    lemma_issued_kept(v, id, |e: JobEntry<R>| completed_entry(e, result, message));
    lemma_issued_kept(v, id, |e: JobEntry<R>| failed_entry(e, message));
    lemma_issued_kept(v, id, |e: JobEntry<R>| cancel_entry(e));
    lemma_issued_kept(v, id, |e: JobEntry<R>| marked_cancelled_entry(e));
}

proof fn lemma_issued_kept<R>(v: JobRegistryView<R>, id: Seq<char>, f: spec_fn(JobEntry<R>) -> JobEntry<R>)
    requires
        ids_issued_below(v),
        forall|e: JobEntry<R>| #[trigger] f(e).id == e.id && f(e).kind == e.kind,
    ensures
        ids_issued_below(update_spec(v, id, f)),
{
    lemma_update_keeps_ids(v, id, f);
    let u = update_spec(v, id, f);
    assert forall|i: int| #![trigger u.entries[i]] 0 <= i < u.entries.len() implies
        exists|n: nat| n < u.sequence && u.entries[i].id == job_id(u.entries[i].kind, n) by {
        let n = choose|n: nat| n < v.sequence && v.entries[i].id == job_id(v.entries[i].kind, n);
        assert(u.entries[i].id == v.entries[i].id && u.entries[i].kind == v.entries[i].kind);
        assert(n < u.sequence && u.entries[i].id == job_id(u.entries[i].kind, n));
    }
}

impl<R> Default for JobRegistry<R> {
    /// An empty registry whose first job gets sequence number 0.
    fn default() -> (r: JobRegistry<R>)
        ensures
            r@.entries.len() == 0,
            r@.sequence == 0,
    {
        let r = JobRegistry { records: Vec::new(), sequence: 0 };
        assert(r@.entries =~= Seq::<JobEntry<R>>::empty());
        r
    }
}

} // verus!
