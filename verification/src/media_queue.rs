//! Submitting media downloads to the client's own transfer queue: which
//! client process a request belongs to, and when a request is sent, skipped
//! as already sent, or refused. Times are milliseconds on a monotonic clock.
use vstd::prelude::*;
use crate::router::file_downloads::append_str;
use crate::text::{chars_of, str_eq};

verus! {

/// How long a submission is remembered, in milliseconds: a request within it
/// is not sent again.
pub const RETRY_AFTER_MS: u64 = 300000;

/// The most submissions remembered at once.
pub const MAX_SUBMITTED: usize = 256;

/// The whitespace `split_whitespace` splits on.
pub open spec fn is_ws(c: char) -> bool {
    crate::text::is_ws(c)
}

/// The fields of a text separated by whitespace, in order.
pub open spec fn fields(s: Seq<char>) -> Seq<Seq<char>>
    decreases s.len(),
{
    fields_from(s, 0, Seq::empty())
}

/// The fields after position `i`, with `cur` the field in progress.
pub open spec fn fields_from(s: Seq<char>, i: int, cur: Seq<char>) -> Seq<Seq<char>>
    decreases s.len() - i,
{
    if i < 0 || i >= s.len() {
        if cur.len() > 0 {
            seq![cur]
        } else {
            Seq::empty()
        }
    } else if is_ws(s[i]) {
        if cur.len() > 0 {
            seq![cur] + fields_from(s, i + 1, Seq::empty())
        } else {
            fields_from(s, i + 1, Seq::empty())
        }
    } else {
        fields_from(s, i + 1, cur.push(s[i]))
    }
}

/// The position of the last `)`.
pub open spec fn last_paren(s: Seq<char>) -> Option<int>
    decreases s.len(),
{
    if s.len() == 0 {
        None
    } else if s.last() == ')' {
        Some(s.len() - 1)
    } else {
        last_paren(s.drop_last())
    }
}

/// A process's start time from its `/proc/<pid>/stat` line: the twentieth
/// field after the command name's closing parenthesis.
pub open spec fn start_time_spec(stat: Seq<char>) -> Option<Seq<char>> {
    match last_paren(stat) {
        Some(p) => {
            let f = fields(stat.skip(p + 1));
            if f.len() > 19 {
                Some(f[19])
            } else {
                None
            }
        },
        None => None,
    }
}

proof fn lemma_last_paren_bound(s: Seq<char>)
    ensures
        match last_paren(s) {
            Some(p) => 0 <= p < s.len(),
            None => true,
        },
    decreases s.len(),
{
    if s.len() > 0 && s.last() != ')' {
        lemma_last_paren_bound(s.drop_last());
    }
}

fn fields_exec(s: &[char]) -> (r: Vec<Vec<char>>)
    ensures
        crate::text::vecs_view(r@) == fields(s@),
{
    let mut out: Vec<Vec<char>> = Vec::new();
    let mut cur: Vec<char> = Vec::new();
    let mut i: usize = 0;
    while i < s.len()
        invariant
            i <= s.len(),
            crate::text::vecs_view(out@) + fields_from(s@, i as int, cur@) == fields(s@),
        decreases s.len() - i,
    {
        let c = s[i];
        let ghost cv0 = cur@;
        if crate::text::is_ws_exec(c) {
            assert(fields_from(s@, i as int, cv0) == if cv0.len() > 0 {
                seq![cv0] + fields_from(s@, i + 1, Seq::empty())
            } else {
                fields_from(s@, i + 1, Seq::empty())
            });
            if cur.len() > 0 {
                let ghost prev = crate::text::vecs_view(out@);
                let ghost cv = cur@;
                out.push(cur);
                cur = Vec::new();
                assert(crate::text::vecs_view(out@) =~= prev.push(cv));
                assert(prev.push(cv) + fields_from(s@, i + 1, Seq::empty()) =~= prev + (seq![cv]
                    + fields_from(s@, i + 1, Seq::empty())));
            } else {
                assert(cv0 =~= Seq::<char>::empty());
            }
        } else {
            assert(fields_from(s@, i as int, cv0) == fields_from(s@, i + 1, cv0.push(c)));
            cur.push(c);
        }
        i += 1;
    }
    if cur.len() > 0 {
        let ghost prev = crate::text::vecs_view(out@);
        let ghost cv = cur@;
        out.push(cur);
        assert(crate::text::vecs_view(out@) =~= prev.push(cv));
        assert(prev + seq![cv] =~= prev.push(cv));
    } else {
        assert(crate::text::vecs_view(out@) + Seq::<Seq<char>>::empty() =~= crate::text::vecs_view(out@));
    }
    out
}

/// A process's start time, read from its stat line.
pub fn start_time(stat: &str) -> (r: Option<String>)
    ensures
        crate::types::opt_str_view(r) == start_time_spec(stat@),
{
    let cs = chars_of(stat);
    let mut p: usize = cs.len();
    assert(cs@.take(cs.len() as int) == cs@);
    while p > 0
        invariant
            p <= cs.len(),
            cs@ == stat@,
            last_paren(cs@) == last_paren(cs@.take(p as int)),
        ensures
            p <= cs.len(),
            last_paren(cs@) == last_paren(cs@.take(p as int)),
            p == 0 || cs@[p - 1] == ')',
        decreases p,
    {
        assert(cs@.take(p as int).drop_last() == cs@.take(p - 1));
        assert(cs@.take(p as int).last() == cs@[p - 1]);
        if cs[p - 1] == ')' {
            break;
        }
        p -= 1;
    }
    if p == 0 {
        return None;
    }
    let paren = p - 1;
    proof {
        lemma_last_paren_bound(cs@);
        assert(cs@.take(p as int).last() == cs@[p - 1]);
        assert(last_paren(cs@) == Some(paren as int));
    }
    let rest = crate::text::slice_chars(cs.as_slice(), paren + 1, cs.len());
    assert(rest@ == cs@.skip(paren + 1));
    let f = fields_exec(rest.as_slice());
    if f.len() > 19 {
        Some(crate::text::string_of(f[19].as_slice()))
    } else {
        None
    }
}

/// The identity of a client process: its id, start time and account.
pub open spec fn identity_spec(pid: i64, start: Seq<char>, account: Seq<char>) -> Seq<char> {
    crate::text::signed_decimal(pid as int) + ":"@ + start + ":"@ + account
}

/// Names a client process so that a restarted client is told apart.
pub fn process_identity(pid: i64, start: &str, account: &str) -> (r: String)
    ensures
        r@ == identity_spec(pid, start@, account@),
{
    let mut s = String::new();
    crate::text::push_signed_decimal(pid, &mut s);
    append_str(&mut s, ":");
    append_str(&mut s, start);
    append_str(&mut s, ":");
    append_str(&mut s, account);
    s
}

/// The key a submission is remembered under: the process identity and the
/// message's chat, local id and server id as rendered by the caller.
pub open spec fn submission_key_spec(
    identity: Seq<char>,
    chat: Seq<char>,
    local_id: Seq<char>,
    server_id: Seq<char>,
) -> Seq<char> {
    identity + ":"@ + chat + ":"@ + local_id + ":"@ + server_id
}

pub fn submission_key(identity: &str, chat: &str, local_id: &str, server_id: &str) -> (r: String)
    ensures
        r@ == submission_key_spec(identity@, chat@, local_id@, server_id@),
{
    let mut s = String::from_str(identity);
    append_str(&mut s, ":");
    append_str(&mut s, chat);
    append_str(&mut s, ":");
    append_str(&mut s, local_id);
    append_str(&mut s, ":");
    append_str(&mut s, server_id);
    s
}

/// The submissions remembered, each with the time it was made, and the
/// identity of the process the helper is attached to.
pub struct SubmitQueue {
    pub submitted: Vec<(String, u64)>,
    pub worker_identity: Option<String>,
}

/// No key is remembered twice.
pub open spec fn unique_keys(v: Seq<(String, u64)>) -> bool {
    forall|i: int, j: int| 0 <= i < j < v.len() ==> (#[trigger] v[i]).0@ != (#[trigger] v[j]).0@
}

impl SubmitQueue {
    /// The queue's invariant: unique keys, and no more than the limit.
    pub open spec fn wf(&self) -> bool {
        unique_keys(self.submitted@) && self.submitted@.len() <= MAX_SUBMITTED
    }

    /// An empty queue with no helper.
    pub fn new() -> (q: SubmitQueue)
        ensures
            q.wf(),
            q.submitted@.len() == 0,
            q.worker_identity is None,
    {
        SubmitQueue { submitted: Vec::new(), worker_identity: None }
    }
}

/// A submission still remembered at `now`.
pub open spec fn fresh(e: (String, u64), now: u64) -> bool {
    now < e.1 || now - e.1 < RETRY_AFTER_MS
}

/// The submissions still remembered at `now`, in order.
pub open spec fn prune_spec(v: Seq<(String, u64)>, now: u64) -> Seq<(String, u64)>
    decreases v.len(),
{
    if v.len() == 0 {
        Seq::empty()
    } else if fresh(v.last(), now) {
        prune_spec(v.drop_last(), now).push(v.last())
    } else {
        prune_spec(v.drop_last(), now)
    }
}

proof fn lemma_prune_sub(v: Seq<(String, u64)>, now: u64)
    ensures
        prune_spec(v, now).len() <= v.len(),
        forall|k: int| 0 <= k < prune_spec(v, now).len() ==> exists|i: int| 0 <= i < v.len() && #[trigger] prune_spec(v, now)[k] == v[i],
        unique_keys(v) ==> unique_keys(prune_spec(v, now)),
    decreases v.len(),
{
    if v.len() > 0 {
        let d = v.drop_last();
        lemma_prune_sub(d, now);
        let p = prune_spec(d, now);
        if fresh(v.last(), now) {
            assert forall|k: int| 0 <= k < prune_spec(v, now).len() implies exists|i: int| 0 <= i < v.len() && #[trigger] prune_spec(v, now)[k] == v[i] by {
                if k < p.len() {
                    let i = choose|i: int| 0 <= i < d.len() && p[k] == d[i];
                    assert(v[i] == d[i]);
                } else {
                    assert(prune_spec(v, now)[k] == v[v.len() - 1]);
                }
            }
            if unique_keys(v) {
                assert(unique_keys(d)) by {
                    assert forall|i: int, j: int| 0 <= i < j < d.len() implies (#[trigger] d[i]).0@ != (#[trigger] d[j]).0@ by {
                        assert(d[i] == v[i] && d[j] == v[j]);
                    }
                }
                assert forall|i: int, j: int| 0 <= i < j < prune_spec(v, now).len() implies (#[trigger] prune_spec(v, now)[i]).0@ != (#[trigger] prune_spec(v, now)[j]).0@ by {
                    if j < p.len() {
                        assert(prune_spec(v, now)[i] == p[i] && prune_spec(v, now)[j] == p[j]);
                    } else {
                        assert(prune_spec(v, now)[i] == p[i]);
                        let a = choose|a: int| 0 <= a < d.len() && p[i] == d[a];
                        assert(v[a] == d[a]);
                        assert(prune_spec(v, now)[j] == v[v.len() - 1]);
                    }
                }
            }
        } else {
            assert forall|k: int| 0 <= k < prune_spec(v, now).len() implies exists|i: int| 0 <= i < v.len() && #[trigger] prune_spec(v, now)[k] == v[i] by {
                let i = choose|i: int| 0 <= i < d.len() && p[k] == d[i];
                assert(v[i] == d[i]);
            }
            if unique_keys(v) {
                assert forall|i: int, j: int| 0 <= i < j < d.len() implies (#[trigger] d[i]).0@ != (#[trigger] d[j]).0@ by {
                    assert(d[i] == v[i] && d[j] == v[j]);
                }
            }
        }
    }
}

/// Forgets the submissions older than the retry period.
pub fn prune(q: &mut SubmitQueue, now: u64)
    requires
        old(q).wf(),
    ensures
        final(q).wf(),
        final(q).submitted@ == prune_spec(old(q).submitted@, now),
        final(q).worker_identity == old(q).worker_identity,
{
    let mut kept: Vec<(String, u64)> = Vec::new();
    let mut i: usize = 0;
    let ghost orig = q.submitted@;
    while i < q.submitted.len()
        invariant
            i <= q.submitted.len(),
            q.submitted@ == orig,
            kept@ == prune_spec(orig.take(i as int), now),
        decreases q.submitted.len() - i,
    {
        assert(orig.take(i + 1).drop_last() == orig.take(i as int));
        assert(orig.take(i + 1).last() == orig[i as int]);
        let t = q.submitted[i].1;
        if now < t || now - t < RETRY_AFTER_MS {
            let k = q.submitted[i].0.clone();
            kept.push((k, t));
            assert(kept@ =~= prune_spec(orig.take(i as int), now).push(orig[i as int]));
        }
        i += 1;
    }
    assert(orig.take(orig.len() as int) == orig);
    proof {
        lemma_prune_sub(orig, now);
    }
    q.submitted = kept;
}

/// What to do with a request.
#[derive(Clone, Copy, Debug, PartialEq, Eq, Structural)]
pub enum QueueStep {
    /// It was submitted within the retry period: report it queued.
    AlreadySubmitted,
    /// Too many submissions are remembered: refuse it.
    Full,
    /// Submit it through the current helper.
    Submit,
    /// Start a helper for this process (stopping the old one), then submit.
    RestartAndSubmit,
}

pub open spec fn has_key(v: Seq<(String, u64)>, key: Seq<char>) -> bool {
    exists|i: int| 0 <= i < v.len() && (#[trigger] v[i]).0@ == key
}

/// A remembered request is not sent again; a full memory refuses; a helper
/// attached to another process is replaced.
pub open spec fn queue_step_spec(q: SubmitQueue, key: Seq<char>, identity: Seq<char>) -> QueueStep {
    if has_key(q.submitted@, key) {
        QueueStep::AlreadySubmitted
    } else if q.submitted@.len() >= MAX_SUBMITTED {
        QueueStep::Full
    } else if crate::types::opt_str_view(q.worker_identity) == Some(identity) {
        QueueStep::Submit
    } else {
        QueueStep::RestartAndSubmit
    }
}

/// Decides how a request is handled, after pruning.
pub fn queue_step(q: &SubmitQueue, key: &str, identity: &str) -> (r: QueueStep)
    ensures
        r == queue_step_spec(*q, key@, identity@),
{
    let mut i: usize = 0;
    while i < q.submitted.len()
        invariant
            i <= q.submitted.len(),
            forall|j: int| 0 <= j < i ==> (#[trigger] q.submitted@[j]).0@ != key@,
        decreases q.submitted.len() - i,
    {
        if str_eq(q.submitted[i].0.as_str(), key) {
            assert(q.submitted@[i as int].0@ == key@);
            return QueueStep::AlreadySubmitted;
        }
        i += 1;
    }
    if q.submitted.len() >= MAX_SUBMITTED {
        return QueueStep::Full;
    }
    let same = match &q.worker_identity {
        Some(w) => str_eq(w.as_str(), identity),
        None => false,
    };
    if same {
        QueueStep::Submit
    } else {
        QueueStep::RestartAndSubmit
    }
}

/// Remembers a submission made at `now`; the helper is now attached to `identity`.
pub fn remember(q: &mut SubmitQueue, key: String, identity: String, now: u64)
    requires
        old(q).wf(),
        !has_key(old(q).submitted@, key@),
        old(q).submitted@.len() < MAX_SUBMITTED,
    ensures
        final(q).wf(),
        final(q).submitted@ == old(q).submitted@.push((key, now)),
        crate::types::opt_str_view(final(q).worker_identity) == Some(identity@),
{
    let ghost before = q.submitted@;
    q.submitted.push((key, now));
    q.worker_identity = Some(identity);
    assert forall|i: int, j: int| 0 <= i < j < q.submitted@.len() implies (#[trigger] q.submitted@[i]).0@ != (#[trigger] q.submitted@[j]).0@ by {
        if j < before.len() {
            assert(q.submitted@[i] == before[i] && q.submitted@[j] == before[j]);
        } else {
            assert(q.submitted@[i] == before[i]);
            assert(q.submitted@[j].0@ == key@);
        }
    }
}

/// A request remembered less than the retry period ago survives pruning, so
/// it is answered as already submitted and not sent again.
pub proof fn lemma_no_resubmit_within_retry(v: Seq<(String, u64)>, key: Seq<char>, i: int, now: u64)
    requires
        0 <= i < v.len(),
        v[i].0@ == key,
        v[i].1 <= now,
        now - v[i].1 < RETRY_AFTER_MS,
    ensures
        has_key(prune_spec(v, now), key),
    decreases v.len(),
{
    let d = v.drop_last();
    if i == v.len() - 1 {
        assert(fresh(v.last(), now));
        let p = prune_spec(d, now).push(v.last());
        assert(p[p.len() - 1].0@ == key);
    } else {
        assert(d[i] == v[i]);
        lemma_no_resubmit_within_retry(d, key, i, now);
        let p = prune_spec(d, now);
        let k = choose|k: int| 0 <= k < p.len() && (#[trigger] p[k]).0@ == key;
        if fresh(v.last(), now) {
            assert(prune_spec(v, now)[k] == p[k]);
        }
    }
}

/// The download helper accepted a request: its reply line is a JSON object
/// whose `status` is the string `queued`.
pub open spec fn reply_queued_spec(line: Seq<char>) -> bool {
    match crate::json::json_text_shape(line, "status"@) {
        Ok(sh) => crate::json::opt_str_member(sh.0, "status"@) == Some("queued"@),
        Err(_) => false,
    }
}

/// Whether the helper's reply says the transfer was queued.
pub fn reply_queued(line: &str) -> (r: bool)
    ensures
        r == reply_queued_spec(line@),
{
    proof {
        reveal_strlit("status");
        reveal_strlit("queued");
    }
    match crate::json::parse_text(line, "status") {
        Err(_) => false,
        Ok(sh) => match crate::json::opt_str_member_of(&sh.top, "status") {
            Some(st) => str_eq(st.as_str(), "queued"),
            None => false,
        },
    }
}

} // verus!
