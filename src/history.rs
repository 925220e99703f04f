//! The branch-creation history: an append-only log read most recent first.
use vstd::prelude::*;
use crate::naming::BranchPattern;

verus! {

/// The number of entries a history query returns when no limit is given.
pub const DEFAULT_HISTORY_LIMIT: i32 = 50;

/// One recorded branch creation.
#[derive(Debug)]
pub struct HistoryEntry {
    pub branch_name: String,
    /// The pattern the name was generated from; `None` when the stored pattern
    /// could not be read back.
    pub pattern: Option<BranchPattern>,
    /// Seconds since the Unix epoch.
    pub created_at: i64,
}

impl HistoryEntry {
    /// A field-by-field copy.
    pub fn duplicate(&self) -> (r: HistoryEntry)
        ensures
            r == *self,
    {
        HistoryEntry {
            branch_name: self.branch_name.clone(),
            pattern: match &self.pattern {
                Some(p) => Some(p.duplicate()),
                None => None,
            },
            created_at: self.created_at,
        }
    }
}

/// `e` placed into `s` before the first entry that is not newer than it.
pub open spec fn insert_by_time(s: Seq<HistoryEntry>, e: HistoryEntry) -> Seq<HistoryEntry>
    decreases s.len(),
{
    if s.len() == 0 || e.created_at >= s[0].created_at {
        seq![e] + s
    } else {
        seq![s[0]] + insert_by_time(s.drop_first(), e)
    }
}

/// Newest first: no entry is newer than one before it.
pub open spec fn newest_first(s: Seq<HistoryEntry>) -> bool {
    forall|i: int, j: int| 0 <= i < j < s.len() ==> s[i].created_at >= s[j].created_at
}

/// The log after recording each entry of `es` in turn into an empty log.
pub open spec fn log_of(es: Seq<HistoryEntry>) -> Seq<HistoryEntry>
    decreases es.len(),
{
    if es.len() == 0 {
        seq![]
    } else {
        insert_by_time(log_of(es.drop_last()), es.last())
    }
}

/// How many entries a query with `limit` returns from `n`: 50 without a
/// limit, all of them for a negative limit, else at most `limit`.
pub open spec fn history_count(limit: Option<i32>, n: nat) -> nat {
    let l: int = match limit {
        Some(k) => k as int,
        None => DEFAULT_HISTORY_LIMIT as int,
    };
    if l < 0 || l >= n {
        n
    } else {
        l as nat
    }
}

/// `es` in reverse order.
pub open spec fn reversed(es: Seq<HistoryEntry>) -> Seq<HistoryEntry>
    decreases es.len(),
{
    if es.len() == 0 {
        seq![]
    } else {
        seq![es.last()] + reversed(es.drop_last())
    }
}

pub open spec fn strictly_increasing_times(es: Seq<HistoryEntry>) -> bool {
    forall|i: int, j: int| 0 <= i < j < es.len() ==> es[i].created_at < es[j].created_at
}

/// The append-only log of branch creations, kept newest first.
pub struct HistoryLog {
    entries: Vec<HistoryEntry>,
}

impl View for HistoryLog {
    type V = Seq<HistoryEntry>;

    closed spec fn view(&self) -> Seq<HistoryEntry> {
        self.entries@
    }
}

proof fn lemma_insert_at(s: Seq<HistoryEntry>, e: HistoryEntry, j: int)
    requires
        0 <= j <= s.len(),
        forall|k: int| 0 <= k < j ==> s[k].created_at > e.created_at,
        j < s.len() ==> s[j].created_at <= e.created_at,
    ensures
        insert_by_time(s, e) == s.take(j) + seq![e] + s.skip(j),
    decreases s.len(),
{
    if j == 0 {
        assert(s.take(0) + seq![e] + s.skip(0) =~= seq![e] + s);
    } else {
        let t = s.drop_first();
        assert forall|k: int| 0 <= k < j - 1 implies t[k].created_at > e.created_at by {
            assert(t[k] == s[k + 1]);
        }
        if j < s.len() {
            assert(t[j - 1] == s[j]);
        }
        lemma_insert_at(t, e, j - 1);
        assert(seq![s[0]] + (t.take(j - 1) + seq![e] + t.skip(j - 1)) =~= s.take(j) + seq![e]
            + s.skip(j));
    }
}

impl HistoryLog {
    /// Newest first.
    pub closed spec fn well_formed(&self) -> bool {
        newest_first(self.entries@)
    }

    /// An empty log.
    pub fn new() -> (r: HistoryLog)
        ensures
            r.well_formed(),
            r@ == Seq::<HistoryEntry>::empty(),
    {
        HistoryLog { entries: Vec::new() }
    }

    /// The number of entries.
    pub fn len(&self) -> (r: usize)
        ensures
            r == self@.len(),
    {
        self.entries.len()
    }

    /// Records `entry` before every entry that is not newer than it.
    pub fn record(&mut self, entry: HistoryEntry)
        requires
            old(self).well_formed(),
        ensures
            final(self).well_formed(),
            final(self)@ == insert_by_time(old(self)@, entry),
    {
        let t = entry.created_at;
        let mut j: usize = 0;
        while j < self.entries.len() && self.entries[j].created_at > t
            invariant
                self.entries@ == old(self).entries@,
                j <= self.entries@.len(),
                forall|k: int| 0 <= k < j ==> self.entries@[k].created_at > t,
            decreases self.entries@.len() - j,
        {
            j = j + 1;
        }
        let ghost s = self.entries@;
        proof {
            lemma_insert_at(s, entry, j as int);
        }
        self.entries.insert(j, entry);
        assert(self.entries@ =~= s.take(j as int) + seq![entry] + s.skip(j as int));
        assert forall|a: int, b: int| 0 <= a < b < self.entries@.len() implies
            self.entries@[a].created_at >= self.entries@[b].created_at by {
            let v = self.entries@;
            if a < j && b > j {
                assert(v[a] == s[a] && v[b] == s[b - 1]);
            } else if a < j && b == j {
                assert(v[a] == s[a]);
            } else if a == j && b > j {
                assert(v[b] == s[b - 1]);
            } else if b < j {
                assert(v[a] == s[a] && v[b] == s[b]);
            } else {
                assert(v[a] == s[a - 1] && v[b] == s[b - 1]);
            }
        }
    }

    /// The most recent entries, newest first: 50 when `limit` is `None`, every
    /// entry when it is negative, else at most `limit`.
    pub fn recent(&self, limit: Option<i32>) -> (r: Vec<HistoryEntry>)
        ensures
            r@ == self@.take(history_count(limit, self@.len()) as int),
    {
        let n = self.entries.len();
        let l: i32 = match limit {
            Some(k) => k,
            None => DEFAULT_HISTORY_LIMIT,
        };
        let count: usize = if l < 0 || l as usize >= n {
            n
        } else {
            l as usize
        };
        let mut out: Vec<HistoryEntry> = Vec::new();
        let mut i: usize = 0;
        while i < count
            invariant
                count <= n,
                n == self.entries@.len(),
                i <= count,
                out@ == self.entries@.take(i as int),
            decreases count - i,
        {
            out.push(self.entries[i].duplicate());
            i = i + 1;
            assert(out@ =~= self.entries@.take(i as int));
        }
        out
    }
}

proof fn lemma_log_is_reversed(es: Seq<HistoryEntry>)
    requires
        strictly_increasing_times(es),
    ensures
        log_of(es) == reversed(es),
    decreases es.len(),
{
    if es.len() > 0 {
        let d = es.drop_last();
        assert forall|i: int, j: int| 0 <= i < j < d.len() implies d[i].created_at
            < d[j].created_at by {
            assert(d[i] == es[i] && d[j] == es[j]);
        }
        lemma_log_is_reversed(d);
        if d.len() > 0 {
            assert(reversed(d)[0] == d.last());
            assert(es[es.len() - 2].created_at < es[es.len() - 1].created_at);
        }
    }
}

/// Recording entries with strictly increasing times and then asking for `k`
/// of them returns the `k` most recent, newest first (all of them when `k` is
/// negative or at least their number).
pub proof fn lemma_history_newest_first(es: Seq<HistoryEntry>, k: i32)
    requires
        strictly_increasing_times(es),
    ensures
        log_of(es).take(history_count(Some(k), es.len()) as int) == reversed(es).take(
            history_count(Some(k), es.len()) as int,
        ),
        reversed(es).len() == es.len(),
        forall|i: int| 0 <= i < es.len() ==> #[trigger] reversed(es)[i] == es[es.len() - 1 - i],
{
    lemma_log_is_reversed(es);
    lemma_reversed_index(es);
}

proof fn lemma_reversed_index(es: Seq<HistoryEntry>)
    ensures
        reversed(es).len() == es.len(),
        forall|i: int| 0 <= i < es.len() ==> #[trigger] reversed(es)[i] == es[es.len() - 1 - i],
    decreases es.len(),
{
    if es.len() > 0 {
        let d = es.drop_last();
        lemma_reversed_index(d);
        assert forall|i: int| 0 <= i < es.len() implies #[trigger] reversed(es)[i] == es[es.len()
            - 1 - i] by {
            if i > 0 {
                assert(reversed(es)[i] == reversed(d)[i - 1]);
            }
        }
    }
}

} // verus!
