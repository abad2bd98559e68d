//! Download history records and the store maintenance rules: replace-or-
//! append keyed by correlation id, most-recent-first order, a cap of 100
//! retained records, and the derived statistics.
use vstd::prelude::*;
use crate::text::str_eq;

verus! {

/// The coarse lifecycle of one download. `Cancelled` exists in the taxonomy
/// but no current transition produces it.
#[derive(Clone, Copy, PartialEq, Eq, Structural, Debug)]
pub enum DownloadStatus {
    Pending,
    Downloading,
    Completed,
    Failed,
    Cancelled,
}

/// One history record: the terminal (or in-flight) outcome of a download.
/// `downloaded_at` is a unix timestamp in milliseconds.
#[derive(Clone, Debug)]
pub struct DownloadHistory {
    pub id: String,
    pub title: String,
    pub url: String,
    pub status: DownloadStatus,
    pub downloaded_at: i64,
    pub file_path: Option<String>,
    pub format: String,
    pub quality: String,
}

impl DownloadHistory {
    /// An explicit field-for-field copy; the derived `Clone` carries no
    /// specification.
    pub fn duplicate(&self) -> (r: DownloadHistory)
        ensures
            r == *self,
    {
        DownloadHistory {
            id: self.id.clone(),
            title: self.title.clone(),
            url: self.url.clone(),
            status: self.status,
            downloaded_at: self.downloaded_at,
            file_path: match &self.file_path {
                Some(p) => Some(p.clone()),
                None => None,
            },
            format: self.format.clone(),
            quality: self.quality.clone(),
        }
    }
}

/// A record is consistent when `Completed` comes with a non-empty file path
/// and `Failed` with none.
pub open spec fn outcome_consistent(h: DownloadHistory) -> bool {
    &&& (h.status is Completed ==> h.file_path is Some && h.file_path->0@.len() > 0)
    &&& (h.status is Failed ==> h.file_path is None)
}

/// Most-recent-first order on records.
pub open spec fn sorted_desc(s: Seq<DownloadHistory>) -> bool {
    forall|i: int, j: int|
        0 <= i < j < s.len() ==> #[trigger] s[i].downloaded_at >= #[trigger] s[j].downloaded_at
}

/// Some record carries the given correlation id.
pub open spec fn has_id(s: Seq<DownloadHistory>, id: Seq<char>) -> bool {
    exists|i: int| 0 <= i < s.len() && #[trigger] s[i].id@ == id
}

/// The list without the records that carry the given correlation id.
pub open spec fn remove_id_spec(s: Seq<DownloadHistory>, id: Seq<char>) -> Seq<DownloadHistory>
    decreases s.len(),
{
    if s.len() == 0 {
        s
    } else {
        let rest = remove_id_spec(s.drop_last(), id);
        if s.last().id@ == id {
            rest
        } else {
            rest.push(s.last())
        }
    }
}

/// The list with the entry inserted after every record at least as recent.
pub open spec fn insert_desc_spec(s: Seq<DownloadHistory>, e: DownloadHistory) -> Seq<
    DownloadHistory,
>
    decreases s.len(),
{
    if s.len() > 0 && s.first().downloaded_at >= e.downloaded_at {
        seq![s.first()] + insert_desc_spec(s.drop_first(), e)
    } else {
        seq![e] + s
    }
}

/// At most the first `n` records.
pub open spec fn cap_spec(s: Seq<DownloadHistory>, n: int) -> Seq<DownloadHistory> {
    if s.len() > n {
        s.take(n)
    } else {
        s
    }
}

/// The full store-maintenance rule: drop any record with the entry's id,
/// insert the entry in timestamp order, keep the most recent 100.
pub open spec fn upsert_spec(s: Seq<DownloadHistory>, e: DownloadHistory) -> Seq<DownloadHistory> {
    cap_spec(insert_desc_spec(remove_id_spec(s, e.id@), e), 100)
}

proof fn lemma_remove_id_basic(s: Seq<DownloadHistory>, id: Seq<char>)
    ensures
        remove_id_spec(s, id).len() <= s.len(),
        forall|i: int|
            0 <= i < remove_id_spec(s, id).len() ==> #[trigger] remove_id_spec(s, id)[i].id@ != id,
        !has_id(s, id) ==> remove_id_spec(s, id) == s,
    decreases s.len(),
{
    if s.len() > 0 {
        lemma_remove_id_basic(s.drop_last(), id);
        let rest = remove_id_spec(s.drop_last(), id);
        let r = remove_id_spec(s, id);
        assert forall|i: int| 0 <= i < r.len() implies #[trigger] r[i].id@ != id by {
            if s.last().id@ != id {
                if i < rest.len() {
                    assert(r[i] == rest[i]);
                    assert(rest[i].id@ != id);
                } else {
                    assert(r[i] == s.last());
                }
            } else {
                assert(r[i] == rest[i]);
                assert(rest[i].id@ != id);
            }
        }
        if !has_id(s, id) {
            assert(!has_id(s.drop_last(), id)) by {
                assert forall|i: int|
                    0 <= i < s.drop_last().len() implies #[trigger] s.drop_last()[i].id@ != id by {
                    assert(s.drop_last()[i] == s[i]);
                }
            }
            assert(s[s.len() - 1].id@ != id);
            assert(remove_id_spec(s, id) =~= s);
        }
    }
}

proof fn lemma_remove_id_elements(s: Seq<DownloadHistory>, id: Seq<char>)
    ensures
        forall|i: int|
            0 <= i < remove_id_spec(s, id).len() ==> exists|j: int|
                0 <= j < s.len() && #[trigger] remove_id_spec(s, id)[i] == s[j],
    decreases s.len(),
{
    if s.len() > 0 {
        lemma_remove_id_elements(s.drop_last(), id);
        let rest = remove_id_spec(s.drop_last(), id);
        let r = remove_id_spec(s, id);
        assert forall|i: int| 0 <= i < r.len() implies exists|j: int|
            0 <= j < s.len() && #[trigger] r[i] == s[j] by {
            if i < rest.len() {
                let k = choose|k: int| 0 <= k < s.drop_last().len() && rest[i] == s.drop_last()[k];
                assert(r[i] == s[k]);
            } else {
                assert(r[i] == s[s.len() - 1]);
            }
        }
    }
}

proof fn lemma_remove_id_sorted(s: Seq<DownloadHistory>, id: Seq<char>)
    requires
        sorted_desc(s),
    ensures
        sorted_desc(remove_id_spec(s, id)),
    decreases s.len(),
{
    if s.len() > 0 {
        assert(sorted_desc(s.drop_last()));
        lemma_remove_id_sorted(s.drop_last(), id);
        lemma_remove_id_elements(s.drop_last(), id);
        let rest = remove_id_spec(s.drop_last(), id);
        let r = remove_id_spec(s, id);
        if s.last().id@ != id {
            assert forall|i: int, j: int| 0 <= i < j < r.len() implies r[i].downloaded_at
                >= r[j].downloaded_at by {
                if j < rest.len() {
                    assert(r[i] == rest[i] && r[j] == rest[j]);
                } else {
                    assert(r[j] == s.last());
                    let k = choose|k: int|
                        0 <= k < s.drop_last().len() && rest[i] == s.drop_last()[k];
                    assert(s[k] == s.drop_last()[k]);
                    assert(s[k].downloaded_at >= s[s.len() - 1].downloaded_at);
                }
            }
        }
    }
}

proof fn lemma_remove_id_props(s: Seq<DownloadHistory>, id: Seq<char>)
    ensures
        remove_id_spec(s, id).len() <= s.len(),
        sorted_desc(s) ==> sorted_desc(remove_id_spec(s, id)),
        forall|i: int|
            0 <= i < remove_id_spec(s, id).len() ==> exists|j: int|
                0 <= j < s.len() && #[trigger] remove_id_spec(s, id)[i] == s[j],
        forall|i: int|
            0 <= i < remove_id_spec(s, id).len() ==> #[trigger] remove_id_spec(s, id)[i].id@ != id,
        !has_id(s, id) ==> remove_id_spec(s, id) == s,
{
    lemma_remove_id_basic(s, id);
    lemma_remove_id_elements(s, id);
    if sorted_desc(s) {
        lemma_remove_id_sorted(s, id);
    }
}

proof fn lemma_insert_desc_props(s: Seq<DownloadHistory>, e: DownloadHistory)
    ensures
        insert_desc_spec(s, e).len() == s.len() + 1,
        sorted_desc(s) ==> sorted_desc(insert_desc_spec(s, e)),
        forall|i: int|
            0 <= i < insert_desc_spec(s, e).len() ==> #[trigger] insert_desc_spec(s, e)[i] == e
                || exists|j: int| 0 <= j < s.len() && insert_desc_spec(s, e)[i] == s[j],
        insert_desc_spec(s, e).contains(e),
    decreases s.len(),
{
    let r = insert_desc_spec(s, e);
    if s.len() > 0 && s.first().downloaded_at >= e.downloaded_at {
        lemma_insert_desc_props(s.drop_first(), e);
        let rest = insert_desc_spec(s.drop_first(), e);
        assert(r == seq![s.first()] + rest);
        assert(rest.contains(e));
        let ei = choose|i: int| 0 <= i < rest.len() && rest[i] == e;
        assert(r[ei + 1] == e);
        assert(r.contains(e));
        if sorted_desc(s) {
            assert(sorted_desc(s.drop_first()));
            assert forall|i: int, j: int| 0 <= i < j < r.len() implies #[trigger] r[i].downloaded_at
                >= #[trigger] r[j].downloaded_at by {
                if i == 0 {
                    assert(r[0] == s.first());
                    assert(r[j] == rest[j - 1]);
                    if rest[j - 1] == e {
                    } else {
                        let k = choose|k: int|
                            0 <= k < s.drop_first().len() && rest[j - 1] == s.drop_first()[k];
                        assert(s.drop_first()[k] == s[k + 1]);
                        assert(s[0].downloaded_at >= s[k + 1].downloaded_at);
                    }
                } else {
                    assert(r[i] == rest[i - 1]);
                    assert(r[j] == rest[j - 1]);
                }
            }
        }
        assert forall|i: int| 0 <= i < r.len() implies #[trigger] r[i] == e || exists|j: int|
            0 <= j < s.len() && r[i] == s[j] by {
            if i == 0 {
                assert(r[0] == s[0]);
            } else {
                assert(r[i] == rest[i - 1]);
                if rest[i - 1] != e {
                    let k = choose|k: int|
                        0 <= k < s.drop_first().len() && rest[i - 1] == s.drop_first()[k];
                    assert(s.drop_first()[k] == s[k + 1]);
                }
            }
        }
    } else {
        assert(r == seq![e] + s);
        assert(r[0] == e);
        if sorted_desc(s) {
            assert forall|i: int, j: int| 0 <= i < j < r.len() implies #[trigger] r[i].downloaded_at
                >= #[trigger] r[j].downloaded_at by {
                if i == 0 {
                    assert(r[0] == e);
                    assert(r[j] == s[j - 1]);
                    if s.len() > 0 {
                        assert(s[0].downloaded_at < e.downloaded_at);
                        if j >= 2 {
                            assert(s[0].downloaded_at >= s[j - 1].downloaded_at);
                        }
                    }
                }
            }
        }
    }
}

/// Replaces the record with the entry's correlation id (or appends), keeps
/// most-recent-first order, and caps the list at 100 records.
#[verifier::rlimit(50)]
pub fn upsert(history: &Vec<DownloadHistory>, entry: DownloadHistory) -> (r: Vec<DownloadHistory>)
    requires
        sorted_desc(history@),
    ensures
        r@ == upsert_spec(history@, entry),
        sorted_desc(r@),
        r@.len() <= 100,
{
    let ghost orig = history@;
    // Drop any record that carries the entry's id.
    let mut removed: Vec<DownloadHistory> = Vec::new();
    let mut i: usize = 0;
    while i < history.len()
        invariant
            i <= orig.len(),
            history@ == orig,
            removed@ == remove_id_spec(orig.take(i as int), entry.id@),
        decreases orig.len() - i,
    {
        let h = history[i].duplicate();
        if !str_eq(h.id.as_str(), entry.id.as_str()) {
            removed.push(h);
        }
        i = i + 1;
        proof {
            assert(orig.take(i as int).drop_last() =~= orig.take(i - 1));
            assert(orig.take(i as int).last() == orig[i - 1]);
        }
    }
    proof {
        assert(orig.take(orig.len() as int) =~= orig);
        lemma_remove_id_props(orig, entry.id@);
    }
    // Insert the entry after every record at least as recent.
    let mut out: Vec<DownloadHistory> = Vec::new();
    let mut k: usize = 0;
    proof {
        assert(removed@.skip(0) =~= removed@);
        assert(out@ + insert_desc_spec(removed@, entry) =~= insert_desc_spec(removed@, entry));
        assert(out@ =~= removed@.take(0));
    }
    while k < removed.len() && removed[k].downloaded_at >= entry.downloaded_at
        invariant
            k <= removed@.len(),
            out@ == removed@.take(k as int),
            insert_desc_spec(removed@, entry) == out@ + insert_desc_spec(
                removed@.skip(k as int),
                entry,
            ),
        decreases removed@.len() - k,
    {
        out.push(removed[k].duplicate());
        k = k + 1;
        proof {
            assert(out@ =~= removed@.take(k as int));
            let suffix = removed@.skip(k - 1);
            assert(suffix.first() == removed@[k - 1]);
            assert(suffix.drop_first() =~= removed@.skip(k as int));
            assert(out@ + insert_desc_spec(removed@.skip(k as int), entry) =~= removed@.take(k - 1)
                + (seq![suffix.first()] + insert_desc_spec(suffix.drop_first(), entry)));
        }
    }
    proof {
        let suffix = removed@.skip(k as int);
        if k < removed@.len() {
            assert(suffix.first() == removed@[k as int]);
        }
        assert(insert_desc_spec(suffix, entry) == seq![entry] + suffix);
    }
    out.push(entry);
    let mut k2 = k;
    while k2 < removed.len()
        invariant
            k <= k2 <= removed@.len(),
            out@ == removed@.take(k as int) + seq![entry] + removed@.subrange(k as int, k2 as int),
            insert_desc_spec(removed@, entry) == removed@.take(k as int) + (seq![entry]
                + removed@.skip(k as int)),
        decreases removed@.len() - k2,
    {
        out.push(removed[k2].duplicate());
        k2 = k2 + 1;
        proof {
            assert(out@ =~= removed@.take(k as int) + seq![entry] + removed@.subrange(
                k as int,
                k2 as int,
            ));
        }
    }
    proof {
        assert(removed@.subrange(k as int, removed@.len() as int) =~= removed@.skip(k as int));
        assert(out@ =~= removed@.take(k as int) + (seq![entry] + removed@.skip(k as int)));
        assert(out@ == insert_desc_spec(removed@, entry));
        lemma_insert_desc_props(removed@, entry);
    }
    // Keep the most recent 100 records.
    if out.len() > 100 {
        out.truncate(100);
        proof {
            assert(out@ =~= cap_spec(insert_desc_spec(remove_id_spec(orig, entry.id@), entry), 100));
        }
    }
    out
}

/// After an upsert whose entry bears a strictly later timestamp than every
/// retained record, loading the list back gives that entry first.
pub proof fn lemma_upsert_latest_first(s: Seq<DownloadHistory>, e: DownloadHistory)
    requires
        sorted_desc(s),
        forall|i: int| 0 <= i < s.len() ==> #[trigger] s[i].downloaded_at < e.downloaded_at,
    ensures
        upsert_spec(s, e).len() > 0,
        upsert_spec(s, e)[0] == e,
{
    lemma_remove_id_props(s, e.id@);
    let removed = remove_id_spec(s, e.id@);
    assert forall|i: int| 0 <= i < removed.len() implies #[trigger] removed[i].downloaded_at
        < e.downloaded_at by {
        let j = choose|j: int| 0 <= j < s.len() && removed[i] == s[j];
        assert(s[j].downloaded_at < e.downloaded_at);
    }
    let ins = insert_desc_spec(removed, e);
    assert(ins == seq![e] + removed);
    assert(ins[0] == e);
    assert(upsert_spec(s, e)[0] == e);
}

/// Upserting a strictly fresher record with a new correlation id into a full
/// store keeps exactly 100 records: the new entry is present and the oldest
/// record falls off the end.
pub proof fn lemma_upsert_cap(s: Seq<DownloadHistory>, e: DownloadHistory)
    requires
        sorted_desc(s),
        s.len() == 100,
        !has_id(s, e.id@),
        e.downloaded_at > s[99].downloaded_at,
    ensures
        upsert_spec(s, e).len() == 100,
        upsert_spec(s, e).contains(e),
        insert_desc_spec(s, e)[100] == s[99],
        upsert_spec(s, e) == insert_desc_spec(s, e).take(100),
{
    lemma_remove_id_props(s, e.id@);
    assert(remove_id_spec(s, e.id@) == s);
    lemma_insert_desc_props(s, e);
    let ins = insert_desc_spec(s, e);
    assert(ins.len() == 101);
    let ei = choose|i: int| 0 <= i < ins.len() && ins[i] == e;
    assert(ins[ei] == e);
    // The entry is strictly fresher than the oldest record, so it cannot sit
    // at the end of the sorted list: index 100 is the old record s[99].
    lemma_insert_last(s, e);
    assert(ei != 100) by {
        assert(ins[100] == s[99]);
        assert(s[99].downloaded_at < e.downloaded_at);
    }
    assert(upsert_spec(s, e) == ins.take(100));
    assert(ins.take(100)[ei] == e);
    assert(upsert_spec(s, e).contains(e));
}

/// Looks up the record with the given correlation id: the first match in
/// list order, or none when no record carries the id.
pub fn find_by_id(history: &Vec<DownloadHistory>, id: &str) -> (r: Option<DownloadHistory>)
    ensures
        match r {
            Some(h) => exists|i: int|
                {
                    &&& 0 <= i < history@.len()
                    &&& h == #[trigger] history@[i]
                    &&& h.id@ == id@
                    &&& forall|j: int| 0 <= j < i ==> #[trigger] history@[j].id@ != id@
                },
            None => !has_id(history@, id@),
        },
{
    let mut i: usize = 0;
    while i < history.len()
        invariant
            i <= history@.len(),
            forall|j: int| 0 <= j < i ==> #[trigger] history@[j].id@ != id@,
        decreases history@.len() - i,
    {
        if str_eq(history[i].id.as_str(), id) {
            let h = history[i].duplicate();
            proof {
                assert(h == history@[i as int] && h.id@ == id@);
            }
            return Some(h);
        }
        i = i + 1;
    }
    proof {
        assert(!has_id(history@, id@));
    }
    None
}

/// Aggregate numbers over the history list.
#[derive(Clone, Debug)]
pub struct DownloadStats {
    pub total: usize,
    pub completed: usize,
    pub failed: usize,
    pub downloading: usize,
    pub most_used_format: Option<String>,
    pub formats_breakdown: Vec<(String, usize)>,
}

/// How many records carry the given status.
pub open spec fn count_status(s: Seq<DownloadHistory>, st: DownloadStatus) -> int
    decreases s.len(),
{
    if s.len() == 0 {
        0
    } else {
        count_status(s.drop_last(), st) + if s.last().status == st {
            1int
        } else {
            0int
        }
    }
}

/// How many records carry the given format.
pub open spec fn count_format(s: Seq<DownloadHistory>, f: Seq<char>) -> int
    decreases s.len(),
{
    if s.len() == 0 {
        0
    } else {
        count_format(s.drop_last(), f) + if s.last().format@ == f {
            1int
        } else {
            0int
        }
    }
}

proof fn lemma_count_format_zero(s: Seq<DownloadHistory>, f: Seq<char>)
    requires
        forall|j: int| 0 <= j < s.len() ==> #[trigger] s[j].format@ != f,
    ensures
        count_format(s, f) == 0,
    decreases s.len(),
{
    if s.len() > 0 {
        assert forall|j: int|
            0 <= j < s.drop_last().len() implies #[trigger] s.drop_last()[j].format@ != f by {
            assert(s.drop_last()[j] == s[j]);
        }
        lemma_count_format_zero(s.drop_last(), f);
    }
}

/// Totals per status: completed, failed, downloading.
fn count_statuses(history: &Vec<DownloadHistory>) -> (r: (usize, usize, usize))
    ensures
        r.0 == count_status(history@, DownloadStatus::Completed),
        r.1 == count_status(history@, DownloadStatus::Failed),
        r.2 == count_status(history@, DownloadStatus::Downloading),
{
    let ghost hs = history@;
    let n = history.len();
    let mut completed: usize = 0;
    let mut failed: usize = 0;
    let mut downloading: usize = 0;
    let mut i: usize = 0;
    proof {
        assert(hs.take(0) =~= Seq::<DownloadHistory>::empty());
    }
    while i < n
        invariant
            n == hs.len(),
            history@ == hs,
            i <= n,
            completed == count_status(hs.take(i as int), DownloadStatus::Completed),
            failed == count_status(hs.take(i as int), DownloadStatus::Failed),
            downloading == count_status(hs.take(i as int), DownloadStatus::Downloading),
            completed <= i,
            failed <= i,
            downloading <= i,
        decreases n - i,
    {
        match history[i].status {
            DownloadStatus::Completed => {
                completed = completed + 1;
            },
            DownloadStatus::Failed => {
                failed = failed + 1;
            },
            DownloadStatus::Downloading => {
                downloading = downloading + 1;
            },
            _ => {},
        }
        i = i + 1;
        proof {
            assert(hs.take(i as int).drop_last() =~= hs.take(i - 1));
            assert(hs.take(i as int).last() == hs[i - 1]);
        }
    }
    proof {
        assert(hs.take(n as int) =~= hs);
    }
    (completed, failed, downloading)
}

/// The breakdown holds an entry for the given format.
pub open spec fn breakdown_has(bd: Seq<(String, usize)>, f: Seq<char>) -> bool {
    exists|k: int| 0 <= k < bd.len() && #[trigger] bd[k].0@ == f
}

proof fn lemma_breakdown_has_extend(bd0: Seq<(String, usize)>, bd: Seq<(String, usize)>, f: Seq<char>)
    requires
        breakdown_has(bd0, f),
        bd0.len() <= bd.len(),
        forall|k: int| 0 <= k < bd0.len() ==> #[trigger] bd[k].0@ == bd0[k].0@,
    ensures
        breakdown_has(bd, f),
{
    let k = choose|k: int| 0 <= k < bd0.len() && #[trigger] bd0[k].0@ == f;
    assert(bd[k].0@ == f);
}

/// Builds the per-format breakdown: one entry per format that occurs, with
/// its exact occurrence count.
#[verifier::rlimit(50)]
fn build_breakdown(history: &Vec<DownloadHistory>) -> (bd: Vec<(String, usize)>)
    ensures
        forall|k: int|
            0 <= k < bd@.len() ==> #[trigger] bd@[k].1 == count_format(history@, bd@[k].0@)
                && bd@[k].1 >= 1,
        forall|k: int, l: int|
            0 <= k < l < bd@.len() ==> #[trigger] bd@[k].0@ != #[trigger] bd@[l].0@,
        forall|j: int|
            #![trigger history@[j]]
            0 <= j < history@.len() ==> breakdown_has(bd@, history@[j].format@),
{
    let n = history.len();
    let mut bd: Vec<(String, usize)> = Vec::new();
    let mut i: usize = 0;
    proof {
        assert(history@.take(0) =~= Seq::<DownloadHistory>::empty());
    }
    while i < n
        invariant
            n == history@.len(),
            i <= n,
            forall|k: int|
                0 <= k < bd@.len() ==> #[trigger] bd@[k].1 == count_format(
                    history@.take(i as int),
                    bd@[k].0@,
                ) && 1 <= bd@[k].1 <= i,
            forall|k: int, l: int|
                0 <= k < l < bd@.len() ==> #[trigger] bd@[k].0@ != #[trigger] bd@[l].0@,
            forall|j: int|
                #![trigger history@[j]]
                0 <= j < i ==> breakdown_has(bd@, history@[j].format@),
        decreases n - i,
    {
        let h = &history[i];
        let mut k: usize = 0;
        let mut found = false;
        while k < bd.len()
            invariant
                k <= bd@.len(),
                found ==> k < bd@.len() && bd@[k as int].0@ == h.format@,
                !found ==> forall|l: int| 0 <= l < k ==> #[trigger] bd@[l].0@ != h.format@,
            ensures
                found ==> k < bd@.len() && bd@[k as int].0@ == h.format@,
                !found ==> forall|l: int| 0 <= l < bd@.len() ==> #[trigger] bd@[l].0@ != h.format@,
            decreases bd@.len() - k,
        {
            if str_eq(bd[k].0.as_str(), h.format.as_str()) {
                found = true;
                break;
            }
            k = k + 1;
        }
        let ghost bd0 = bd@;
        if found {
            let c = bd[k].1;
            bd[k].1 = c + 1;
            proof {
                assert(bd@ =~= bd0.update(k as int, (bd0[k as int].0, (c + 1) as usize)));
            }
        } else {
            bd.push((h.format.clone(), 1));
        }
        i = i + 1;
        proof {
            assert(history@.take(i as int).drop_last() =~= history@.take(i - 1));
            assert(history@.take(i as int).last() == history@[i - 1]);
            assert(forall|l: int| 0 <= l < bd0.len() ==> #[trigger] bd@[l].0@ == bd0[l].0@);
            if found {
                assert forall|l: int| 0 <= l < bd@.len() implies #[trigger] bd@[l].1
                    == count_format(history@.take(i as int), bd@[l].0@) && 1 <= bd@[l].1 <= i by {
                    if l == k {
                        assert(bd@[l].0@ == history@[i - 1].format@);
                    } else {
                        assert(bd@[l] == bd0[l]);
                        assert(bd0[l].0@ != bd0[k as int].0@);
                        assert(bd@[l].0@ != history@[i - 1].format@);
                    }
                }
            } else {
                assert forall|j: int|
                    0 <= j < history@.take(i - 1).len() implies #[trigger] history@.take(
                    i - 1,
                )[j].format@ != history@[i - 1].format@ by {
                    assert(history@.take(i - 1)[j] == history@[j]);
                    assert(breakdown_has(bd0, history@[j].format@));
                    let k3 = choose|k3: int|
                        0 <= k3 < bd0.len() && #[trigger] bd0[k3].0@ == history@[j].format@;
                }
                lemma_count_format_zero(history@.take(i - 1), history@[i - 1].format@);
                assert forall|l: int| 0 <= l < bd@.len() implies #[trigger] bd@[l].1
                    == count_format(history@.take(i as int), bd@[l].0@) && 1 <= bd@[l].1 <= i by {
                    if l < bd0.len() {
                        assert(bd@[l] == bd0[l]);
                        assert(bd@[l].0@ != history@[i - 1].format@);
                    } else {
                        assert(bd@[l].0@ == history@[i - 1].format@);
                        assert(count_format(history@.take(i - 1), history@[i - 1].format@) == 0);
                    }
                }
            }
            assert forall|j: int| #![trigger history@[j]] 0 <= j < i implies breakdown_has(
                bd@,
                history@[j].format@,
            ) by {
                if j < i - 1 {
                    lemma_breakdown_has_extend(bd0, bd@, history@[j].format@);
                } else {
                    if found {
                        assert(bd@[k as int].0@ == history@[i - 1].format@);
                    } else {
                        assert(bd@[bd@.len() - 1].0@ == history@[i - 1].format@);
                    }
                }
            }
        }
    }
    proof {
        assert(history@.take(n as int) =~= history@);
    }
    bd
}

/// Picks a format whose count no other entry exceeds.
fn pick_most_used(bd: &Vec<(String, usize)>) -> (r: Option<String>)
    ensures
        match r {
            Some(m) => exists|k: int|
                0 <= k < bd@.len() && #[trigger] bd@[k].0@ == m@ && (forall|l: int|
                    0 <= l < bd@.len() ==> #[trigger] bd@[l].1 <= bd@[k].1),
            None => bd@.len() == 0,
        },
{
    if bd.len() == 0 {
        return None;
    }
    let mut m: usize = 0;
    let mut k: usize = 1;
    while k < bd.len()
        invariant
            m < k <= bd@.len(),
            forall|l: int| 0 <= l < k ==> #[trigger] bd@[l].1 <= bd@[m as int].1,
        decreases bd@.len() - k,
    {
        if bd[k].1 > bd[m].1 {
            m = k;
        }
        k = k + 1;
    }
    let chosen = bd[m].0.clone();
    proof {
        assert(chosen@ == bd@[m as int].0@);
        assert(forall|l: int| 0 <= l < bd@.len() ==> #[trigger] bd@[l].1 <= bd@[m as int].1);
    }
    Some(chosen)
}

/// Computes totals per status and the per-format breakdown; the most used
/// format is one whose count no other format exceeds.
pub fn compute_statistics(history: &Vec<DownloadHistory>) -> (r: DownloadStats)
    ensures
        r.total == history@.len(),
        r.completed == count_status(history@, DownloadStatus::Completed),
        r.failed == count_status(history@, DownloadStatus::Failed),
        r.downloading == count_status(history@, DownloadStatus::Downloading),
        forall|k: int|
            0 <= k < r.formats_breakdown@.len() ==> #[trigger] r.formats_breakdown@[k].1
                == count_format(history@, r.formats_breakdown@[k].0@)
                && r.formats_breakdown@[k].1 >= 1,
        forall|k: int, l: int|
            0 <= k < l < r.formats_breakdown@.len() ==> #[trigger] r.formats_breakdown@[k].0@
                != #[trigger] r.formats_breakdown@[l].0@,
        forall|j: int|
            #![trigger history@[j]]
            0 <= j < history@.len() ==> breakdown_has(
                r.formats_breakdown@,
                history@[j].format@,
            ),
        match r.most_used_format {
            Some(m) => exists|k: int|
                0 <= k < r.formats_breakdown@.len() && #[trigger] r.formats_breakdown@[k].0@ == m@
                    && (forall|l: int|
                    0 <= l < r.formats_breakdown@.len() ==> #[trigger] r.formats_breakdown@[l].1
                        <= r.formats_breakdown@[k].1),
            None => history@.len() == 0,
        },
{
    let (completed, failed, downloading) = count_statuses(history);
    let bd = build_breakdown(history);
    let most_used = pick_most_used(&bd);
    proof {
        if bd@.len() == 0 && history@.len() > 0 {
            assert(breakdown_has(bd@, history@[0].format@));
            let k = choose|k: int| 0 <= k < bd@.len() && #[trigger] bd@[k].0@ == history@[0].format@;
            assert(false);
        }
    }
    let ghost bdv = bd@;
    let r = DownloadStats {
        total: history.len(),
        completed,
        failed,
        downloading,
        most_used_format: most_used,
        formats_breakdown: bd,
    };
    proof {
        assert(r.formats_breakdown@ == bdv);
        if r.most_used_format is Some {
            let m = r.most_used_format->0;
            let k = choose|k: int|
                0 <= k < bdv.len() && #[trigger] bdv[k].0@ == m@ && (forall|l: int|
                    0 <= l < bdv.len() ==> #[trigger] bdv[l].1 <= bdv[k].1);
            assert(r.formats_breakdown@[k].0@ == m@);
            assert(forall|l: int|
                0 <= l < r.formats_breakdown@.len() ==> #[trigger] r.formats_breakdown@[l].1
                    <= r.formats_breakdown@[k].1);
        }
    }
    r
}

proof fn lemma_insert_last(s: Seq<DownloadHistory>, e: DownloadHistory)
    requires
        s.len() > 0,
    ensures
        insert_desc_spec(s, e).len() == s.len() + 1,
        s[s.len() - 1].downloaded_at < e.downloaded_at ==> insert_desc_spec(s, e)[s.len() as int]
            == s[s.len() - 1],
    decreases s.len(),
{
    lemma_insert_desc_props(s, e);
    let r = insert_desc_spec(s, e);
    if s[s.len() - 1].downloaded_at < e.downloaded_at {
        if s.first().downloaded_at >= e.downloaded_at {
            let rest = insert_desc_spec(s.drop_first(), e);
            assert(s.drop_first().len() > 0) by {
                if s.len() == 1 {
                    assert(s.first() == s[s.len() - 1]);
                }
            }
            assert(s.drop_first()[s.drop_first().len() - 1] == s[s.len() - 1]);
            lemma_insert_last(s.drop_first(), e);
            assert(r[s.len() as int] == rest[s.len() - 1]);
        } else {
            assert(r == seq![e] + s);
            assert(r[s.len() as int] == s[s.len() - 1]);
        }
    }
}

} // verus!
