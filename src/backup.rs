//! Snapshots of the available and enabled stores: naming, choosing the one to restore,
//! and the file operations of a restore.
use chrono::{Datelike, Timelike};
use vstd::prelude::*;

use crate::text::{chars_eq, decimal, padded_decimal, push_all, same_text, to_chars, to_string, zero_padded};

verus! {

/// A local calendar date and wall-clock time.
#[derive(Clone, Copy, Debug, PartialEq, Eq, Structural)]
pub struct Timestamp {
    pub year: i32,
    pub month: u32,
    pub day: u32,
    pub hour: u32,
    pub minute: u32,
    pub second: u32,
}

impl Timestamp {
    /// Each field lies in its calendar range.
    pub open spec fn wf(&self) -> bool {
        &&& 1 <= self.month <= 12
        &&& 1 <= self.day <= 31
        &&& self.hour <= 23
        &&& self.minute <= 59
        &&& self.second <= 59
    }
}

/// Relies on chrono's `Local::now` with `Datelike` and `Timelike`: months run from 1 to
/// 12, days from 1 to 31, hours from 0 to 23, minutes and seconds from 0 to 59.
#[verifier::external_body]
pub(crate) fn local_now() -> (r: Timestamp)
    ensures
        r.wf(),
{
    let now = chrono::Local::now();
    Timestamp {
        year: now.year(),
        month: now.month(),
        day: now.day(),
        hour: now.hour(),
        minute: now.minute(),
        second: now.second(),
    }
}

/// A year written with at least four digits; outside 0..=9999 it carries its sign.
pub open spec fn year_text(year: int) -> Seq<char> {
    if 0 <= year <= 9999 {
        zero_padded(decimal(year as nat), 4)
    } else if year > 9999 {
        seq!['+'] + decimal(year as nat)
    } else {
        seq!['-'] + zero_padded(decimal((-year) as nat), 4)
    }
}

/// Two digits, zero-padded.
pub open spec fn two_digits(n: nat) -> Seq<char> {
    zero_padded(decimal(n), 2)
}

/// The name of a snapshot taken at `t`: `backup_YYYYMMDD_HHMMSS`.
pub open spec fn snapshot_name(t: Timestamp) -> Seq<char> {
    "backup_"@ + year_text(t.year as int) + two_digits(t.month as nat) + two_digits(t.day as nat)
        + seq!['_'] + two_digits(t.hour as nat) + two_digits(t.minute as nat) + two_digits(
        t.second as nat,
    )
}

/// Names the snapshot taken at `t`.
pub fn snapshot_dir_name(t: Timestamp) -> (r: String)
    ensures
        r@ == snapshot_name(t),
{
    let mut v = to_chars("backup_");
    let year = t.year;
    if 0 <= year && year <= 9999 {
        push_all(&mut v, &padded_decimal(year as u64, 4));
    } else if year > 9999 {
        v.push('+');
        push_all(&mut v, &padded_decimal(year as u64, 0));
    } else {
        v.push('-');
        let magnitude: u64 = (0i64 - year as i64) as u64;
        push_all(&mut v, &padded_decimal(magnitude, 4));
    }
    push_all(&mut v, &padded_decimal(t.month as u64, 2));
    push_all(&mut v, &padded_decimal(t.day as u64, 2));
    v.push('_');
    push_all(&mut v, &padded_decimal(t.hour as u64, 2));
    push_all(&mut v, &padded_decimal(t.minute as u64, 2));
    push_all(&mut v, &padded_decimal(t.second as u64, 2));
    proof {
        reveal_strlit("backup_");
    }
    assert(v@ =~= snapshot_name(t));
    to_string(&v)
}

/// Names a new snapshot after the current local time.
pub fn new_snapshot_name() -> (r: String)
    ensures
        exists|t: Timestamp| t.wf() && r@ == snapshot_name(t),
{
    let t = local_now();
    snapshot_dir_name(t)
}

/// `a` orders strictly before `b`, character by character by code point, a proper
/// prefix first. For the fixed-width snapshot names this is chronological order.
pub open spec fn lex_lt(a: Seq<char>, b: Seq<char>) -> bool
    decreases a.len(),
{
    if a.len() == 0 {
        b.len() > 0
    } else if b.len() == 0 {
        false
    } else if a[0] != b[0] {
        a[0] < b[0]
    } else {
        lex_lt(a.skip(1), b.skip(1))
    }
}

/// Whether `a` orders strictly before `b`.
pub fn lex_less(a: &Vec<char>, b: &Vec<char>) -> (r: bool)
    ensures
        r == lex_lt(a@, b@),
{
    let mut i: usize = 0;
    assert(a@.skip(0) =~= a@ && b@.skip(0) =~= b@);
    while i < a.len() && i < b.len()
        invariant
            i <= a.len(),
            i <= b.len(),
            lex_lt(a@, b@) == lex_lt(a@.skip(i as int), b@.skip(i as int)),
        decreases a.len() - i,
    {
        let ghost sa = a@.skip(i as int);
        let ghost sb = b@.skip(i as int);
        if a[i] != b[i] {
            assert(sa[0] == a@[i as int] && sb[0] == b@[i as int]);
            return a[i] < b[i];
        }
        assert(sa.skip(1) =~= a@.skip(i + 1));
        assert(sb.skip(1) =~= b@.skip(i + 1));
        i = i + 1;
    }
    i == a.len() && i < b.len()
}

/// Whether the name at `i` is a most recent one: no name of the list orders after it.
pub open spec fn is_latest(ids: Seq<Seq<char>>, i: int) -> bool {
    0 <= i < ids.len() && forall|j: int| 0 <= j < ids.len() ==> !lex_lt(ids[i], #[trigger] ids[j])
}

/// The characters of each name.
pub open spec fn ids_view(ids: Seq<String>) -> Seq<Seq<char>> {
    ids.map_values(|s: String| s@)
}

proof fn lemma_lex_lt_total(a: Seq<char>, b: Seq<char>)
    ensures
        a != b ==> lex_lt(a, b) || lex_lt(b, a),
        !(lex_lt(a, b) && lex_lt(b, a)),
    decreases a.len(),
{
    if a.len() > 0 && b.len() > 0 && a[0] == b[0] {
        lemma_lex_lt_total(a.skip(1), b.skip(1));
        if a != b {
            assert(a =~= seq![a[0]] + a.skip(1));
            assert(b =~= seq![b[0]] + b.skip(1));
        }
    } else if a.len() == 0 && b.len() == 0 {
        assert(a =~= b);
    }
}

proof fn lemma_lex_lt_transitive(a: Seq<char>, b: Seq<char>, c: Seq<char>)
    requires
        lex_lt(a, b),
        lex_lt(b, c),
    ensures
        lex_lt(a, c),
    decreases a.len(),
{
    if a.len() > 0 && b.len() > 0 && c.len() > 0 && a[0] == b[0] && b[0] == c[0] {
        lemma_lex_lt_transitive(a.skip(1), b.skip(1), c.skip(1));
    }
}

/// The index of a most recent snapshot name, or `None` when there is none.
pub fn latest_index(ids: &Vec<String>) -> (r: Option<usize>)
    ensures
        r is None <==> ids@.len() == 0,
        r matches Some(i) ==> is_latest(ids_view(ids@), i as int),
{
    if ids.len() == 0 {
        return None;
    }
    let ghost v = ids_view(ids@);
    let mut best: usize = 0;
    let mut best_chars = to_chars(ids[0].as_str());
    let mut k: usize = 1;
    proof {
        lemma_lex_lt_total(v[0], v[0]);
    }
    while k < ids.len()
        invariant
            v == ids_view(ids@),
            0 <= best < k <= ids.len(),
            best_chars@ == v[best as int],
            forall|j: int| 0 <= j < k ==> !lex_lt(v[best as int], #[trigger] v[j]),
        decreases ids.len() - k,
    {
        let c = to_chars(ids[k].as_str());
        if lex_less(&best_chars, &c) {
            proof {
                assert forall|j: int| 0 <= j < k + 1 implies !lex_lt(c@, #[trigger] v[j]) by {
                    if j < k {
                        lemma_lex_lt_total(v[best as int], v[j]);
                        if lex_lt(c@, v[j]) {
                            lemma_lex_lt_transitive(v[best as int], c@, v[j]);
                        }
                    } else {
                        lemma_lex_lt_total(c@, c@);
                    }
                }
            }
            best = k;
            best_chars = c;
        } else {
            proof {
                lemma_lex_lt_total(v[best as int], v[best as int]);
            }
        }
        k = k + 1;
    }
    Some(best)
}

/// The names run from most to least recent: no name orders after an earlier one.
pub open spec fn newest_first_order(v: Seq<Seq<char>>) -> bool {
    forall|i: int, j: int| 0 <= i < j < v.len() ==> !lex_lt(#[trigger] v[i], #[trigger] v[j])
}

/// Sorts snapshot names, most recent first.
pub fn newest_first(ids: &Vec<String>) -> (r: Vec<String>)
    ensures
        newest_first_order(ids_view(r@)),
        ids_view(r@).to_multiset() == ids_view(ids@).to_multiset(),
{
    broadcast use vstd::seq_lib::group_to_multiset_ensures;

    let mut out: Vec<String> = Vec::new();
    let mut keys: Vec<Vec<char>> = Vec::new();
    let mut i: usize = 0;
    assert(ids_view(ids@).take(0) =~= Seq::<Seq<char>>::empty());
    assert(ids_view(out@) =~= Seq::<Seq<char>>::empty());
    while i < ids.len()
        invariant
            i <= ids.len(),
            keys@.len() == out@.len(),
            forall|k: int| 0 <= k < out@.len() ==> (#[trigger] keys@[k])@ == out@[k]@,
            newest_first_order(ids_view(out@)),
            ids_view(out@).to_multiset() == ids_view(ids@).take(i as int).to_multiset(),
        decreases ids.len() - i,
    {
        let x = to_chars(ids[i].as_str());
        let ghost v = ids_view(out@);
        let mut p: usize = 0;
        while p < keys.len() && !lex_less(&keys[p], &x)
            invariant
                p <= keys@.len() == v.len(),
                forall|k: int| 0 <= k < v.len() ==> (#[trigger] keys@[k])@ == v[k],
                forall|k: int| 0 <= k < p ==> !lex_lt(#[trigger] v[k], x@),
            decreases keys.len() - p,
        {
            p = p + 1;
        }
        proof {
            assert forall|a: int, b: int| 0 <= a < b < v.len() + 1 implies !lex_lt(
                #[trigger] v.insert(p as int, x@)[a],
                #[trigger] v.insert(p as int, x@)[b],
            ) by {
                let w = v.insert(p as int, x@);
                if a < p && b == p {
                } else if a == p && b > p {
                    // v[p] < x, and v[b - 1] <= v[p]
                    lemma_lex_lt_total(v[p as int], v[b - 1]);
                    lemma_lex_lt_total(x@, v[b - 1]);
                    lemma_lex_lt_total(v[p as int], x@);
                    if lex_lt(x@, v[b - 1]) {
                        if b - 1 > p {
                            lemma_lex_lt_transitive(v[p as int], x@, v[b - 1]);
                        }
                    }
                } else if a < p && b > p {
                    assert(w[a] == v[a] && w[b] == v[b - 1]);
                } else if b < p {
                    assert(w[a] == v[a] && w[b] == v[b]);
                } else {
                    assert(w[a] == v[a - 1] && w[b] == v[b - 1]);
                }
            }
        }
        out.insert(p, ids[i].clone());
        keys.insert(p, x);
        proof {
            assert(ids_view(out@) =~= v.insert(p as int, ids@[i as int]@));
            vstd::seq_lib::to_multiset_insert(v, p as int, ids@[i as int]@);
            assert(ids_view(ids@).take(i + 1) =~= ids_view(ids@).take(i as int).push(ids@[i as int]@));
            vstd::seq_lib::to_multiset_build(ids_view(ids@).take(i as int), ids@[i as int]@);
        }
        i = i + 1;
    }
    assert(ids_view(ids@).take(ids@.len() as int) =~= ids_view(ids@));
    out
}

/// Chooses the snapshot that a rollback restores: a most recent one.
pub fn restore_latest_backup(ids: &Vec<String>) -> (r: Result<String, String>)
    ensures
        ids@.len() == 0 <==> r is Err,
        r matches Err(e) ==> e@ == "No backups available"@,
        r matches Ok(id) ==> exists|i: int| is_latest(ids_view(ids@), i) && id@ == ids@[i]@,
{
    match latest_index(ids) {
        None => Err("No backups available".to_owned()),
        Some(i) => Ok(ids[i].clone()),
    }
}

/// Why a named restore cannot proceed.
#[derive(Debug)]
pub enum RestoreError {
    /// No snapshot exists.
    NoBackups,
    /// No snapshot has this name.
    NotFound { id: String },
}

/// Resolves the snapshot a restore reads: `latest` is a most recent one; any other name
/// must be one of the existing snapshots.
pub fn restore_backup(backup_id: &str, ids: &Vec<String>) -> (r: Result<String, RestoreError>)
    ensures
        backup_id@ == "latest"@ ==> (ids@.len() == 0 <==> r is Err) && (r matches Err(e) ==> e
            is NoBackups) && (r matches Ok(id) ==> exists|i: int|
            is_latest(ids_view(ids@), i) && id@ == ids@[i]@),
        backup_id@ != "latest"@ ==> (r is Ok <==> ids_view(ids@).contains(backup_id@)) && (r matches Ok(
            id,
        ) ==> id@ == backup_id@) && (r matches Err(e) ==> e == (RestoreError::NotFound {
            id: e->id,
        }) && e->id@ == backup_id@),
{
    if same_text(backup_id, "latest") {
        match latest_index(ids) {
            None => Err(RestoreError::NoBackups),
            Some(i) => Ok(ids[i].clone()),
        }
    } else {
        let ghost v = ids_view(ids@);
        let mut k: usize = 0;
        while k < ids.len()
            invariant
                k <= ids.len(),
                v == ids_view(ids@),
                backup_id@ != "latest"@,
                forall|j: int| 0 <= j < k ==> v[j] != backup_id@,
            decreases ids.len() - k,
        {
            if same_text(ids[k].as_str(), backup_id) {
                assert(v[k as int] == backup_id@);
                return Ok(ids[k].clone());
            }
            k = k + 1;
        }
        Err(RestoreError::NotFound { id: backup_id.to_owned() })
    }
}

/// The contents of a store: each entry's name and the bytes it holds.
pub type Store = Map<Seq<char>, Seq<u8>>;

/// One file operation of a restore.
#[derive(Debug)]
pub enum FileOp {
    /// Delete this entry of the enabled store.
    RemoveEnabled { name: String },
    /// Copy this file of the snapshot's `available` copy over the available store.
    CopyAvailable { name: String },
    /// Copy this file of the snapshot's `enabled` copy into the enabled store.
    CopyEnabled { name: String },
}

/// `k` is one of `names`.
pub open spec fn listed(names: Seq<String>, k: Seq<char>) -> bool
    decreases names.len(),
{
    names.len() > 0 && (names[0]@ == k || listed(names.skip(1), k))
}

/// `names` lists exactly the entries of `store`.
pub open spec fn lists(names: Seq<String>, store: Store) -> bool {
    forall|k: Seq<char>| #[trigger] store.contains_key(k) <==> listed(names, k)
}

/// The effect of one operation on the (available, enabled) stores, reading copies from
/// the snapshot `snap`. Copying a file the snapshot lacks changes nothing.
pub open spec fn run_op(s: (Store, Store), op: FileOp, snap: (Store, Store)) -> (Store, Store) {
    match op {
        FileOp::RemoveEnabled { name } => (s.0, s.1.remove(name@)),
        FileOp::CopyAvailable { name } => if snap.0.contains_key(name@) {
            (s.0.insert(name@, snap.0[name@]), s.1)
        } else {
            s
        },
        FileOp::CopyEnabled { name } => if snap.1.contains_key(name@) {
            (s.0, s.1.insert(name@, snap.1[name@]))
        } else {
            s
        },
    }
}

/// The effect of a sequence of operations, first to last.
pub open spec fn run_ops(s: (Store, Store), ops: Seq<FileOp>, snap: (Store, Store)) -> (Store, Store)
    decreases ops.len(),
{
    if ops.len() == 0 {
        s
    } else {
        run_ops(run_op(s, ops[0], snap), ops.skip(1), snap)
    }
}

/// Removing each of `names` from the enabled store.
pub open spec fn removals(names: Seq<String>) -> Seq<FileOp> {
    names.map_values(|n: String| FileOp::RemoveEnabled { name: n })
}

/// Copying each of `names` from the snapshot's available copy.
pub open spec fn available_copies(names: Seq<String>) -> Seq<FileOp> {
    names.map_values(|n: String| FileOp::CopyAvailable { name: n })
}

/// Copying each of `names` from the snapshot's enabled copy.
pub open spec fn enabled_copies(names: Seq<String>) -> Seq<FileOp> {
    names.map_values(|n: String| FileOp::CopyEnabled { name: n })
}

/// The operations of a whole-store restore: clear the enabled store, copy the snapshot's
/// available files over the available store, then copy its enabled files back.
pub open spec fn restore_ops(
    current_enabled: Seq<String>,
    snap_available: Seq<String>,
    snap_enabled: Seq<String>,
) -> Seq<FileOp> {
    removals(current_enabled) + available_copies(snap_available) + enabled_copies(snap_enabled)
}

fn push_ops(ops: &mut Vec<FileOp>, names: &Vec<String>, kind: u8)
    requires
        kind < 3,
    ensures
        final(ops)@ == old(ops)@ + if kind == 0 {
            removals(names@)
        } else if kind == 1 {
            available_copies(names@)
        } else {
            enabled_copies(names@)
        },
{
    let ghost tail = if kind == 0 {
        removals(names@)
    } else if kind == 1 {
        available_copies(names@)
    } else {
        enabled_copies(names@)
    };
    let mut i: usize = 0;
    while i < names.len()
        invariant
            kind < 3,
            i <= names.len(),
            tail == if kind == 0 {
                removals(names@)
            } else if kind == 1 {
                available_copies(names@)
            } else {
                enabled_copies(names@)
            },
            ops@ =~= old(ops)@ + tail.take(i as int),
        decreases names.len() - i,
    {
        let name = names[i].clone();
        let op = if kind == 0 {
            FileOp::RemoveEnabled { name }
        } else if kind == 1 {
            FileOp::CopyAvailable { name }
        } else {
            FileOp::CopyEnabled { name }
        };
        ops.push(op);
        i = i + 1;
        assert(tail.take(i as int) =~= tail.take(i - 1).push(tail[i - 1]));
    }
    assert(tail.take(names@.len() as int) =~= tail);
}

/// Plans the restore of a snapshot, given the names in the enabled store now and the
/// names of the snapshot's two copies.
pub fn restore_plan(
    current_enabled: &Vec<String>,
    snap_available: &Vec<String>,
    snap_enabled: &Vec<String>,
) -> (ops: Vec<FileOp>)
    ensures
        ops@ == restore_ops(current_enabled@, snap_available@, snap_enabled@),
{
    let mut ops: Vec<FileOp> = Vec::new();
    push_ops(&mut ops, current_enabled, 0);
    push_ops(&mut ops, snap_available, 1);
    push_ops(&mut ops, snap_enabled, 2);
    assert(ops@ =~= restore_ops(current_enabled@, snap_available@, snap_enabled@));
    ops
}

proof fn lemma_run_concat(s: (Store, Store), a: Seq<FileOp>, b: Seq<FileOp>, snap: (Store, Store))
    ensures
        run_ops(s, a + b, snap) == run_ops(run_ops(s, a, snap), b, snap),
    decreases a.len(),
{
    if a.len() == 0 {
        assert(a + b =~= b);
    } else {
        assert((a + b).skip(1) =~= a.skip(1) + b);
        lemma_run_concat(run_op(s, a[0], snap), a.skip(1), b, snap);
    }
}

proof fn lemma_removals(s: (Store, Store), names: Seq<String>, snap: (Store, Store))
    ensures
        run_ops(s, removals(names), snap).0 == s.0,
        forall|k: Seq<char>|
            #![trigger run_ops(s, removals(names), snap).1.contains_key(k)]
            run_ops(s, removals(names), snap).1.contains_key(k) <==> s.1.contains_key(k)
                && !listed(names, k),
        forall|k: Seq<char>|
            #![trigger run_ops(s, removals(names), snap).1[k]]
            run_ops(s, removals(names), snap).1.contains_key(k) ==> run_ops(
                s,
                removals(names),
                snap,
            ).1[k] == s.1[k],
    decreases names.len(),
{
    if names.len() > 0 {
        let s1 = run_op(s, removals(names)[0], snap);
        assert(removals(names).skip(1) =~= removals(names.skip(1)));
        lemma_removals(s1, names.skip(1), snap);
    }
}

proof fn lemma_available_copies(s: (Store, Store), names: Seq<String>, snap: (Store, Store))
    ensures
        run_ops(s, available_copies(names), snap).1 == s.1,
        forall|k: Seq<char>|
            #![trigger run_ops(s, available_copies(names), snap).0.contains_key(k)]
            listed(names, k) && snap.0.contains_key(k) ==> run_ops(
                s,
                available_copies(names),
                snap,
            ).0.contains_key(k) && run_ops(s, available_copies(names), snap).0[k] == snap.0[k],
        forall|k: Seq<char>|
            #![trigger run_ops(s, available_copies(names), snap).0.contains_key(k)]
            !listed(names, k) ==> run_ops(s, available_copies(names), snap).0.contains_key(k)
                == s.0.contains_key(k) && (s.0.contains_key(k) ==> run_ops(
                s,
                available_copies(names),
                snap,
            ).0[k] == s.0[k]),
    decreases names.len(),
{
    if names.len() > 0 {
        let s1 = run_op(s, available_copies(names)[0], snap);
        let rest = names.skip(1);
        assert(available_copies(names).skip(1) =~= available_copies(rest));
        lemma_available_copies(s1, rest, snap);
        let r = run_ops(s, available_copies(names), snap);
        assert(r == run_ops(s1, available_copies(rest), snap));
        assert forall|k: Seq<char>| listed(names, k) && snap.0.contains_key(k) implies #[trigger] r.0.contains_key(
            k,
        ) && r.0[k] == snap.0[k] by {
            if !listed(rest, k) {
                assert(names[0]@ == k);
                assert(s1.0.contains_key(k) && s1.0[k] == snap.0[k]);
            }
        }
        assert forall|k: Seq<char>| !listed(names, k) implies #[trigger] r.0.contains_key(k)
            == s.0.contains_key(k) && (s.0.contains_key(k) ==> r.0[k] == s.0[k]) by {
            assert(!listed(rest, k));
            assert(names[0]@ != k);
        }
    }
}

proof fn lemma_enabled_copies(s: (Store, Store), names: Seq<String>, snap: (Store, Store))
    ensures
        run_ops(s, enabled_copies(names), snap).0 == s.0,
        forall|k: Seq<char>|
            #![trigger run_ops(s, enabled_copies(names), snap).1.contains_key(k)]
            run_ops(s, enabled_copies(names), snap).1.contains_key(k) <==> s.1.contains_key(k) || (
            listed(names, k) && snap.1.contains_key(k)),
        forall|k: Seq<char>|
            #![trigger run_ops(s, enabled_copies(names), snap).1[k]]
            run_ops(s, enabled_copies(names), snap).1.contains_key(k) ==> run_ops(
                s,
                enabled_copies(names),
                snap,
            ).1[k] == if listed(names, k) && snap.1.contains_key(k) {
                snap.1[k]
            } else {
                s.1[k]
            },
    decreases names.len(),
{
    if names.len() > 0 {
        let s1 = run_op(s, enabled_copies(names)[0], snap);
        assert(enabled_copies(names).skip(1) =~= enabled_copies(names.skip(1)));
        lemma_enabled_copies(s1, names.skip(1), snap);
    }
}

/// A restore returns the stores to the snapshot: afterwards the enabled store holds
/// exactly the snapshot's enabled entries, and every file that the available store held
/// when the snapshot was taken holds the same bytes again. Files created in the available
/// store after the snapshot are left in place.
pub proof fn lemma_restore_returns_to_snapshot(
    current: (Store, Store),
    snap: (Store, Store),
    current_enabled: Seq<String>,
    snap_available: Seq<String>,
    snap_enabled: Seq<String>,
)
    requires
        lists(current_enabled, current.1),
        lists(snap_available, snap.0),
        lists(snap_enabled, snap.1),
    ensures
        ({
            let r = run_ops(current, restore_ops(current_enabled, snap_available, snap_enabled), snap);
            &&& r.1 == snap.1
            &&& forall|k: Seq<char>| #[trigger]
                snap.0.contains_key(k) ==> r.0.contains_key(k) && r.0[k] == snap.0[k]
        }),
{
    let a = removals(current_enabled);
    let b = available_copies(snap_available);
    let c = enabled_copies(snap_enabled);
    lemma_run_concat(current, a + b, c, snap);
    lemma_run_concat(current, a, b, snap);
    let s1 = run_ops(current, a, snap);
    lemma_removals(current, current_enabled, snap);
    let s2 = run_ops(s1, b, snap);
    lemma_available_copies(s1, snap_available, snap);
    let s3 = run_ops(s2, c, snap);
    lemma_enabled_copies(s2, snap_enabled, snap);
    assert(s1.1 =~= Map::<Seq<char>, Seq<u8>>::empty());
    assert(s3.1 =~= snap.1);
}

} // verus!
