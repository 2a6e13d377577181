//! Window identity correlation: joining the platform windowing API's full
//! window table (rich metadata, no indices) with the capture engine's
//! capturable-window list (indices, little metadata) into one merged,
//! human-navigable listing.
//!
//! The join is a left outer join keyed on the native window id: the left
//! side is the native record set, the right side the engine's indexed
//! window set. Rows come out in native enumeration order; an engine index
//! is a derived annotation, attached where the id is capturable and left
//! as a "not capturable" marker otherwise. Both inputs are snapshots taken
//! at call time; the join is not re-validated against later OS state.

use vstd::prelude::*;
use crate::targets::CaptureTarget;
use crate::targets::TargetKind;
use crate::targets::TargetView;
use crate::targets::filter_kind;
use crate::targets::lemma_filter_len;
use crate::targets::lemma_filter_take_prefix;
use crate::targets::lemma_filter_take_step;
use crate::targets::views;
use crate::text::str_eq;

verus! {

/// One window as the platform windowing API reports it: read-only metadata,
/// never created by this tool.
#[derive(Debug)]
pub struct NativeWindowRecord {
    pub id: u32,
    pub owner_pid: i64,
    pub layer: i64,
    pub x: i32,
    pub y: i32,
    pub width: i32,
    pub height: i32,
    pub alpha: i64,
    pub on_screen: bool,
    pub owner_name: String,
    pub title: String,
}

/// The mathematical content of a native window record.
pub struct RecordView {
    pub id: u32,
    pub owner_pid: i64,
    pub layer: i64,
    pub x: i32,
    pub y: i32,
    pub width: i32,
    pub height: i32,
    pub alpha: i64,
    pub on_screen: bool,
    pub owner_name: Seq<char>,
    pub title: Seq<char>,
}

impl View for NativeWindowRecord {
    type V = RecordView;

    open spec fn view(&self) -> RecordView {
        RecordView {
            id: self.id,
            owner_pid: self.owner_pid,
            layer: self.layer,
            x: self.x,
            y: self.y,
            width: self.width,
            height: self.height,
            alpha: self.alpha,
            on_screen: self.on_screen,
            owner_name: self.owner_name@,
            title: self.title@,
        }
    }
}

/// A native record joined with the engine's window index, or `None` when
/// the window is not independently capturable.
#[derive(Debug)]
pub struct CorrelatedWindowRow {
    pub record: NativeWindowRecord,
    pub capture_index: Option<usize>,
}

/// The relevance filter: keep a record if it has a title, or if its owner is
/// named (and not the placeholder) and its bounds exceed the minimum size
/// threshold. This suppresses desktop furniture and zero-size helper windows.
pub open spec fn relevant(r: RecordView) -> bool {
    ||| r.title.len() > 0
    ||| (r.owner_name.len() > 0 && r.owner_name != "Unknown"@ && (r.width > 50 || r.height > 50))
}

/// The views of a record sequence.
pub open spec fn record_views(s: Seq<NativeWindowRecord>) -> Seq<RecordView> {
    s.map_values(|r: NativeWindowRecord| r@)
}

/// The subsequence of relevant records, in order.
pub open spec fn keep_relevant(s: Seq<RecordView>) -> Seq<RecordView>
    decreases s.len(),
{
    if s.len() == 0 {
        Seq::<RecordView>::empty()
    } else {
        let prev = keep_relevant(s.drop_last());
        if relevant(s.last()) {
            prev.push(s.last())
        } else {
            prev
        }
    }
}

/// The engine index the id-to-index mapping assigns to a native id: the
/// position of the last engine window with that id (a later entry for the
/// same id overwrites an earlier one), or `None` when no engine window
/// carries the id.
pub open spec fn window_index_of(ws: Seq<TargetView>, id: u32) -> Option<int>
    decreases ws.len(),
{
    if ws.len() == 0 {
        None
    } else if ws.last().id == id {
        Some(ws.len() - 1)
    } else {
        window_index_of(ws.drop_last(), id)
    }
}

/// What one output row must hold: the record itself, and the engine index
/// its id resolves to, if any.
pub open spec fn row_matches(row: CorrelatedWindowRow, rec: RecordView, ws: Seq<TargetView>) -> bool {
    &&& row.record@ == rec
    &&& match window_index_of(ws, rec.id) {
        Some(j) => row.capture_index == Some(j as usize),
        None => row.capture_index is None,
    }
}

impl NativeWindowRecord {
    /// A copy with the same mathematical content.
    pub fn duplicate(&self) -> (r: Self)
        ensures
            r@ == self@,
    {
        NativeWindowRecord {
            id: self.id,
            owner_pid: self.owner_pid,
            layer: self.layer,
            x: self.x,
            y: self.y,
            width: self.width,
            height: self.height,
            alpha: self.alpha,
            on_screen: self.on_screen,
            owner_name: self.owner_name.clone(),
            title: self.title.clone(),
        }
    }

    /// Whether the relevance filter keeps this record.
    pub fn is_relevant(&self) -> (r: bool)
        ensures
            r == relevant(self@),
    {
        if !self.title.as_str().is_empty() {
            return true;
        }
        if self.owner_name.as_str().is_empty() {
            return false;
        }
        if str_eq(self.owner_name.as_str(), "Unknown") {
            return false;
        }
        self.width > 50 || self.height > 50
    }
}

/// Keeping the scanned prefix one record longer extends the kept list by
/// exactly the new record, when it is relevant.
proof fn lemma_keep_take_step(s: Seq<RecordView>, i: int)
    requires
        0 <= i < s.len(),
    ensures
        keep_relevant(s.take(i + 1)) == if relevant(s[i]) {
            keep_relevant(s.take(i)).push(s[i])
        } else {
            keep_relevant(s.take(i))
        },
{
    assert(s.take(i + 1).drop_last() =~= s.take(i));
    assert(s.take(i + 1).last() == s[i]);
}

/// Look up the engine index mapped to a native id, scanning the id/index
/// pairs from the most recent insertion backwards.
fn lookup_index(pairs: &Vec<(u32, usize)>, ws: Ghost<Seq<TargetView>>, id: u32) -> (r: Option<
    usize,
>)
    requires
        pairs@.len() == ws@.len(),
        forall|j: int| 0 <= j < pairs@.len() ==> #[trigger] pairs@[j] == (ws@[j].id, j as usize),
    ensures
        match window_index_of(ws@, id) {
            Some(j) => r == Some(j as usize),
            None => r is None,
        },
{
    proof {
        assert(ws@.take(ws@.len() as int) =~= ws@);
    }
    let mut k: usize = pairs.len();
    while k > 0
        invariant
            pairs@.len() == ws@.len(),
            forall|j: int| 0 <= j < pairs@.len() ==> #[trigger] pairs@[j] == (ws@[j].id, j as usize),
            k <= ws@.len(),
            window_index_of(ws@, id) == window_index_of(ws@.take(k as int), id),
        decreases k,
    {
        proof {
            assert(ws@.take(k as int).drop_last() =~= ws@.take(k as int - 1));
            assert(ws@.take(k as int).last() == ws@[k as int - 1]);
        }
        if pairs[k - 1].0 == id {
            return Some(pairs[k - 1].1);
        }
        k = k - 1;
    }
    assert(ws@.take(0) =~= Seq::<TargetView>::empty());
    None
}

/// Join the native window table with the engine's capturable-window indices.
///
/// The result keeps exactly the relevant native records, in native order,
/// each joined by id equality with the index the engine's enumeration
/// snapshot assigns — the index of the last engine window with that id —
/// or marked not capturable when no engine window carries the id.
pub fn correlate(native: &Vec<NativeWindowRecord>, targets: &Vec<CaptureTarget>) -> (rows: Vec<
    CorrelatedWindowRow,
>)
    ensures
        ({
            let kept = keep_relevant(record_views(native@));
            let ws = filter_kind(views(targets@), TargetKind::Window);
            &&& rows@.len() == kept.len()
            &&& forall|i: int| 0 <= i < rows@.len() ==> row_matches(#[trigger] rows@[i], kept[i], ws)
        }),
{
    let ghost vs = views(targets@);
    let ghost ws = filter_kind(vs, TargetKind::Window);
    let ghost rv = record_views(native@);

    // First pass: the id-to-index mapping for the engine's windows.
    let mut pairs: Vec<(u32, usize)> = Vec::new();
    let mut i: usize = 0;
    while i < targets.len()
        invariant
            vs == views(targets@),
            vs.len() == targets@.len(),
            forall|j: int| 0 <= j < vs.len() ==> vs[j] == targets@[j]@,
            ws == filter_kind(vs, TargetKind::Window),
            i <= targets@.len(),
            pairs@.len() == filter_kind(vs.take(i as int), TargetKind::Window).len(),
            pairs@.len() <= ws.len(),
            forall|j: int| 0 <= j < pairs@.len() ==> #[trigger] pairs@[j] == (ws[j].id, j as usize),
        decreases targets@.len() - i,
    {
        proof {
            lemma_filter_take_step(vs, TargetKind::Window, i as int);
            lemma_filter_take_prefix(vs, TargetKind::Window, i as int + 1);
            lemma_filter_len(vs, TargetKind::Window);
        }
        let t = &targets[i];
        if matches!(t.kind(), TargetKind::Window) {
            let idx = pairs.len();
            proof {
                let taken = filter_kind(vs.take(i as int + 1), TargetKind::Window);
                assert(taken == filter_kind(vs.take(i as int), TargetKind::Window).push(
                    vs[i as int],
                ));
                assert(taken.is_prefix_of(ws));
                assert(taken[idx as int] == vs[i as int]);
                assert(ws[idx as int] == vs[i as int]);
            }
            pairs.push((t.id(), idx));
        }
        i = i + 1;
    }
    proof {
        assert(vs.take(vs.len() as int) =~= vs);
    }

    // Second pass: filter the native table and attach indices.
    let mut rows: Vec<CorrelatedWindowRow> = Vec::new();
    let mut n: usize = 0;
    while n < native.len()
        invariant
            vs == views(targets@),
            ws == filter_kind(vs, TargetKind::Window),
            rv == record_views(native@),
            rv.len() == native@.len(),
            forall|j: int| 0 <= j < rv.len() ==> rv[j] == native@[j]@,
            pairs@.len() == ws.len(),
            forall|j: int| 0 <= j < pairs@.len() ==> #[trigger] pairs@[j] == (ws[j].id, j as usize),
            n <= native@.len(),
            rows@.len() == keep_relevant(rv.take(n as int)).len(),
            forall|i2: int|
                0 <= i2 < rows@.len() ==> row_matches(
                    #[trigger] rows@[i2],
                    keep_relevant(rv.take(n as int))[i2],
                    ws,
                ),
        decreases native@.len() - n,
    {
        proof {
            lemma_keep_take_step(rv, n as int);
        }
        let rec = &native[n];
        if rec.is_relevant() {
            let capture_index = lookup_index(&pairs, Ghost(ws), rec.id);
            rows.push(CorrelatedWindowRow { record: rec.duplicate(), capture_index });
        }
        n = n + 1;
    }
    proof {
        assert(rv.take(rv.len() as int) =~= rv);
    }
    rows
}

/// The set of native ids a record sequence mentions.
pub open spec fn record_ids(s: Seq<RecordView>) -> Set<u32>
    decreases s.len(),
{
    if s.len() == 0 {
        Set::<u32>::empty()
    } else {
        record_ids(s.drop_last()).insert(s.last().id)
    }
}

/// The set of native ids the engine's window list mentions.
pub open spec fn window_ids(ws: Seq<TargetView>) -> Set<u32>
    decreases ws.len(),
{
    if ws.len() == 0 {
        Set::<u32>::empty()
    } else {
        window_ids(ws.drop_last()).insert(ws.last().id)
    }
}

/// No native id appears twice in the record sequence.
pub open spec fn distinct_ids(s: Seq<RecordView>) -> bool {
    forall|i: int, j: int|
        0 <= i < j < s.len() ==> (#[trigger] s[i]).id != (#[trigger] s[j]).id
}

/// How many records resolve to an engine index.
pub open spec fn indexed_row_count(s: Seq<RecordView>, ws: Seq<TargetView>) -> int
    decreases s.len(),
{
    if s.len() == 0 {
        0
    } else {
        indexed_row_count(s.drop_last(), ws) + if window_index_of(ws, s.last().id) is Some {
            1int
        } else {
            0int
        }
    }
}

/// An id resolves to an engine index exactly when some engine window
/// carries it.
pub proof fn lemma_window_index_iff_member(ws: Seq<TargetView>, id: u32)
    ensures
        window_index_of(ws, id) is Some <==> window_ids(ws).contains(id),
    decreases ws.len(),
{
    if ws.len() > 0 {
        lemma_window_index_iff_member(ws.drop_last(), id);
    }
}

/// The id sets are finite.
proof fn lemma_record_ids_finite(s: Seq<RecordView>)
    ensures
        record_ids(s).finite(),
    decreases s.len(),
{
    if s.len() > 0 {
        lemma_record_ids_finite(s.drop_last());
    }
}

/// A record's id is in the id set exactly when some record carries it.
proof fn lemma_record_ids_member(s: Seq<RecordView>, id: u32)
    ensures
        record_ids(s).contains(id) <==> exists|i: int| 0 <= i < s.len() && (#[trigger] s[i]).id == id,
    decreases s.len(),
{
    if s.len() > 0 {
        let prev = s.drop_last();
        lemma_record_ids_member(prev, id);
        if record_ids(prev).contains(id) {
            let i = choose|i: int| 0 <= i < prev.len() && (#[trigger] prev[i]).id == id;
            assert(s[i].id == id);
        }
        if s.last().id == id {
            assert(s[s.len() - 1].id == id);
        }
        if exists|i: int| 0 <= i < s.len() && (#[trigger] s[i]).id == id {
            let i = choose|i: int| 0 <= i < s.len() && (#[trigger] s[i]).id == id;
            if i < s.len() - 1 {
                assert(prev[i].id == id);
            }
        }
    }
}

/// Law: join correctness. For a native record set with pairwise-distinct
/// ids, the number of rows that resolve to an engine index is exactly the
/// number of ids shared between the native set and the engine's window set;
/// every other row carries the "not capturable" marker, since a row
/// resolves exactly when its id is an engine window id.
pub proof fn lemma_join_correctness(recs: Seq<RecordView>, ws: Seq<TargetView>)
    requires
        distinct_ids(recs),
    ensures
        indexed_row_count(recs, ws) == record_ids(recs).intersect(window_ids(ws)).len(),
        forall|i: int|
            0 <= i < recs.len() ==> (window_index_of(ws, (#[trigger] recs[i]).id) is Some
                <==> window_ids(ws).contains(recs[i].id)),
    decreases recs.len(),
{
    assert forall|i: int|
        0 <= i < recs.len() implies (window_index_of(ws, (#[trigger] recs[i]).id) is Some
        <==> window_ids(ws).contains(recs[i].id)) by {
        lemma_window_index_iff_member(ws, recs[i].id);
    }
    if recs.len() == 0 {
        assert(record_ids(recs).intersect(window_ids(ws)) =~= Set::<u32>::empty());
    } else {
        let prev = recs.drop_last();
        let x = recs.last().id;
        assert(forall|i: int, j: int|
            0 <= i < j < prev.len() ==> (#[trigger] prev[i]).id != (#[trigger] prev[j]).id);
        lemma_join_correctness(prev, ws);
        lemma_record_ids_finite(prev);
        lemma_window_index_iff_member(ws, x);
        lemma_record_ids_member(prev, x);
        assert(!record_ids(prev).contains(x)) by {
            if record_ids(prev).contains(x) {
                let i = choose|i: int| 0 <= i < prev.len() && (#[trigger] prev[i]).id == x;
                assert(recs[i].id == recs[recs.len() - 1].id);
            }
        }
        let pw = record_ids(prev).intersect(window_ids(ws));
        assert(pw.finite());
        if window_ids(ws).contains(x) {
            assert(record_ids(recs).intersect(window_ids(ws)) =~= pw.insert(x));
            assert(!pw.contains(x));
            assert(pw.insert(x).len() == pw.len() + 1);
        } else {
            assert(record_ids(recs).intersect(window_ids(ws)) =~= pw);
        }
    }
}

} // verus!
