//! Target enumeration: partitioning the capture engine's target list into
//! stably-indexed display and window lists, and resolving a user-facing
//! index back to a target.
//!
//! Indices are assigned in engine order, independently per kind, so they are
//! dense: within one enumeration snapshot the display indices are exactly
//! `0 .. display_count` and the window indices exactly `0 .. window_count`.
//! An index is only valid for the snapshot it was computed from.

use vstd::prelude::*;
use crate::text::dec_digits;
use crate::text::u64_to_string;

verus! {

/// The two kinds of capturable target.
#[derive(Clone, Copy, Debug, PartialEq, Eq, Structural)]
pub enum TargetKind {
    Display,
    Window,
}

/// A capturable on-screen surface as the capture engine reports it.
/// Identity is the platform id, not the list position.
#[derive(Debug)]
pub enum CaptureTarget {
    Display { id: u32, title: String },
    Window { id: u32, title: String },
}

/// The mathematical content of a target: its kind, platform id and title.
pub struct TargetView {
    pub kind: TargetKind,
    pub id: u32,
    pub title: Seq<char>,
}

impl View for CaptureTarget {
    type V = TargetView;

    open spec fn view(&self) -> TargetView {
        match self {
            CaptureTarget::Display { id, title } => TargetView {
                kind: TargetKind::Display,
                id: *id,
                title: title@,
            },
            CaptureTarget::Window { id, title } => TargetView {
                kind: TargetKind::Window,
                id: *id,
                title: title@,
            },
        }
    }
}

impl CaptureTarget {
    /// The target's kind.
    pub fn kind(&self) -> (k: TargetKind)
        ensures
            k == self@.kind,
    {
        match self {
            CaptureTarget::Display { .. } => TargetKind::Display,
            CaptureTarget::Window { .. } => TargetKind::Window,
        }
    }

    /// The platform identifier.
    pub fn id(&self) -> (id: u32)
        ensures
            id == self@.id,
    {
        match self {
            CaptureTarget::Display { id, .. } => *id,
            CaptureTarget::Window { id, .. } => *id,
        }
    }

    /// The title the engine reports.
    pub fn title(&self) -> (r: &String)
        ensures
            r@ == self@.title,
    {
        match self {
            CaptureTarget::Display { title, .. } => title,
            CaptureTarget::Window { title, .. } => title,
        }
    }

    /// A copy with the same mathematical content.
    pub fn duplicate(&self) -> (r: Self)
        ensures
            r@ == self@,
    {
        match self {
            CaptureTarget::Display { id, title } => CaptureTarget::Display {
                id: *id,
                title: title.clone(),
            },
            CaptureTarget::Window { id, title } => CaptureTarget::Window {
                id: *id,
                title: title.clone(),
            },
        }
    }
}

/// A target together with the zero-based index assigned to it by one
/// enumeration snapshot, counted within its own kind.
#[derive(Debug)]
pub struct IndexedTarget {
    pub index: usize,
    pub target: CaptureTarget,
}

/// The views of a target sequence.
pub open spec fn views(s: Seq<CaptureTarget>) -> Seq<TargetView> {
    s.map_values(|t: CaptureTarget| t@)
}

/// The subsequence of targets of one kind, in order.
pub open spec fn filter_kind(s: Seq<TargetView>, k: TargetKind) -> Seq<TargetView>
    decreases s.len(),
{
    if s.len() == 0 {
        Seq::<TargetView>::empty()
    } else {
        let prev = filter_kind(s.drop_last(), k);
        if s.last().kind == k {
            prev.push(s.last())
        } else {
            prev
        }
    }
}

/// How many targets of kind `k` stand before position `i`: the index that
/// enumeration assigns to position `i` when `s[i]` has kind `k`.
pub open spec fn kind_index(s: Seq<TargetView>, k: TargetKind, i: int) -> int {
    filter_kind(s.take(i), k).len() as int
}

/// Extending the scanned prefix by one position extends its kind-filter by
/// exactly the new element, when that element has the kind.
pub proof fn lemma_filter_take_step(s: Seq<TargetView>, k: TargetKind, i: int)
    requires
        0 <= i < s.len(),
    ensures
        filter_kind(s.take(i + 1), k) == if s[i].kind == k {
            filter_kind(s.take(i), k).push(s[i])
        } else {
            filter_kind(s.take(i), k)
        },
{
    assert(s.take(i + 1).drop_last() =~= s.take(i));
    assert(s.take(i + 1).last() == s[i]);
}

/// The kind-filter never grows past the sequence itself.
pub proof fn lemma_filter_len(s: Seq<TargetView>, k: TargetKind)
    ensures
        filter_kind(s, k).len() <= s.len(),
    decreases s.len(),
{
    if s.len() > 0 {
        lemma_filter_len(s.drop_last(), k);
    }
}

/// The kind-filter of a prefix is a prefix of the whole kind-filter.
pub proof fn lemma_filter_take_prefix(s: Seq<TargetView>, k: TargetKind, i: int)
    requires
        0 <= i <= s.len(),
    ensures
        filter_kind(s.take(i), k).is_prefix_of(filter_kind(s, k)),
    decreases s.len() - i,
{
    if i == s.len() {
        assert(s.take(i) =~= s);
    } else {
        lemma_filter_take_step(s, k, i);
        lemma_filter_take_prefix(s, k, i + 1);
    }
}

/// Assign each target its index within its own kind, preserving engine order.
///
/// The result pairs every input target, unchanged and in place, with the
/// number of same-kind targets that precede it.
pub fn enumerate(targets: &Vec<CaptureTarget>) -> (r: Vec<IndexedTarget>)
    ensures
        r@.len() == targets@.len(),
        forall|i: int|
            0 <= i < r@.len() ==> (#[trigger] r@[i]).target@ == targets@[i]@ && r@[i].index
                == kind_index(views(targets@), targets@[i]@.kind, i),
{
    let ghost vs = views(targets@);
    let mut r: Vec<IndexedTarget> = Vec::new();
    let mut displays: usize = 0;
    let mut windows: usize = 0;
    let mut i: usize = 0;
    while i < targets.len()
        invariant
            vs == views(targets@),
            vs.len() == targets@.len(),
            forall|j: int| 0 <= j < vs.len() ==> vs[j] == targets@[j]@,
            i <= targets@.len(),
            r@.len() == i,
            displays == kind_index(vs, TargetKind::Display, i as int),
            windows == kind_index(vs, TargetKind::Window, i as int),
            forall|j: int|
                0 <= j < i ==> (#[trigger] r@[j]).target@ == targets@[j]@ && r@[j].index
                    == kind_index(vs, targets@[j]@.kind, j),
        decreases targets@.len() - i,
    {
        proof {
            lemma_filter_take_step(vs, TargetKind::Display, i as int);
            lemma_filter_take_step(vs, TargetKind::Window, i as int);
            lemma_filter_take_prefix(vs, TargetKind::Display, i as int + 1);
            lemma_filter_take_prefix(vs, TargetKind::Window, i as int + 1);
            lemma_filter_len(vs, TargetKind::Display);
            lemma_filter_len(vs, TargetKind::Window);
        }
        let t = &targets[i];
        match t.kind() {
            TargetKind::Display => {
                r.push(IndexedTarget { index: displays, target: t.duplicate() });
                displays = displays + 1;
            },
            TargetKind::Window => {
                r.push(IndexedTarget { index: windows, target: t.duplicate() });
                windows = windows + 1;
            },
        }
        i = i + 1;
    }
    r
}

/// How many targets of the given kind the snapshot holds.
pub fn count_of_kind(targets: &Vec<CaptureTarget>, kind: TargetKind) -> (n: usize)
    ensures
        n == filter_kind(views(targets@), kind).len(),
{
    let ghost vs = views(targets@);
    let mut n: usize = 0;
    let mut i: usize = 0;
    while i < targets.len()
        invariant
            vs == views(targets@),
            vs.len() == targets@.len(),
            forall|j: int| 0 <= j < vs.len() ==> vs[j] == targets@[j]@,
            i <= targets@.len(),
            n == kind_index(vs, kind, i as int),
        decreases targets@.len() - i,
    {
        proof {
            lemma_filter_take_step(vs, kind, i as int);
            lemma_filter_len(vs, kind);
            lemma_filter_take_prefix(vs, kind, i as int + 1);
        }
        if matches!(targets[i].kind(), TargetKind::Display) == matches!(kind, TargetKind::Display) {
            n = n + 1;
        }
        i = i + 1;
    }
    proof {
        assert(vs.take(vs.len() as int) =~= vs);
    }
    n
}

/// Why an index could not be resolved.
#[derive(Clone, Copy, Debug, PartialEq, Eq, Structural)]
pub enum ResolveError {
    /// The requested index is at or past the number of targets of that kind;
    /// the count is reported so the caller can print the valid range.
    IndexOutOfRange { requested: usize, available: usize },
}

/// The `0-N` range text shown to the user when an index is out of range:
/// `N` is one less than the available count, clamped at zero.
pub open spec fn range_hint_text(available: int) -> Seq<char> {
    "0-"@ + dec_digits(
        if available > 0 {
            available - 1
        } else {
            0
        },
    )
}

impl ResolveError {
    /// The valid range to suggest in the user message.
    pub fn range_hint(&self) -> (r: String)
        ensures
            match self {
                ResolveError::IndexOutOfRange { requested: _, available } => r@ == range_hint_text(
                    *available as int,
                ),
            },
    {
        match self {
            ResolveError::IndexOutOfRange { requested: _, available } => {
                let top: usize = if *available > 0 {
                    *available - 1
                } else {
                    0
                };
                String::from_str("0-").concat(u64_to_string(top as u64).as_str())
            },
        }
    }
}

/// Resolve a user-facing index into the target it denotes.
///
/// Succeeds exactly when the index is below the count of that kind, and then
/// returns the index-th target of the kind in engine order; otherwise the
/// error carries the requested index and the count, never a clamped value.
pub fn resolve(targets: &Vec<CaptureTarget>, kind: TargetKind, index: usize) -> (r: Result<
    CaptureTarget,
    ResolveError,
>)
    ensures
        ({
            let of_kind = filter_kind(views(targets@), kind);
            &&& (index < of_kind.len() <==> r is Ok)
            &&& (r matches Ok(t) ==> t@ == of_kind[index as int])
            &&& (r matches Err(e) ==> e == ResolveError::IndexOutOfRange {
                requested: index,
                available: of_kind.len() as usize,
            })
        }),
{
    let ghost vs = views(targets@);
    let ghost of_kind = filter_kind(vs, kind);
    proof {
        lemma_filter_len(vs, kind);
    }
    let mut c: usize = 0;
    let mut i: usize = 0;
    while i < targets.len()
        invariant
            vs == views(targets@),
            vs.len() == targets@.len(),
            forall|j: int| 0 <= j < vs.len() ==> vs[j] == targets@[j]@,
            of_kind == filter_kind(vs, kind),
            of_kind.len() <= vs.len(),
            i <= targets@.len(),
            c <= index,
            c == kind_index(vs, kind, i as int),
        decreases targets@.len() - i,
    {
        proof {
            lemma_filter_take_step(vs, kind, i as int);
            lemma_filter_take_prefix(vs, kind, i as int + 1);
        }
        let t = &targets[i];
        let same_kind = matches!(t.kind(), TargetKind::Display) == matches!(
            kind,
            TargetKind::Display,
        );
        if same_kind {
            if c == index {
                assert(filter_kind(vs.take(i as int + 1), kind)[index as int] == vs[i as int]);
                assert(of_kind[index as int] == vs[i as int]);
                return Ok(t.duplicate());
            }
            c = c + 1;
        }
        i = i + 1;
    }
    proof {
        assert(vs.take(vs.len() as int) =~= vs);
    }
    Err(ResolveError::IndexOutOfRange { requested: index, available: c })
}

/// Some position of kind `k` is assigned the index value `n`.
pub open spec fn index_assigned(s: Seq<TargetView>, k: TargetKind, n: int) -> bool {
    exists|i: int| 0 <= i < s.len() && s[i].kind == k && #[trigger] kind_index(s, k, i) == n
}

/// The heading line of one screen in the listing.
pub open spec fn screen_heading_text(index: int, id: int) -> Seq<char> {
    "Screen "@ + dec_digits(index) + ": Display ID "@ + dec_digits(id)
}

/// The title line of one screen in the listing.
pub open spec fn screen_title_text(title: Seq<char>) -> Seq<char> {
    "          Title: "@ + title
}

/// The listing lines for the displays of one snapshot: for the `j`-th
/// display (in engine order) a heading with its index and platform id, a
/// title line, and a blank separator. Windows are skipped.
pub fn screen_listing_lines(targets: &Vec<CaptureTarget>) -> (lines: Vec<String>)
    ensures
        ({
            let ds = filter_kind(views(targets@), TargetKind::Display);
            &&& lines@.len() == 3 * ds.len()
            &&& forall|j: int|
                0 <= j < ds.len() ==> {
                    &&& lines@[3 * j]@ == screen_heading_text(j, (#[trigger] ds[j]).id as int)
                    &&& lines@[3 * j + 1]@ == screen_title_text(ds[j].title)
                    &&& lines@[3 * j + 2]@ == Seq::<char>::empty()
                }
        }),
{
    let ghost vs = views(targets@);
    let ghost ds = filter_kind(vs, TargetKind::Display);
    let mut lines: Vec<String> = Vec::new();
    let mut d: usize = 0;
    let mut i: usize = 0;
    while i < targets.len()
        invariant
            vs == views(targets@),
            vs.len() == targets@.len(),
            forall|j: int| 0 <= j < vs.len() ==> vs[j] == targets@[j]@,
            ds == filter_kind(vs, TargetKind::Display),
            i <= targets@.len(),
            d == kind_index(vs, TargetKind::Display, i as int),
            d <= ds.len(),
            lines@.len() == 3 * d,
            forall|j: int|
                0 <= j < d ==> {
                    &&& lines@[3 * j]@ == screen_heading_text(j, (#[trigger] ds[j]).id as int)
                    &&& lines@[3 * j + 1]@ == screen_title_text(ds[j].title)
                    &&& lines@[3 * j + 2]@ == Seq::<char>::empty()
                },
        decreases targets@.len() - i,
    {
        proof {
            lemma_filter_take_step(vs, TargetKind::Display, i as int);
            lemma_filter_take_prefix(vs, TargetKind::Display, i as int + 1);
            lemma_filter_len(vs, TargetKind::Display);
        }
        let t = &targets[i];
        if matches!(t.kind(), TargetKind::Display) {
            proof {
                let taken = filter_kind(vs.take(i as int + 1), TargetKind::Display);
                assert(taken[d as int] == vs[i as int]);
                assert(ds[d as int] == vs[i as int]);
            }
            let heading = String::from_str("Screen ").concat(u64_to_string(d as u64).as_str())
                .concat(": Display ID ").concat(u64_to_string(t.id() as u64).as_str());
            let title_line = String::from_str("          Title: ").concat(t.title().as_str());
            lines.push(heading);
            lines.push(title_line);
            lines.push(String::new());
            d = d + 1;
        }
        i = i + 1;
    }
    proof {
        assert(vs.take(vs.len() as int) =~= vs);
    }
    lines
}

/// One window's line in the listing.
pub open spec fn window_line_text(index: int, id: int, title: Seq<char>) -> Seq<char> {
    "Window "@ + dec_digits(index) + ": ID "@ + dec_digits(id) + ", Title: "@ + title
}

/// The listing lines for the windows of one snapshot: one line per window,
/// in engine order, with its index, platform id and title. Displays are
/// skipped.
pub fn window_listing_lines(targets: &Vec<CaptureTarget>) -> (lines: Vec<String>)
    ensures
        ({
            let ws = filter_kind(views(targets@), TargetKind::Window);
            &&& lines@.len() == ws.len()
            &&& forall|j: int|
                0 <= j < ws.len() ==> lines@[j]@ == window_line_text(
                    j,
                    (#[trigger] ws[j]).id as int,
                    ws[j].title,
                )
        }),
{
    let ghost vs = views(targets@);
    let ghost ws = filter_kind(vs, TargetKind::Window);
    let mut lines: Vec<String> = Vec::new();
    let mut i: usize = 0;
    while i < targets.len()
        invariant
            vs == views(targets@),
            vs.len() == targets@.len(),
            forall|j: int| 0 <= j < vs.len() ==> vs[j] == targets@[j]@,
            ws == filter_kind(vs, TargetKind::Window),
            i <= targets@.len(),
            lines@.len() == kind_index(vs, TargetKind::Window, i as int),
            lines@.len() <= ws.len(),
            forall|j: int|
                0 <= j < lines@.len() ==> lines@[j]@ == window_line_text(
                    j,
                    (#[trigger] ws[j]).id as int,
                    ws[j].title,
                ),
        decreases targets@.len() - i,
    {
        proof {
            lemma_filter_take_step(vs, TargetKind::Window, i as int);
            lemma_filter_take_prefix(vs, TargetKind::Window, i as int + 1);
            lemma_filter_len(vs, TargetKind::Window);
        }
        let t = &targets[i];
        if matches!(t.kind(), TargetKind::Window) {
            let w = lines.len();
            proof {
                let taken = filter_kind(vs.take(i as int + 1), TargetKind::Window);
                assert(taken[w as int] == vs[i as int]);
                assert(ws[w as int] == vs[i as int]);
            }
            let line = String::from_str("Window ").concat(u64_to_string(w as u64).as_str())
                .concat(": ID ").concat(u64_to_string(t.id() as u64).as_str()).concat(", Title: ")
                .concat(t.title().as_str());
            lines.push(line);
        }
        i = i + 1;
    }
    proof {
        assert(vs.take(vs.len() as int) =~= vs);
    }
    lines
}

/// Law: index density. Within one enumeration snapshot and one kind, the
/// assigned indices are exactly `{0, …, count-1}`: every position of the
/// kind receives an index below the kind's count, positions of the kind in
/// list order receive strictly increasing indices, and every value below the
/// count is received by some position of the kind — for any interleaving of
/// kinds in the engine's list.
pub proof fn lemma_enumeration_dense(s: Seq<TargetView>, k: TargetKind)
    ensures
        forall|i: int|
            0 <= i < s.len() && s[i].kind == k ==> 0 <= #[trigger] kind_index(s, k, i)
                < filter_kind(s, k).len(),
        forall|i: int, j: int|
            0 <= i < j < s.len() && s[i].kind == k && s[j].kind == k ==> #[trigger] kind_index(
                s,
                k,
                i,
            ) < #[trigger] kind_index(s, k, j),
        forall|n: int| 0 <= n < filter_kind(s, k).len() ==> #[trigger] index_assigned(s, k, n),
    decreases s.len(),
{
    assert forall|i: int| 0 <= i < s.len() && s[i].kind == k implies 0 <= #[trigger] kind_index(
        s,
        k,
        i,
    ) < filter_kind(s, k).len() by {
        lemma_filter_take_step(s, k, i);
        lemma_filter_take_prefix(s, k, i + 1);
    }
    assert forall|i: int, j: int|
        0 <= i < j < s.len() && s[i].kind == k && s[j].kind == k implies #[trigger] kind_index(
        s,
        k,
        i,
    ) < #[trigger] kind_index(s, k, j) by {
        lemma_filter_take_step(s, k, i);
        lemma_kind_index_monotone(s, k, i + 1, j);
    }
    if s.len() > 0 {
        let prev = s.drop_last();
        lemma_enumeration_dense(prev, k);
        assert forall|n: int| 0 <= n < filter_kind(s, k).len() implies #[trigger] index_assigned(
            s,
            k,
            n,
        ) by {
            if n < filter_kind(prev, k).len() {
                assert(index_assigned(prev, k, n));
                let i = choose|i: int|
                    0 <= i < prev.len() && prev[i].kind == k && #[trigger] kind_index(prev, k, i)
                        == n;
                assert(s.take(i) =~= prev.take(i));
                assert(s[i] == prev[i]);
                assert(kind_index(s, k, i) == n);
            } else {
                // the only remaining value is taken by the last element
                assert(filter_kind(s, k).len() as int == if s.last().kind == k {
                    filter_kind(prev, k).len() as int + 1
                } else {
                    filter_kind(prev, k).len() as int
                });
                let i = s.len() - 1;
                assert(s.take(i) =~= prev);
                assert(s[i].kind == k);
                assert(kind_index(s, k, i) == n);
            }
        }
    }
}

/// The index counter never decreases along the list.
proof fn lemma_kind_index_monotone(s: Seq<TargetView>, k: TargetKind, i: int, j: int)
    requires
        0 <= i <= j <= s.len(),
    ensures
        kind_index(s, k, i) <= kind_index(s, k, j),
    decreases j - i,
{
    if i < j {
        lemma_filter_take_step(s, k, i);
        lemma_kind_index_monotone(s, k, i + 1, j);
    }
}

} // verus!
