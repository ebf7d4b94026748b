//! The dot row: one position indicator per roster slot, grouped into the
//! three squad-role clusters (Active, Bench, Reserve) with a role label
//! centered beneath each cluster.

use vstd::prelude::*;

use crate::geometry::{max_int, min_int, rect_new, sat_sub, Rect};

verus! {

/// Slots in the Active, Bench and Reserve clusters, in roster order.
pub const ACTIVE_SLOTS: usize = 3;
pub const BENCH_SLOTS: usize = 1;
pub const RESERVE_SLOTS: usize = 2;
/// Slots in the whole dot row.
pub const ROSTER_SIZE: usize = 6;
/// Number of role clusters.
pub const CLUSTER_COUNT: usize = 3;
/// Width, in cells, of one dot slot.
pub const SLOT_W: u16 = 2;
/// Columns between adjacent clusters.
pub const CLUSTER_GAP: u16 = 5;

/// A roster slot's squad role.
#[derive(Clone, Copy, Debug, PartialEq, Eq, Structural)]
pub enum SquadRole {
    Active,
    Bench,
    Reserve,
}

pub open spec fn squad_role_spec(i: int) -> SquadRole {
    if i < ACTIVE_SLOTS { SquadRole::Active }
    else if i < ACTIVE_SLOTS + BENCH_SLOTS { SquadRole::Bench }
    else { SquadRole::Reserve }
}

/// The role of roster slot `i`: the first `ACTIVE_SLOTS` are active, the
/// next `BENCH_SLOTS` on the bench, the rest in reserve. A role belongs to
/// the slot, not to the creature in it.
pub fn squad_role(i: usize) -> (r: SquadRole)
    ensures
        r == squad_role_spec(i as int),
{
    if i < ACTIVE_SLOTS { SquadRole::Active }
    else if i < ACTIVE_SLOTS + BENCH_SLOTS { SquadRole::Bench }
    else { SquadRole::Reserve }
}

/// The slot with index `cluster_start(c) + k` (for `k` below the cluster's
/// slot count) has cluster `c`'s role: the dot row's clusters and the squad
/// roles agree.
pub proof fn lemma_cluster_roles(c: int, k: int)
    requires
        0 <= c < CLUSTER_COUNT,
        0 <= k < cluster_slots_spec(c),
    ensures
        squad_role_spec(cluster_start(c) + k) == (if c == 0 {
            SquadRole::Active
        } else if c == 1 {
            SquadRole::Bench
        } else {
            SquadRole::Reserve
        }),
{
}

pub open spec fn cluster_slots_spec(i: int) -> int {
    if i == 0 { ACTIVE_SLOTS as int } else if i == 1 { BENCH_SLOTS as int } else { RESERVE_SLOTS as int }
}

pub open spec fn cluster_label_spec(i: int) -> Seq<char> {
    if i == 0 {
        seq!['A', 'c', 't', 'i', 'v', 'e']
    } else if i == 1 {
        seq!['B', 'e', 'n', 'c', 'h']
    } else {
        seq!['R', 'e', 's', 'e', 'r', 'v', 'e']
    }
}

/// The first roster index of cluster `i`.
pub open spec fn cluster_start(i: int) -> int {
    if i == 0 { 0 } else if i == 1 { ACTIVE_SLOTS as int } else { (ACTIVE_SLOTS + BENCH_SLOTS) as int }
}

/// The clusters' slots together make up the whole roster.
pub proof fn lemma_clusters_cover_roster()
    ensures
        cluster_slots_spec(0) + cluster_slots_spec(1) + cluster_slots_spec(2) == ROSTER_SIZE,
        cluster_start(1) == cluster_start(0) + cluster_slots_spec(0),
        cluster_start(2) == cluster_start(1) + cluster_slots_spec(1),
{
}

/// Number of slots in cluster `i`.
pub fn cluster_slots(i: usize) -> (n: usize)
    requires
        i < CLUSTER_COUNT,
    ensures
        n == cluster_slots_spec(i as int),
{
    if i == 0 { ACTIVE_SLOTS } else if i == 1 { BENCH_SLOTS } else { RESERVE_SLOTS }
}

/// The role label under cluster `i`.
pub fn cluster_label(i: usize) -> (s: &'static str)
    requires
        i < CLUSTER_COUNT,
    ensures
        s@ == cluster_label_spec(i as int),
{
    if i == 0 {
        proof { reveal_strlit("Active"); }
        "Active"
    } else if i == 1 {
        proof { reveal_strlit("Bench"); }
        "Bench"
    } else {
        proof { reveal_strlit("Reserve"); }
        "Reserve"
    }
}

/// Width, in cells, of cluster `i`'s label.
pub fn cluster_label_width(i: usize) -> (w: u16)
    requires
        i < CLUSTER_COUNT,
    ensures
        w == cluster_label_spec(i as int).len(),
{
    if i == 0 { 6 } else if i == 1 { 5 } else { 7 }
}

/// Total width of the cluster group: every slot plus the gaps between
/// clusters.
pub open spec fn cluster_group_width() -> int {
    (ROSTER_SIZE as int) * (SLOT_W as int) + (CLUSTER_GAP as int) * (CLUSTER_COUNT as int - 1)
}

/// The column at which a label `label_w` cells wide starts when centered
/// under `cluster`.
pub open spec fn label_left_spec(cluster: Rect, label_w: int) -> int {
    sat_sub(cluster.x + cluster.width / 2, label_w / 2)
}

pub open spec fn cluster_label_rect_spec(cluster: Rect, label_w: int, label_band: Rect, row: Rect) -> Rect {
    rect_new(label_left_spec(cluster, label_w), label_band.y as int, label_w, label_band.height as int)
        .intersection_spec(row)
}

/// Where a cluster's role label is drawn: `label_w` cells centered under
/// the cluster, in the label band, clipped to the dot row.
pub fn cluster_label_rect(cluster: Rect, label_w: u16, label_band: Rect, row: Rect) -> (r: Rect)
    requires
        cluster.x + cluster.width / 2 <= u16::MAX,
    ensures
        r == cluster_label_rect_spec(cluster, label_w as int, label_band, row),
{
    let center_x = cluster.x + cluster.width / 2;
    Rect::new(center_x.saturating_sub(label_w / 2), label_band.y, label_w, label_band.height).intersection(row)
}

/// A label rect never leaves the dot row.
pub proof fn lemma_label_rect_inside_row(cluster: Rect, label_w: int, label_band: Rect, row: Rect)
    requires
        0 <= label_w <= u16::MAX,
        row.wf(),
    ensures
        ({
            let r = cluster_label_rect_spec(cluster, label_w, label_band, row);
            r.width > 0 && r.height > 0 ==> row.encloses(r)
        }),
{
}

/// The column span `(left, right)` the first `k` clusters and their
/// centered labels cover, starting from the empty span
/// `(band_right, band_left)`.
pub open spec fn group_bounds_spec(band: Rect, clusters: Seq<Rect>, k: int) -> (int, int)
    decreases k,
{
    if k <= 0 {
        (band.right_spec(), band.x as int)
    } else {
        let (l, r) = group_bounds_spec(band, clusters, k - 1);
        let c = clusters[k - 1];
        let lw = cluster_label_spec(k - 1).len() as int;
        let ll = label_left_spec(c, lw);
        (min_int(min_int(l, c.x as int), ll), max_int(max_int(r, c.right_spec()), ll + lw))
    }
}

/// Whether cluster `c` and a label `lw` wide centered under it stay
/// addressable.
pub open spec fn label_span_fits(c: Rect, lw: int) -> bool {
    &&& c.x + c.width / 2 <= u16::MAX
    &&& label_left_spec(c, lw) + lw <= u16::MAX
}

/// The visual column bounds of the cluster group within the dot row: the
/// union of the clusters and the (wider) labels centered under them. The
/// arrow buttons flank this span.
pub fn cluster_group_bounds(band: Rect, clusters: &[Rect]) -> (r: (u16, u16))
    requires
        forall|i: int| 0 <= i < clusters@.len() && i < CLUSTER_COUNT
            ==> label_span_fits(#[trigger] clusters@[i], cluster_label_spec(i).len() as int),
    ensures
        r.0 == group_bounds_spec(band, clusters@, min_int(clusters@.len() as int, CLUSTER_COUNT as int)).0,
        r.1 == group_bounds_spec(band, clusters@, min_int(clusters@.len() as int, CLUSTER_COUNT as int)).1,
{
    let mut left = band.right();
    let mut right = band.left();
    let n = if clusters.len() < CLUSTER_COUNT { clusters.len() } else { CLUSTER_COUNT };
    let mut i: usize = 0;
    while i < n
        invariant
            n == min_int(clusters@.len() as int, CLUSTER_COUNT as int),
            i <= n,
            left == group_bounds_spec(band, clusters@, i as int).0,
            right == group_bounds_spec(band, clusters@, i as int).1,
            forall|j: int| 0 <= j < clusters@.len() && j < CLUSTER_COUNT
                ==> label_span_fits(#[trigger] clusters@[j], cluster_label_spec(j).len() as int),
        decreases n - i,
    {
        let cluster = clusters[i];
        let label_w = cluster_label_width(i);
        assert(label_span_fits(clusters@[i as int], cluster_label_spec(i as int).len() as int));
        let center_x = cluster.x + cluster.width / 2;
        let label_left = center_x.saturating_sub(label_w / 2);
        let label_right = label_left + label_w;
        let cl = cluster.left();
        let cr = cluster.right();
        if cl < left { left = cl; }
        if label_left < left { left = label_left; }
        if cr > right { right = cr; }
        if label_right > right { right = label_right; }
        i = i + 1;
    }
    (left, right)
}

/// The group bounds cover every cluster and every label considered.
pub proof fn lemma_group_bounds_cover(band: Rect, clusters: Seq<Rect>, k: int, j: int)
    requires
        0 <= j < k <= clusters.len(),
        k <= CLUSTER_COUNT,
    ensures
        ({
            let (l, r) = group_bounds_spec(band, clusters, k);
            let c = clusters[j];
            let lw = cluster_label_spec(j).len() as int;
            &&& l <= c.x && c.right_spec() <= r
            &&& l <= label_left_spec(c, lw) && label_left_spec(c, lw) + lw <= r
        }),
    decreases k,
{
    if j < k - 1 {
        lemma_group_bounds_cover(band, clusters, k - 1, j);
    }
}

pub open spec fn cluster_slot_w_spec(cluster: Rect) -> int {
    min_int(SLOT_W as int, max_int(cluster.width as int, 1))
}

/// The slot rects of one cluster: `count` slots, each `SLOT_W` cells wide
/// (narrower only if the cluster itself is), side by side from the
/// cluster's left edge.
pub fn cluster_slot_rects(cluster: Rect, count: usize) -> (r: Vec<Rect>)
    requires
        cluster.x + count * cluster_slot_w_spec(cluster) <= u16::MAX,
    ensures
        r@.len() == count,
        forall|i: int| 0 <= i < count ==> #[trigger] r@[i] == rect_new(
            cluster.x + i * cluster_slot_w_spec(cluster),
            cluster.y as int,
            cluster_slot_w_spec(cluster),
            cluster.height as int,
        ),
{
    let wmin = if cluster.width >= 1 { cluster.width } else { 1 };
    let slot_w = if SLOT_W <= wmin { SLOT_W } else { wmin };
    let mut slots: Vec<Rect> = Vec::new();
    let mut i: usize = 0;
    while i < count
        invariant
            i <= count,
            slot_w == cluster_slot_w_spec(cluster),
            cluster.x + count * cluster_slot_w_spec(cluster) <= u16::MAX,
            slots@.len() == i,
            forall|j: int| 0 <= j < i ==> #[trigger] slots@[j] == rect_new(
                cluster.x + j * cluster_slot_w_spec(cluster),
                cluster.y as int,
                cluster_slot_w_spec(cluster),
                cluster.height as int,
            ),
        decreases count - i,
    {
        assert(cluster.x + i * slot_w <= cluster.x + count * slot_w) by (nonlinear_arith)
            requires i <= count, slot_w >= 0;
        assert(i <= u16::MAX) by (nonlinear_arith)
            requires i < count, slot_w >= 1, count * slot_w <= u16::MAX;
        let x = cluster.x + (i as u16) * slot_w;
        slots.push(Rect::new(x, cluster.y, slot_w, cluster.height));
        i = i + 1;
    }
    slots
}

/// The offset, inside a slot, at which an aspect-fitted indicator `fc`
/// cells wide and `fr` cells tall is drawn: centered by whole cells
/// horizontally (in dots: even), and centered at dot precision vertically.
pub fn dot_slot_offsets(slot: Rect, fc: u16, fr: usize) -> (r: (usize, usize))
    requires
        fr * 4 <= usize::MAX,
    ensures
        r.0 == sat_sub(slot.width as int, fc as int) / 2 * 2,
        r.1 == sat_sub(slot.height as int * 4, fr as int * 4) / 2,
{
    let slot_dr = slot.height as usize * 4;
    let off_x = (slot.width.saturating_sub(fc) / 2) as usize * 2;
    let off_y = slot_dr.saturating_sub(fr * 4) / 2;
    (off_x, off_y)
}

} // verus!
