use roster_manager::dot_row::{
    cluster_group_bounds, cluster_label, cluster_label_rect, cluster_label_width, cluster_slot_rects,
    cluster_slots, dot_slot_offsets, squad_role, SquadRole, ACTIVE_SLOTS, BENCH_SLOTS, CLUSTER_COUNT,
    CLUSTER_GAP, RESERVE_SLOTS, ROSTER_SIZE, SLOT_W,
};
use roster_manager::stats::{
    stat_kind_at, stat_label, stat_slice_parts, stat_slice_width, StatKind, STAT_BAR_DETAILS_MARGIN,
    STAT_BAR_GAP, STAT_BAR_LEFT_MARGIN, STAT_COUNT,
};
use roster_manager::Rect;

#[test]
fn stats_are_labelled_in_display_order() {
    let labels: Vec<&str> = (0..STAT_COUNT as usize).map(|i| stat_label(stat_kind_at(i))).collect();
    assert_eq!(labels, vec!["STR", "DEX", "INT", "VIT"]);
    assert_eq!(stat_kind_at(3), StatKind::Vitality);
}

#[test]
fn slices_leave_the_margins_and_gaps() {
    assert_eq!(stat_slice_width(53), 11);
    assert_eq!(stat_slice_width(26), 4);
    assert_eq!(stat_slice_width(9), 0);
    assert_eq!(stat_slice_width(3), 0);
    assert_eq!(stat_slice_width(0), 0);
    for w in [13u16, 26, 40, 53, 80] {
        let s = stat_slice_width(w);
        assert!(
            STAT_BAR_LEFT_MARGIN + s * STAT_COUNT + STAT_BAR_GAP * (STAT_COUNT - 1) + STAT_BAR_DETAILS_MARGIN <= w,
            "band {w}"
        );
    }
}

#[test]
fn slices_on_a_53_wide_bar() {
    let slices = stat_slice_parts(Rect::new(0, 5, 53, 3));
    let xs: Vec<u16> = slices.iter().map(|(o, _, _)| o.x).collect();
    assert_eq!(xs, vec![2, 14, 26, 38]);
    for (o, f, l) in &slices {
        assert_eq!((o.width, o.y, o.height), (11, 5, 2));
        assert_eq!((l.x, l.width, l.y, l.height), (o.x, o.width, o.bottom(), 1));
        assert_eq!(*f, Rect::new(o.x + 1, o.y + 1, o.width - 2, 0));
    }
    assert_eq!(slices[3].0.right(), 53 - STAT_BAR_DETAILS_MARGIN);
}

#[test]
fn slices_in_a_tall_or_tiny_band() {
    let (outline, fill, label) = stat_slice_parts(Rect::new(0, 0, 26, 5))[1];
    assert_eq!(outline, Rect::new(7, 0, 4, 2));
    assert_eq!(fill, Rect::new(8, 1, 2, 0));
    assert_eq!(label, Rect::new(7, 2, 4, 1));
    let tiny = stat_slice_parts(Rect::new(3, 3, 4, 1));
    assert_eq!(tiny[0].0, Rect::new(5, 3, 0, 1));
    assert_eq!(tiny[3].2.height, 0);
}

#[test]
fn squad_roles_follow_the_slot_constants() {
    let roles: Vec<SquadRole> = (0..ROSTER_SIZE).map(squad_role).collect();
    assert_eq!(
        roles,
        vec![
            SquadRole::Active,
            SquadRole::Active,
            SquadRole::Active,
            SquadRole::Bench,
            SquadRole::Reserve,
            SquadRole::Reserve
        ]
    );
    assert_eq!(ACTIVE_SLOTS + BENCH_SLOTS + RESERVE_SLOTS, ROSTER_SIZE);
    let total: usize = (0..CLUSTER_COUNT).map(cluster_slots).sum();
    assert_eq!(total, ROSTER_SIZE);
}

#[test]
fn cluster_labels_and_widths_agree() {
    for i in 0..CLUSTER_COUNT {
        assert_eq!(cluster_label(i).chars().count(), cluster_label_width(i) as usize);
    }
    assert_eq!([cluster_label(0), cluster_label(1), cluster_label(2)], ["Active", "Bench", "Reserve"]);
}

#[test]
fn cluster_gap_is_five() {
    assert_eq!(CLUSTER_GAP, 5);
}

#[test]
fn cluster_label_is_centered_and_clipped_to_the_row() {
    let row = Rect::new(0, 27, 40, 3);
    let label_band = Rect::new(0, 29, 40, 1);
    let cluster = Rect::new(10, 27, 6, 2);
    assert_eq!(cluster_label_rect(cluster, 6, label_band, row), Rect::new(10, 29, 6, 1));
    // a label wider than the room left of the cluster's centre starts at 0
    let cluster = Rect::new(0, 27, 2, 2);
    assert_eq!(cluster_label_rect(cluster, 7, label_band, row), Rect::new(0, 29, 7, 1));
    // and one running past the row's right edge is cut there
    let cluster = Rect::new(36, 27, 4, 2);
    assert_eq!(cluster_label_rect(cluster, 7, label_band, row), Rect::new(35, 29, 5, 1));
}

#[test]
fn group_bounds_cover_clusters_and_their_labels() {
    let band = Rect::new(0, 27, 40, 2);
    let clusters = [Rect::new(7, 27, 6, 2), Rect::new(18, 27, 2, 2), Rect::new(25, 27, 4, 2)];
    // labels: Active 6 wide at 7, Bench 5 wide at 17, Reserve 7 wide at 24
    assert_eq!(cluster_group_bounds(band, &clusters), (7, 31));
    assert_eq!(cluster_group_bounds(band, &[]), (40, 0));
}

#[test]
fn cluster_slots_are_side_by_side() {
    let slots = cluster_slot_rects(Rect::new(7, 27, 6, 2), 3);
    assert_eq!(slots, vec![Rect::new(7, 27, 2, 2), Rect::new(9, 27, 2, 2), Rect::new(11, 27, 2, 2)]);
    let narrow = cluster_slot_rects(Rect::new(5, 1, 1, 2), 2);
    assert_eq!(narrow, vec![Rect::new(5, 1, 1, 2), Rect::new(6, 1, 1, 2)]);
    assert_eq!(SLOT_W, 2);
}

#[test]
fn dot_offsets_center_the_indicator() {
    assert_eq!(dot_slot_offsets(Rect::new(0, 0, 2, 2), 2, 1), (0, 2));
    assert_eq!(dot_slot_offsets(Rect::new(0, 0, 6, 3), 2, 1), (4, 4));
    assert_eq!(dot_slot_offsets(Rect::new(0, 0, 1, 1), 2, 2), (0, 0));
}
