use bevy_widget::{
    map_range, update_status_bar, Size, StatusBarDirection, StatusBarWidget, Val,
};

#[test]
fn construction_succeeds_for_ordered_range() {
    let w = StatusBarWidget::new(5, 0, 10);
    assert_eq!(w.get_progress(), 5);
    assert_eq!(w.get_min(), 0);
    assert_eq!(w.get_max(), 10);
    assert!(matches!(w.get_direction(), StatusBarDirection::Horizontal));

    assert!(StatusBarWidget::try_new(5, 0, 10).is_some());
    assert!(StatusBarWidget::try_new(0, 3, 3).is_some());
    assert!(StatusBarWidget::try_new(-7, -10, -1).is_some());
}

#[test]
fn construction_fails_for_reversed_range() {
    assert!(StatusBarWidget::try_new(5, 10, 0).is_none());
    assert!(StatusBarWidget::try_new(0, 1, 0).is_none());
    assert!(StatusBarWidget::try_new(0, 2_000_000_000, 2_000_000_001).is_none());
}

#[test]
fn set_progress_in_range_is_stored_exactly() {
    let mut w = StatusBarWidget::new(0, 0, 10);
    w.set_progress(7);
    assert_eq!(w.get_progress(), 7);
    w.set_progress(0);
    assert_eq!(w.get_progress(), 0);
    w.set_progress(10);
    assert_eq!(w.get_progress(), 10);
}

#[test]
fn set_progress_below_min_stores_zero() {
    let mut w = StatusBarWidget::new(7, 5, 10);
    w.set_progress(4);
    assert_eq!(w.get_progress(), 0);

    let mut v = StatusBarWidget::new(0, -20, -10);
    v.set_progress(-30);
    assert_eq!(v.get_progress(), 0);
}

#[test]
fn set_progress_above_max_stores_one() {
    let mut w = StatusBarWidget::new(7, 5, 10);
    w.set_progress(11);
    assert_eq!(w.get_progress(), 1);

    let mut v = StatusBarWidget::new(0, -20, -10);
    v.set_progress(-5);
    assert_eq!(v.get_progress(), 1);
}

#[test]
fn map_range_hits_both_endpoints() {
    assert_eq!(map_range(0, (0, 150), (0, 100)), 0);
    assert_eq!(map_range(150, (0, 150), (0, 100)), 100);
    assert_eq!(map_range(-3, (-3, 9), (20, 44)), 20);
    assert_eq!(map_range(9, (-3, 9), (20, 44)), 44);
    // A descending target interval is mapped exactly as well.
    assert_eq!(map_range(0, (0, 10), (100, 0)), 100);
    assert_eq!(map_range(10, (0, 10), (100, 0)), 0);
}

#[test]
fn map_range_is_monotonic_between_endpoints() {
    let mut previous = map_range(0, (0, 150), (0, 100));
    let mut x = 1;
    while x <= 150 {
        let current = map_range(x, (0, 150), (0, 100));
        assert!(previous <= current);
        previous = current;
        x += 1;
    }
    assert_eq!(map_range(75, (0, 150), (0, 100)), 50);
}

#[test]
fn map_range_does_not_clamp() {
    assert_eq!(map_range(200, (0, 100), (0, 100)), 200);
    assert_eq!(map_range(-50, (0, 100), (0, 100)), -50);
    // A snapped progress of 0 below a positive min maps below 0 percent.
    assert_eq!(map_range(0, (5, 10), (0, 100)), -100);
}

#[test]
fn horizontal_sync_updates_width_only() {
    let w = StatusBarWidget::new(75, 0, 150);
    let child = Size::new(Val::Percent(0), Val::Percent(100));
    let synced = w.sync_size(&child);
    assert_eq!(synced.width, Val::Percent(50));
    assert_eq!(synced.height, Val::Percent(100));

    let other = Size::new(Val::Px(13), Val::Auto);
    let synced = w.sync_size(&other);
    assert_eq!(synced.width, Val::Percent(50));
    assert_eq!(synced.height, Val::Auto);
}

#[test]
fn vertical_sync_updates_height_only() {
    let mut w = StatusBarWidget::new(75, 0, 150);
    w.set_direction(StatusBarDirection::Vertical);
    let child = Size::new(Val::Px(13), Val::Percent(0));
    let synced = w.sync_size(&child);
    assert_eq!(synced.width, Val::Px(13));
    assert_eq!(synced.height, Val::Percent(50));
}

#[test]
fn unchanged_widget_writes_nothing() {
    let mut w = StatusBarWidget::new(75, 0, 150);
    let mut children = vec![Some(Size::new(Val::Percent(0), Val::Percent(100)))];
    // The first pass consumes the construction-time change.
    update_status_bar(&mut w, &mut children);
    assert!(!w.is_changed());

    // A sentinel value survives a pass over a widget with no new change.
    let sentinel = Size::new(Val::Px(7), Val::Px(9));
    children[0] = Some(sentinel);
    update_status_bar(&mut w, &mut children);
    assert_eq!(children[0], Some(sentinel));
    assert!(!w.is_changed());

    // The next write marks it again.
    w.set_progress(80);
    assert!(w.is_changed());
}

#[test]
fn changed_widget_updates_every_sized_child_identically() {
    let mut w = StatusBarWidget::new(75, 0, 150);
    let mut children = vec![
        Some(Size::new(Val::Percent(0), Val::Percent(100))),
        None,
        Some(Size::new(Val::Px(3), Val::Px(4))),
    ];
    update_status_bar(&mut w, &mut children);
    assert_eq!(children[0], Some(Size::new(Val::Percent(50), Val::Percent(100))));
    assert_eq!(children[1], None);
    assert_eq!(children[2], Some(Size::new(Val::Percent(50), Val::Px(4))));
    assert!(!w.is_changed());
}

#[test]
fn scenario_half_full_horizontal_bar() {
    let mut w = StatusBarWidget::new(75, 0, 150);
    let mut children = vec![Some(Size::new(Val::Percent(0), Val::Percent(100)))];
    update_status_bar(&mut w, &mut children);
    assert_eq!(children[0], Some(Size::new(Val::Percent(50), Val::Percent(100))));
}

#[test]
fn scenario_underflow_snaps_to_zero_percent() {
    let mut w = StatusBarWidget::new(0, 0, 1);
    w.set_progress(-10);
    assert_eq!(w.get_progress(), 0);
    let mut children = vec![Some(Size::new(Val::Percent(42), Val::Percent(100)))];
    update_status_bar(&mut w, &mut children);
    assert_eq!(children[0], Some(Size::new(Val::Percent(0), Val::Percent(100))));
}

#[test]
fn scenario_overflow_snaps_to_hundred_percent() {
    let mut w = StatusBarWidget::new(0, 0, 1);
    w.set_progress(2);
    assert_eq!(w.get_progress(), 1);
    let mut children = vec![Some(Size::new(Val::Percent(42), Val::Percent(100)))];
    update_status_bar(&mut w, &mut children);
    assert_eq!(children[0], Some(Size::new(Val::Percent(100), Val::Percent(100))));
}

#[test]
fn default_direction_is_horizontal() {
    assert!(matches!(
        StatusBarDirection::default(),
        StatusBarDirection::Horizontal
    ));
    let w = StatusBarWidget::default();
    assert!(matches!(w.get_direction(), StatusBarDirection::Horizontal));
    assert_eq!(w.get_progress(), 0);
    assert!(!w.is_changed());
}
