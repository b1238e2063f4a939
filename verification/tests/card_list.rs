use riff::card_list::{bind_start, number_cards};
use riff::card_list::{arrival_removes_placeholders, stale_children};
use riff::card_list::{bottom_reached_loads_more, initial_sort};
use std::cmp::Ordering;

use riff::card_list::{
    columns_for_width, compare_cards, compare_children, effective_sort, filter_empty_notice,
    filter_height_request, grid_capacity, grid_visibility, icon_for_layout, measured_columns,
    passes_filter, placeholder_insert_count, placeholders_to_append, refresh_plan,
    sort_menu_entries, visible_count, CardLayout, CardSortKey, FilterToggleState, SortOrder,
    PLACEHOLDER_COUNT,
};

fn key(pos: u32, title: &str, subtitle: &str, date: &str, popularity: u32) -> CardSortKey {
    CardSortKey {
        insertion_position: pos,
        title: title.to_string(),
        subtitle: subtitle.to_string(),
        release_date: date.to_string(),
        popularity,
    }
}

#[test]
fn preferred_sort_is_kept_when_offered() {
    let available = [SortOrder::RecentlyAdded, SortOrder::Alphabetic];
    assert_eq!(effective_sort(SortOrder::Alphabetic, &available), SortOrder::Alphabetic);
    assert_eq!(effective_sort(SortOrder::Popularity, &available), SortOrder::RecentlyAdded);
    assert_eq!(
        effective_sort(SortOrder::Popularity, &[SortOrder::Creator]),
        SortOrder::Creator
    );
    assert_eq!(effective_sort(SortOrder::Popularity, &[]), SortOrder::RecentlyAdded);
}

#[test]
fn menu_lists_offered_sorts_in_menu_order() {
    let entries = sort_menu_entries(&[SortOrder::Popularity, SortOrder::RecentlyAdded]);
    assert_eq!(entries, vec![SortOrder::RecentlyAdded, SortOrder::Popularity]);
    assert!(sort_menu_entries(&[]).is_empty());
}

#[test]
fn cards_compare_by_sort_order() {
    let a = key(1, "abba", "Zed", "2020-01-01", 10);
    let b = key(2, "Beatles", "adam", "2021-05-05", 90);
    assert_eq!(compare_cards(SortOrder::RecentlyAdded, &a, &b), Ordering::Less);
    assert_eq!(compare_cards(SortOrder::Alphabetic, &a, &b), Ordering::Less);
    assert_eq!(compare_cards(SortOrder::Creator, &a, &b), Ordering::Greater);
    assert_eq!(compare_cards(SortOrder::DateReleased, &a, &b), Ordering::Greater);
    assert_eq!(compare_cards(SortOrder::Popularity, &a, &b), Ordering::Greater);
}

#[test]
fn alphabetic_order_ignores_ascii_case() {
    let a = key(1, "Hello", "", "", 0);
    let b = key(2, "hELLO", "", "", 0);
    assert_eq!(compare_cards(SortOrder::Alphabetic, &a, &b), Ordering::Equal);
    let c = key(3, "Hello!", "", "", 0);
    assert_eq!(compare_cards(SortOrder::Alphabetic, &a, &c), Ordering::Less);
}

#[test]
fn swapped_cards_compare_the_other_way() {
    let a = key(5, "x", "y", "2000", 3);
    let b = key(9, "X", "z", "1999", 4);
    for sort in [
        SortOrder::RecentlyAdded,
        SortOrder::Alphabetic,
        SortOrder::Creator,
        SortOrder::DateReleased,
        SortOrder::Popularity,
    ] {
        assert_eq!(
            compare_cards(sort, &a, &b),
            compare_cards(sort, &b, &a).reverse()
        );
    }
}

#[test]
fn placeholders_sort_after_cards() {
    let a = key(1, "a", "", "", 0);
    assert_eq!(compare_children(SortOrder::Alphabetic, Some(&a), None), Ordering::Less);
    assert_eq!(compare_children(SortOrder::Alphabetic, None, Some(&a)), Ordering::Greater);
    assert_eq!(compare_children(SortOrder::Alphabetic, None, None), Ordering::Equal);
}

#[test]
fn filter_keeps_placeholders_and_matching_cards() {
    assert!(passes_filter("", Some("album")));
    assert!(passes_filter("album", Some("album")));
    assert!(!passes_filter("album", Some("single")));
    assert!(passes_filter("album", None));
}

#[test]
fn row_limit_hides_overflow_and_filtered_cards() {
    let children = vec![
        Some("album".to_string()),
        Some("single".to_string()),
        Some("album".to_string()),
        None,
        Some("album".to_string()),
    ];
    assert_eq!(
        grid_visibility("album", &children, 2),
        vec![true, false, true, false, false]
    );
    assert_eq!(grid_visibility("", &children, 10), vec![true; 5]);
    assert_eq!(grid_visibility("", &children, 0), vec![false; 5]);
}

#[test]
fn capacity_and_placeholders() {
    assert_eq!(grid_capacity(2, 4), 8);
    assert_eq!(placeholder_insert_count(Some(2), 4), 12);
    assert_eq!(placeholder_insert_count(None, 4), 50);
    assert_eq!(PLACEHOLDER_COUNT, 50);
    assert_eq!(placeholders_to_append(0), 50);
    assert_eq!(placeholders_to_append(3), 0);
}

#[test]
fn estimated_columns() {
    assert_eq!(columns_for_width(1000, 200, 7), 5);
    assert_eq!(columns_for_width(100, 200, 7), 1);
    assert_eq!(columns_for_width(0, 200, 7), 7);
    assert_eq!(columns_for_width(500, 0, 3), 3);
}

#[test]
fn measured_columns_count_the_top_row() {
    let tops = vec![Some(10), Some(10), Some(10), Some(200), None, Some(200)];
    assert_eq!(measured_columns(900, &tops), Some(3));
    assert_eq!(measured_columns(0, &tops), None);
    assert_eq!(measured_columns(900, &vec![None, None]), None);
}

#[test]
fn layout_icons() {
    assert_eq!(icon_for_layout(CardLayout::Vertical), "view-grid-symbolic");
    assert_eq!(icon_for_layout(CardLayout::ImageOnly), "view-app-grid-symbolic");
    assert_eq!(icon_for_layout(CardLayout::Horizontal), "view-list-symbolic");
}

#[test]
fn filtering_locks_the_height() {
    assert_eq!(filter_height_request(true, 500, Some(300), 400), -1);
    assert_eq!(filter_height_request(false, 500, Some(300), -1), 300);
    assert_eq!(filter_height_request(false, 200, Some(300), -1), 200);
    assert_eq!(filter_height_request(false, 200, None, 350), 350);
    assert_eq!(filter_height_request(false, 0, Some(300), 17), 17);
}

#[test]
fn visible_cards_exclude_placeholders() {
    let children = vec![(true, true), (true, false), (false, true), (true, true)];
    assert_eq!(visible_count(&children), 2);
    assert_eq!(visible_count(&vec![]), 0);
}

#[test]
fn filter_toggles_are_ignored_while_syncing() {
    let mut s = FilterToggleState::new();
    assert_eq!(s.active_index(), 0);
    assert_eq!(s.on_toggled(2, true), Some(2));
    assert_eq!(s.on_toggled(1, false), None);
    assert_eq!(s.active_index(), 2);
    assert_eq!(s.begin_sync(), 2);
    assert_eq!(s.on_toggled(0, true), None);
    s.end_sync();
    assert_eq!(s.active_index(), 2);
}

#[test]
fn refresh_plans() {
    let p = refresh_plan(false, true, true, SortOrder::Alphabetic);
    assert!(p.show_empty_status && !p.load_more && p.apply_sort.is_none());
    let p = refresh_plan(true, true, true, SortOrder::Alphabetic);
    assert!(!p.show_empty_status && p.load_more);
    assert_eq!(p.apply_sort, Some(SortOrder::Alphabetic));
    let p = refresh_plan(true, false, true, SortOrder::RecentlyAdded);
    assert!(!p.load_more && p.apply_sort.is_none());
}

#[test]
fn empty_filter_notice() {
    assert!(filter_empty_notice("album", 0));
    assert!(!filter_empty_notice("album", 3));
    assert!(!filter_empty_notice("", 0));
}

#[test]
fn cards_are_numbered_in_arrival_order() {
    assert_eq!(bind_start(0), 1);
    assert_eq!(bind_start(9), 9);
    assert_eq!(number_cards(1, &vec![7, 0, 3], true), (vec![1, 2, 3], 4));
    assert_eq!(number_cards(4, &vec![1, 0, 2, 0], false), (vec![1, 4, 2, 5], 6));
    assert_eq!(number_cards(5, &vec![], false), (vec![], 5));
}

#[test]
fn departed_cards_are_dropped() {
    let children = vec![Some("a".to_string()), None, Some("b".to_string()), Some("c".to_string())];
    let source = vec!["c".to_string(), "a".to_string()];
    assert_eq!(stale_children(&children, &source), vec![false, false, true, false]);
    assert!(arrival_removes_placeholders(2, 50));
    assert!(!arrival_removes_placeholders(0, 50));
    assert!(!arrival_removes_placeholders(2, 0));
}

#[test]
fn opening_sort() {
    assert_eq!(
        initial_sort(SortOrder::Alphabetic, &[SortOrder::RecentlyAdded, SortOrder::Alphabetic]),
        Some(SortOrder::Alphabetic)
    );
    assert_eq!(initial_sort(SortOrder::Popularity, &[SortOrder::RecentlyAdded]), None);
    assert!(bottom_reached_loads_more(true, true));
    assert!(!bottom_reached_loads_more(true, false));
}
