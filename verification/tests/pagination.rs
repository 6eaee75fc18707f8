use disfork::pagination::PageWalk;
use disfork::pagination::account_uses_org_listing;

fn page_of(first: u32, count: u32) -> Vec<u32> {
    (first..first + count).collect()
}

#[test]
fn three_pages_collect_all_items() {
    // Pages of 100, 100 and 37 items, with a successor announced after the
    // first two: the walk returns all 237 items through exactly 3 requests.
    let mut walk: PageWalk<u32> = PageWalk::new();
    assert_eq!(walk.next_request(), 1);
    walk.absorb(page_of(0, 100), true);
    assert!(!walk.is_finished());
    assert_eq!(walk.next_request(), 2);
    walk.absorb(page_of(100, 100), true);
    assert!(!walk.is_finished());
    assert_eq!(walk.next_request(), 3);
    walk.absorb(page_of(200, 37), false);
    assert!(walk.is_finished());
    assert_eq!(walk.pages_requested(), 3);
    let items = walk.into_items();
    assert_eq!(items.len(), 237);
    assert_eq!(items, page_of(0, 237));
}

#[test]
fn single_page_finishes_at_once() {
    let mut walk: PageWalk<u32> = PageWalk::new();
    walk.absorb(page_of(0, 4), false);
    assert!(walk.is_finished());
    assert_eq!(walk.pages_requested(), 1);
    assert_eq!(walk.into_items(), vec![0, 1, 2, 3]);
}

#[test]
fn empty_listing_yields_no_items() {
    let mut walk: PageWalk<u32> = PageWalk::new();
    walk.absorb(Vec::new(), false);
    assert!(walk.is_finished());
    assert_eq!(walk.pages_requested(), 1);
    assert!(walk.into_items().is_empty());
}

#[test]
fn org_listing_is_chosen_by_account_type() {
    assert!(account_uses_org_listing(&"organization".to_string()));
    assert!(account_uses_org_listing(&"enterprise".to_string()));
    assert!(!account_uses_org_listing(&"user".to_string()));
    assert!(!account_uses_org_listing(&"".to_string()));
}
