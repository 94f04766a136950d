use renge::paging::{CursorPaged, CursorPaging, OffsetPaged, OffsetPaging};

#[test]
fn cursor_paged_new_creates_paged_result_with_items_and_paging() {
    let paging = CursorPaging::new("cursor");
    let paged = CursorPaged::new(vec![1, 2, 3], paging);

    assert_eq!(paged.items, vec![1, 2, 3]);
    assert_eq!(paged.paging.cursor, "cursor");
}

#[test]
fn cursor_paging_new_creates_paging_with_cursor() {
    let paging = CursorPaging::new("cursor");

    assert_eq!(paging.cursor, "cursor");
}

#[test]
fn new_creates_paging_with_limit_and_offset() {
    let paging = OffsetPaging::new(10, 20);

    assert_eq!(paging.page(), 3);
    assert_eq!(paging.per_page(), 10);
}

#[test]
fn new_by_page_creates_first_page() {
    let paging = OffsetPaging::new_by_page(1, 10);

    assert_eq!(paging.page(), 1);
    assert_eq!(paging.per_page(), 10);
}

#[test]
fn new_by_page_creates_later_page() {
    let paging = OffsetPaging::new_by_page(3, 10);

    assert_eq!(paging.page(), 3);
    assert_eq!(paging.per_page(), 10);
}

#[test]
fn page_rounds_down_when_offset_is_not_page_aligned() {
    let paging = OffsetPaging::new(10, 25);

    assert_eq!(paging.page(), 3);
}

#[test]
fn new_by_page_sets_limit_and_offset() {
    let paging = OffsetPaging::new_by_page(4, 25);
    assert_eq!(paging.limit, 25);
    assert_eq!(paging.offset, 75);
}

#[test]
fn next_moves_to_the_following_page() {
    let paging = OffsetPaging::new_by_page(2, 10);
    let next = paging.next();
    assert_eq!(next.offset, 20);
    assert_eq!(next.limit, 10);
    assert_eq!(next.page(), paging.page() + 1);
}

#[test]
fn next_of_unaligned_offset_still_advances_one_page() {
    let paging = OffsetPaging::new(10, 25);
    assert_eq!(paging.next().page(), 4);
}

#[test]
fn round_trip_of_page_numbers() {
    for page in 1..50u32 {
        for per_page in 1..12u32 {
            let paging = OffsetPaging::new_by_page(page, per_page);
            assert_eq!(paging.page(), page);
            assert_eq!(paging.per_page(), per_page);
        }
    }
}

#[test]
fn offset_paged_keeps_items_and_paging() {
    let paged = OffsetPaged::new(vec!["a", "b"], OffsetPaging::new(2, 4));
    assert_eq!(paged.items, vec!["a", "b"]);
    assert_eq!(paged.paging.limit, 2);
    assert_eq!(paged.paging.offset, 4);
}
