use roblox_api::{Paging, SortOrder};

#[test]
fn paging_new_keeps_its_arguments() {
    let paging = Paging::new(Some("abc"), Some(25), Some(SortOrder::Descending));
    assert_eq!(paging.cursor, Some("abc"));
    assert_eq!(paging.limit, Some(25));
    assert_eq!(paging.order, Some(SortOrder::Descending));
}

#[test]
fn paging_default_asks_for_ten_ascending() {
    let paging = Paging::default();
    assert_eq!(paging.cursor, None);
    assert_eq!(paging.limit, Some(10));
    assert_eq!(paging.order, Some(SortOrder::Ascending));
}
