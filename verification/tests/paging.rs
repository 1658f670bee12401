use org_sog::paging::{page_query, PageQuery};

#[test]
fn the_first_page_skips_nothing() {
    assert_eq!(page_query(2, 1), PageQuery { limit: 2, skip: 0 });
    assert_eq!(page_query(i64::MAX, 1), PageQuery { limit: i64::MAX, skip: 0 });
}

#[test]
fn a_later_page_skips_the_pages_before_it() {
    assert_eq!(page_query(2, 2), PageQuery { limit: 2, skip: 2 });
    assert_eq!(page_query(10, 3), PageQuery { limit: 10, skip: 20 });
    assert_eq!(page_query(1, 1000), PageQuery { limit: 1, skip: 999 });
}

#[test]
fn the_largest_offset_fits() {
    assert_eq!(
        page_query(1, i64::MAX),
        PageQuery { limit: 1, skip: (i64::MAX - 1) as u64 }
    );
}

#[test]
fn a_limit_of_zero_skips_nothing() {
    assert_eq!(page_query(0, 1), PageQuery { limit: 0, skip: 0 });
    assert_eq!(page_query(0, 7), PageQuery { limit: 0, skip: 0 });
    assert_eq!(page_query(0, 0), PageQuery { limit: 0, skip: 0 });
}

#[test]
fn two_negative_factors_give_an_offset() {
    assert_eq!(page_query(-5, 0), PageQuery { limit: -5, skip: 5 });
    assert_eq!(page_query(-2, -3), PageQuery { limit: -2, skip: 8 });
}
