use rbatis::page::{IPageRequest, Page, PageRequest, DEFAULT_PAGE_SIZE};

#[test]
fn test_page() {
    let mut page = Page::<i32>::new_total(1, 10, 1);
    page.records = vec![];
    println!("{:?}", page);
    assert_eq!(page.pages, 1);
}

#[test]
fn page_math_concrete() {
    let page = Page::<i32>::new_total(1, 10, 25);
    assert_eq!(page.pages, 3);
    assert_eq!(page.offset(), 0);
    let page = Page::<i32>::new_total(3, 10, 25);
    assert_eq!(page.offset(), 20);
}

#[test]
fn page_request_normalizes_page_no() {
    let req = PageRequest::new(0, 10);
    assert_eq!(req.page_no, 1);
    let req = PageRequest::new(7, 10);
    assert_eq!(req.page_no, 7);
}

#[test]
fn zero_page_size_means_zero_pages() {
    let page = Page::<i32>::new_total(1, 0, 25);
    assert_eq!(page.pages, 0);
    let req = PageRequest::new_total(1, 0, 25);
    assert_eq!(req.get_pages(), 0);
}

#[test]
fn pages_round_up() {
    assert_eq!(Page::<i32>::new_total(1, 10, 30).pages, 3);
    assert_eq!(Page::<i32>::new_total(1, 10, 31).pages, 4);
    assert_eq!(Page::<i32>::new_total(1, 7, 1).pages, 1);
    assert_eq!(Page::<i32>::new_total(1, 7, 0).pages, 0);
}

#[test]
fn page_request_defaults() {
    let req = PageRequest::default();
    assert_eq!(req.page_no, 1);
    assert_eq!(req.page_size, DEFAULT_PAGE_SIZE);
    assert_eq!(req.total, 0);
    assert!(req.search_count);
    let req = PageRequest::new_option(&None, &None);
    assert_eq!(req.page_no, 1);
    assert_eq!(req.page_size, DEFAULT_PAGE_SIZE);
}

#[test]
fn page_setters_and_getters() {
    let req = PageRequest::new(2, 5)
        .set_total(99)
        .set_page_size(20)
        .set_page_no(4)
        .set_search_count(false);
    assert_eq!(req.get_total(), 99);
    assert_eq!(req.get_page_size(), 20);
    assert_eq!(req.get_page_no(), 4);
    assert!(!req.is_search_count());
    assert_eq!(req.get_pages(), 5);
    assert_eq!(req.offset(), 60);
}

#[test]
fn page_from_converts_records() {
    let mut page = Page::<u8>::new_total(2, 10, 25);
    page.records = vec![1u8, 2, 3];
    let wide: Page<u32> = Page::from(page);
    assert_eq!(wide.records, vec![1u32, 2, 3]);
    assert_eq!(wide.page_no, 2);
    assert_eq!(wide.page_size, 10);
    assert_eq!(wide.total, 25);
    assert_eq!(wide.pages, 3);
    assert!(wide.search_count);
}
