use posterbot_constructor::pagination::{page_window, BOTS_PER_PAGE, CLIENTS_PER_PAGE};

#[test]
fn pages_are_clamped_to_those_that_exist() {
    let w = page_window(12, 0, CLIENTS_PER_PAGE);
    assert_eq!((w.current, w.total_pages, w.start, w.end), (0, 3, 0, 5));
    assert!(!w.has_prev && w.has_next);

    let w = page_window(12, 2, CLIENTS_PER_PAGE);
    assert_eq!((w.current, w.start, w.end), (2, 10, 12));
    assert!(w.has_prev && !w.has_next);

    let w = page_window(12, 99, CLIENTS_PER_PAGE);
    assert_eq!(w.current, 2);

    let w = page_window(12, -4, BOTS_PER_PAGE);
    assert_eq!((w.current, w.start, w.end), (0, 0, 5));

    let w = page_window(5, 1, 5);
    assert_eq!((w.current, w.total_pages, w.start, w.end), (0, 1, 0, 5));
    assert!(!w.has_prev && !w.has_next);

    let w = page_window(1, 0, 5);
    assert_eq!((w.total_pages, w.start, w.end), (1, 0, 1));
}

#[test]
fn pages_cover_the_list_exactly() {
    for total in 1..=23i64 {
        let pages = page_window(total, 0, 5).total_pages;
        let mut next = 0;
        for p in 0..pages {
            let w = page_window(total, p, 5);
            assert_eq!(w.start, next);
            assert!(w.end - w.start <= 5 && w.end > w.start);
            next = w.end;
        }
        assert_eq!(next, total);
    }
}
