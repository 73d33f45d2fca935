use cept_pages::paginate::{paginate, SubPageRange};
use cept_pages::PageError;

#[test]
fn five_entries_two_three_first_page() {
    let d: Vec<usize> = vec![2, 3];
    let r = paginate(5, &d, 0).unwrap();
    assert_eq!(r, SubPageRange { start: 0, end: 2, more: true });
}

#[test]
fn five_entries_two_three_second_page() {
    let d: Vec<usize> = vec![2, 3];
    let r = paginate(5, &d, 1).unwrap();
    assert_eq!(r, SubPageRange { start: 2, end: 5, more: false });
}

#[test]
fn five_entries_two_three_third_page_is_out_of_range() {
    let d: Vec<usize> = vec![2, 3];
    assert_eq!(paginate(5, &d, 2), Err(PageError::PaginationOutOfRange));
}

#[test]
fn remainder_continue_is_governed_by_distribution_length() {
    let d: Vec<usize> = vec![2];
    let r = paginate(7, &d, 0).unwrap();
    assert_eq!(r, SubPageRange { start: 0, end: 2, more: false });
}

#[test]
fn remainder_page_shows_the_rest() {
    let d: Vec<usize> = vec![2];
    let r = paginate(7, &d, 1).unwrap();
    assert_eq!(r, SubPageRange { start: 2, end: 7, more: false });
}

#[test]
fn index_past_remainder_is_out_of_range() {
    let d: Vec<usize> = vec![2];
    assert_eq!(paginate(7, &d, 2), Err(PageError::PaginationOutOfRange));
}

#[test]
fn empty_distribution_shows_everything_on_the_remainder_page() {
    let d: Vec<usize> = vec![];
    let r = paginate(3, &d, 0).unwrap();
    assert_eq!(r, SubPageRange { start: 0, end: 3, more: false });
    assert_eq!(paginate(3, &d, 1), Err(PageError::PaginationOutOfRange));
}

#[test]
fn no_entries_means_no_page_at_all() {
    let d: Vec<usize> = vec![2, 3];
    assert_eq!(paginate(0, &d, 0), Err(PageError::PaginationOutOfRange));
}

#[test]
fn oversubscribed_page_is_capped_at_the_entry_count() {
    let d: Vec<usize> = vec![10];
    let r = paginate(5, &d, 0).unwrap();
    assert_eq!(r, SubPageRange { start: 0, end: 5, more: false });
}

#[test]
fn exhausted_distribution_leaves_no_remainder_page() {
    let d: Vec<usize> = vec![3, 2];
    assert_eq!(paginate(5, &d, 2), Err(PageError::PaginationOutOfRange));
}

#[test]
fn partition_covers_each_entry_exactly_once() {
    let d: Vec<usize> = vec![2, 3];
    let n: usize = 9;
    for e in 0..n {
        let mut owners: usize = 0;
        let mut p: usize = 0;
        while let Ok(r) = paginate(n, &d, p) {
            if r.start <= e && e < r.end {
                owners += 1;
            }
            p += 1;
        }
        assert_eq!(owners, 1, "entry {} covered {} times", e, owners);
    }
}
