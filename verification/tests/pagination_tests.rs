use forum_core::error::Error;
use forum_core::pagination::paginate;

#[test]
fn first_page_holds_page_size_rows() {
    let rows: Vec<u32> = vec![10, 20, 30, 40, 50];
    let (items, total) = paginate(rows, 0, 2).unwrap();
    assert_eq!(items, vec![10, 20]);
    assert_eq!(total, 5);
}

#[test]
fn middle_and_last_pages_window_correctly() {
    let rows: Vec<u32> = vec![10, 20, 30, 40, 50];
    let (items, total) = paginate(rows.clone(), 1, 2).unwrap();
    assert_eq!(items, vec![30, 40]);
    assert_eq!(total, 5);
    let (items, total) = paginate(rows, 2, 2).unwrap();
    assert_eq!(items, vec![50]);
    assert_eq!(total, 5);
}

#[test]
fn page_beyond_page_count_is_empty_with_correct_total() {
    let rows: Vec<u32> = vec![10, 20, 30];
    let (items, total) = paginate(rows, 9, 2).unwrap();
    assert!(items.is_empty());
    assert_eq!(total, 3);
}

#[test]
fn zero_or_negative_page_size_is_a_client_error() {
    let rows: Vec<u32> = vec![1, 2, 3];
    assert!(matches!(paginate(rows.clone(), 0, 0), Err(Error::BadRequest)));
    assert!(matches!(paginate(rows.clone(), 0, -3), Err(Error::BadRequest)));
    assert!(matches!(paginate(rows, -1, 2), Err(Error::BadRequest)));
}

#[test]
fn enumerating_all_pages_yields_every_row_once() {
    let rows: Vec<u32> = (0..17).collect();
    let page_size = 5;
    let mut seen: Vec<u32> = Vec::new();
    let mut index = 0;
    loop {
        let (items, total) = paginate(rows.clone(), index, page_size).unwrap();
        assert_eq!(total, 17);
        assert!(items.len() <= page_size as usize);
        if items.is_empty() {
            break;
        }
        seen.extend(items);
        index += 1;
    }
    assert_eq!(seen, rows);
    assert_eq!(index, 4); // ceil(17 / 5)
}

#[test]
fn empty_input_has_no_pages() {
    let rows: Vec<u32> = Vec::new();
    let (items, total) = paginate(rows, 0, 4).unwrap();
    assert!(items.is_empty());
    assert_eq!(total, 0);
}
