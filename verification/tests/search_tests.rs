use search_util::arith::add_two;
use search_util::list_search::{binary_search, linear_search, search, SearchKind, SearchList};
use search_util::vec_search;

#[test]
fn test_linear_search() {
    let search_list = SearchList {
        list: vec![0i64, 1, 2, 3, 4, 5, 6, 7, 8, 9],
        is_sorted: true,
    };

    assert!(linear_search(search_list.clone(), 5).found);
    assert_eq!(linear_search(search_list.clone(), 5).index, Some(5));
    assert!(linear_search(search_list.clone(), 0).found);
    assert_eq!(linear_search(search_list.clone(), 0).index, Some(0));
    assert!(linear_search(search_list.clone(), 9).found);
    assert_eq!(linear_search(search_list.clone(), 9).index, Some(9));

    assert!(!linear_search(search_list.clone(), 15).found);
    assert_eq!(linear_search(search_list.clone(), 15).index, None);
}

#[test]
fn test_binary_search() {
    let search_list = SearchList {
        list: vec![0i64, 1, 2, 3, 4, 5, 6, 7, 8, 9],
        is_sorted: true,
    };

    assert!(binary_search(search_list.clone(), 5).found);
    assert_eq!(binary_search(search_list.clone(), 5).index, None);
    assert!(binary_search(search_list.clone(), 0).found);
    assert_eq!(binary_search(search_list.clone(), 0).index, None);
    assert!(binary_search(search_list.clone(), 9).found);
    assert_eq!(binary_search(search_list.clone(), 9).index, None);

    assert!(!binary_search(search_list.clone(), 15).found);
    assert_eq!(binary_search(search_list.clone(), 15).index, None);
}

#[test]
fn test_search() {
    let search_list_sorted = SearchList {
        list: vec![0i64, 1, 2, 3, 4, 5, 6, 7, 8, 9],
        is_sorted: true,
    };
    let search_list_unsorted = SearchList {
        list: vec![9i64, 8, 7, 6, 5, 4, 3, 2, 1, 0],
        is_sorted: false,
    };

    assert!(search(search_list_sorted.clone(), 5, SearchKind::CheckPresence).found);
    assert!(!search(search_list_unsorted.clone(), 15, SearchKind::CheckPresence).found);
    assert_eq!(
        search(search_list_sorted.clone(), 5, SearchKind::FindIndex).index,
        Some(5)
    );
    assert_eq!(
        search(search_list_unsorted.clone(), 15, SearchKind::FindIndex).index,
        None
    );
}

#[test]
fn test_search_empty_list() {
    let empty = SearchList {
        list: Vec::<i64>::new(),
        is_sorted: true,
    };
    let r = search(empty.clone(), 7, SearchKind::FindIndex);
    assert!(!r.found);
    assert_eq!(r.index, None);
    let r = search(empty, 7, SearchKind::CheckPresence);
    assert!(!r.found);
    assert_eq!(r.index, None);
}

#[test]
fn test_check_presence_concrete() {
    let sorted = SearchList {
        list: vec![0i64, 1, 2, 3, 4, 5, 6, 7, 8, 9],
        is_sorted: true,
    };
    assert!(search(sorted.clone(), 5, SearchKind::CheckPresence).found);
    assert!(!search(sorted, 15, SearchKind::CheckPresence).found);
    assert_eq!(
        search(
            SearchList {
                list: vec![9i64, 8, 7, 6, 5, 4, 3, 2, 1, 0],
                is_sorted: false,
            },
            15,
            SearchKind::CheckPresence,
        )
        .found,
        false
    );
}

#[test]
fn test_check_presence_ignores_order() {
    let shuffled = vec![4i64, 2, 9, 2, 7];
    let mut ascending = shuffled.clone();
    ascending.sort();
    for probe in [0i64, 2, 4, 5, 7, 9, 10] {
        let from_shuffled = search(
            SearchList {
                list: shuffled.clone(),
                is_sorted: false,
            },
            probe,
            SearchKind::CheckPresence,
        );
        let from_ascending = search(
            SearchList {
                list: ascending.clone(),
                is_sorted: true,
            },
            probe,
            SearchKind::CheckPresence,
        );
        assert_eq!(from_shuffled.found, from_ascending.found);
        assert_eq!(from_shuffled.index, None);
        assert_eq!(from_ascending.index, None);
    }
}

#[test]
fn test_check_presence_idempotent() {
    let mut items = vec![4i64, 2, 9, 2, 7];
    let first = vec_search::search(7, &mut items, true, false);
    let after_first = items.clone();
    let second = vec_search::search(7, &mut items, true, true);
    match (first, second) {
        (vec_search::SearchResult::Binary(a), vec_search::SearchResult::Binary(b)) => {
            assert_eq!(a, b);
            assert!(a);
        }
        _ => panic!("presence checks must answer with a presence result"),
    }
    assert_eq!(items, after_first);
    assert_eq!(items, vec![2i64, 2, 4, 7, 9]);
}

#[test]
fn test_linear_search_first_of_duplicates() {
    let with_duplicates = SearchList {
        list: vec![1i64, 2, 2, 3],
        is_sorted: true,
    };
    let r = linear_search(with_duplicates, 2);
    assert!(r.found);
    assert_eq!(r.index, Some(1));
}

#[test]
fn test_linear_search_unsorted_ignores_flag_pruning() {
    let unsorted = SearchList {
        list: vec![5i64, 1, 4],
        is_sorted: false,
    };
    let r = linear_search(unsorted, 4);
    assert!(r.found);
    assert_eq!(r.index, Some(2));
}

#[test]
fn test_vec_linear_search() {
    let items = vec![0i64, 1, 2, 3, 4, 5, 6, 7, 8, 9];
    assert_eq!(vec_search::linear_search(5, &items, true), Some(5));
    assert_eq!(vec_search::linear_search(15, &items, true), None);
    let unordered = vec![9i64, 8, 7];
    assert_eq!(vec_search::linear_search(7, &unordered, false), Some(2));
}

#[test]
fn test_vec_binary_search() {
    let items = vec![0i64, 1, 2, 3, 4, 5, 6, 7, 8, 9];
    assert!(vec_search::binary_search(5, &items));
    assert!(vec_search::binary_search(0, &items));
    assert!(vec_search::binary_search(9, &items));
    assert!(!vec_search::binary_search(15, &items));
}

#[test]
fn test_vec_search_entry_point() {
    let mut items = vec![1i64, 2, 3, 4, 5];
    let r = vec_search::search(3, &mut items, true, true);
    assert!(matches!(r, vec_search::SearchResult::Binary(true)));
    let r = vec_search::search(2, &mut items, false, true);
    assert!(matches!(r, vec_search::SearchResult::Linear(Some(1))));
    let mut empty = Vec::<i64>::new();
    let r = vec_search::search(3, &mut empty, true, false);
    assert!(matches!(r, vec_search::SearchResult::Binary(false)));
    let r = vec_search::search(3, &mut empty, false, false);
    assert!(matches!(r, vec_search::SearchResult::Linear(None)));
}

#[test]
fn test_add_two() {
    assert_eq!(add_two(1, 2), 3);
    assert_eq!(add_two(-4, 4), 0);
}
