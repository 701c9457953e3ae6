use warp_pane_activity::blocks::{
    block_list_indices, block_list_limit, block_output, max_output_chars_or_default, select_block_to_read,
    truncate_from_start, DEFAULT_BLOCK_LIST_LIMIT, DEFAULT_MAX_OUTPUT_CHARS,
};
use warp_pane_activity::control::ErrorCode;

#[test]
fn truncate_keeps_short_text() {
    assert_eq!(
        truncate_from_start("hello".to_owned(), 5),
        ("hello".to_owned(), false)
    );
    assert_eq!(
        truncate_from_start("".to_owned(), 0),
        ("".to_owned(), false)
    );
}

#[test]
fn truncate_keeps_the_end() {
    assert_eq!(
        truncate_from_start("hello world".to_owned(), 5),
        ("world".to_owned(), true)
    );
    assert_eq!(truncate_from_start("abc".to_owned(), 0), ("".to_owned(), true));
}

#[test]
fn truncate_counts_characters_not_bytes() {
    assert_eq!(
        truncate_from_start("héllo→x".to_owned(), 3),
        ("o→x".to_owned(), true)
    );
    assert_eq!(
        truncate_from_start("→→".to_owned(), 2),
        ("→→".to_owned(), false)
    );
}

#[test]
fn defaults_for_block_requests() {
    assert_eq!(block_list_limit(None), DEFAULT_BLOCK_LIST_LIMIT);
    assert_eq!(block_list_limit(Some(7)), 7);
    assert_eq!(DEFAULT_BLOCK_LIST_LIMIT, 50);
    assert_eq!(max_output_chars_or_default(None), DEFAULT_MAX_OUTPUT_CHARS);
    assert_eq!(DEFAULT_MAX_OUTPUT_CHARS, 100_000);
    assert_eq!(max_output_chars_or_default(Some(3)), 3);
}

#[test]
fn block_list_shows_latest_visible_blocks_oldest_first() {
    let hidden = vec![false, true, false, false, true, false];
    assert_eq!(block_list_indices(&hidden, false, 2), vec![3, 5]);
    assert_eq!(block_list_indices(&hidden, false, 10), vec![0, 2, 3, 5]);
    assert_eq!(block_list_indices(&hidden, true, 3), vec![3, 4, 5]);
    assert_eq!(block_list_indices(&hidden, false, 0), Vec::<usize>::new());
    assert_eq!(block_list_indices(&vec![], false, 5), Vec::<usize>::new());
}

#[test]
fn block_read_selects_by_id_index_or_latest_visible() {
    let ids: Vec<String> = vec!["a".into(), "b".into(), "c".into(), "b".into()];
    let hidden = vec![false, false, false, true];
    let b = "b".to_owned();
    assert_eq!(select_block_to_read(&ids, &hidden, Some(&b), Some(0)), Ok(1));
    assert_eq!(select_block_to_read(&ids, &hidden, None, Some(3)), Ok(3));
    assert_eq!(select_block_to_read(&ids, &hidden, None, None), Ok(2));
}

#[test]
fn block_read_without_match_is_missing_target() {
    let ids: Vec<String> = vec!["a".into()];
    let hidden = vec![true];
    let z = "z".to_owned();
    let err = select_block_to_read(&ids, &hidden, Some(&z), None).unwrap_err();
    assert_eq!(err.code, ErrorCode::MissingTarget);
    assert_eq!(
        err.message,
        "block.read could not resolve the requested block"
    );
    assert!(select_block_to_read(&ids, &hidden, None, Some(1)).is_err());
    assert!(select_block_to_read(&ids, &hidden, None, None).is_err());
}

#[test]
fn block_output_only_where_included() {
    assert_eq!(block_output(None, 3), (None, false));
    assert_eq!(
        block_output(Some("abcdef".to_owned()), 3),
        (Some("def".to_owned()), true)
    );
    assert_eq!(
        block_output(Some("ab".to_owned()), 3),
        (Some("ab".to_owned()), false)
    );
}
