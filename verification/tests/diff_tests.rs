use cokacdir::diff::{
    build_diff_lines, compute_lcs, compute_lcs_simple, emit_gap, expand_chars, handle_input,
    is_binary, truncate_or_pad, DiffFileViewState, DiffKey, DiffLine, DiffLineStatus,
};

#[test]
fn test_compute_lcs_identical() {
    let left = vec!["a".to_string(), "b".to_string(), "c".to_string()];
    let right = vec!["a".to_string(), "b".to_string(), "c".to_string()];
    let lcs = compute_lcs(&left, &right);
    assert_eq!(lcs, vec![(0, 0), (1, 1), (2, 2)]);
}

#[test]
fn test_compute_lcs_different() {
    let left = vec!["a".to_string(), "b".to_string(), "c".to_string()];
    let right = vec!["x".to_string(), "y".to_string(), "z".to_string()];
    let lcs = compute_lcs(&left, &right);
    assert!(lcs.is_empty());
}

#[test]
fn test_compute_lcs_partial() {
    let left = vec!["a".to_string(), "b".to_string(), "c".to_string()];
    let right = vec!["a".to_string(), "x".to_string(), "c".to_string()];
    let lcs = compute_lcs(&left, &right);
    assert_eq!(lcs, vec![(0, 0), (2, 2)]);
}

#[test]
fn test_build_diff_lines_same() {
    let left = vec!["line1".to_string(), "line2".to_string()];
    let right = vec!["line1".to_string(), "line2".to_string()];
    let lcs = compute_lcs(&left, &right);
    let (diff_lines, changes) = build_diff_lines(&left, &right, &lcs);
    assert_eq!(diff_lines.len(), 2);
    assert_eq!(diff_lines[0].line_status, DiffLineStatus::Same);
    assert_eq!(diff_lines[1].line_status, DiffLineStatus::Same);
    assert!(changes.is_empty());
}

#[test]
fn test_build_diff_lines_modified() {
    let left = vec!["a".to_string(), "b".to_string(), "c".to_string()];
    let right = vec!["a".to_string(), "x".to_string(), "c".to_string()];
    let lcs = compute_lcs(&left, &right);
    let (diff_lines, changes) = build_diff_lines(&left, &right, &lcs);
    assert_eq!(diff_lines.len(), 3);
    assert_eq!(diff_lines[0].line_status, DiffLineStatus::Same);
    assert_eq!(diff_lines[1].line_status, DiffLineStatus::Modified);
    assert_eq!(diff_lines[2].line_status, DiffLineStatus::Same);
    assert!(!changes.is_empty());
}

#[test]
fn test_truncate_or_pad() {
    assert_eq!(truncate_or_pad("hello", 10), "hello     ");
    assert_eq!(truncate_or_pad("hello world!", 5), "hello");
    assert_eq!(truncate_or_pad("", 3), "   ");
}

#[test]
fn test_is_binary() {
    assert!(is_binary(&[0x00, 0x01, 0x02]));
    assert!(!is_binary(b"hello world"));
    assert!(!is_binary(&[]));
}

#[test]
fn test_compute_lcs_empty() {
    let left: Vec<String> = Vec::new();
    let right: Vec<String> = Vec::new();
    let lcs = compute_lcs(&left, &right);
    assert!(lcs.is_empty());
}

fn strings(list: &[&str]) -> Vec<String> {
    list.iter().map(|s| s.to_string()).collect()
}

#[test]
fn is_binary_looks_at_the_first_8192_bytes_only() {
    let mut data = vec![b'a'; 8192];
    data.push(0);
    assert!(!is_binary(&data));
    data[8191] = 0;
    assert!(is_binary(&data));
}

#[test]
fn lcs_prefers_giving_up_the_left_line_on_ties() {
    // two longest pairings exist: (0,1) and (1,0)
    let left = strings(&["a", "b"]);
    let right = strings(&["b", "a"]);
    assert_eq!(compute_lcs(&left, &right), vec![(0, 1)]);
    let left = strings(&["x", "a", "b", "c", "y"]);
    let right = strings(&["a", "q", "b", "c"]);
    assert_eq!(compute_lcs(&left, &right), vec![(1, 0), (2, 2), (3, 3)]);
}

#[test]
fn one_pass_pairing_takes_first_matches() {
    let left = strings(&["a", "b", "a", "c"]);
    let right = strings(&["c", "a", "b", "a"]);
    assert_eq!(compute_lcs_simple(&left, &right), vec![(0, 1), (1, 2), (2, 3)]);
    // the longest pairing has three pairs too, but a one-pass pairing can be shorter
    let left = strings(&["z", "a"]);
    let right = strings(&["a", "z"]);
    assert_eq!(compute_lcs_simple(&left, &right), vec![(0, 1)]);
    assert_eq!(compute_lcs_simple(&strings(&[]), &right), vec![]);
}

#[test]
fn large_inputs_are_paired_in_one_pass() {
    let left: Vec<String> = (0..10001).map(|i| format!("l{}", i % 7)).collect();
    let right: Vec<String> = (0..10000).map(|i| format!("l{}", i % 5)).collect();
    assert_eq!(compute_lcs(&left, &right), compute_lcs_simple(&left, &right));
    let small_l: Vec<String> = (0..10000).map(|i| format!("l{}", i % 7)).collect();
    // exactly at the limit the full comparison is made
    let lcs = compute_lcs(&small_l[..50], &right[..50]);
    assert!(lcs.len() >= compute_lcs_simple(&small_l[..50], &right[..50]).len());
}

fn line(
    l: Option<(usize, &str)>,
    r: Option<(usize, &str)>,
    status: DiffLineStatus,
) -> DiffLine {
    DiffLine {
        left_line_no: l.map(|p| p.0),
        left_content: l.map(|p| p.1.to_string()),
        right_line_no: r.map(|p| p.0),
        right_content: r.map(|p| p.1.to_string()),
        line_status: status,
    }
}

#[test]
fn build_diff_lines_lays_out_gaps_and_matches() {
    let left = strings(&["a", "b", "c", "d"]);
    let right = strings(&["a", "x", "y", "z", "d", "e"]);
    let lcs = compute_lcs(&left, &right);
    assert_eq!(lcs, vec![(0, 0), (3, 4)]);
    let (lines, changes) = build_diff_lines(&left, &right, &lcs);
    assert_eq!(
        lines,
        vec![
            line(Some((1, "a")), Some((1, "a")), DiffLineStatus::Same),
            line(Some((2, "b")), Some((2, "x")), DiffLineStatus::Modified),
            line(Some((3, "c")), Some((3, "y")), DiffLineStatus::Modified),
            line(None, Some((4, "z")), DiffLineStatus::RightOnly),
            line(Some((4, "d")), Some((5, "d")), DiffLineStatus::Same),
            line(None, Some((6, "e")), DiffLineStatus::RightOnly),
        ]
    );
    assert_eq!(changes, vec![1, 5]);
}

#[test]
fn emit_gap_notes_one_place_per_gap() {
    let mut li = 2usize;
    let mut ri = 5usize;
    let mut lines = vec![line(Some((1, "k")), Some((1, "k")), DiffLineStatus::Same)];
    let mut changes = Vec::new();
    emit_gap(&strings(&["p", "q"]), &strings(&[]), &mut li, &mut ri, &mut lines, &mut changes);
    assert_eq!(li, 4);
    assert_eq!(ri, 5);
    assert_eq!(changes, vec![1]);
    assert_eq!(lines[1], line(Some((3, "p")), None, DiffLineStatus::LeftOnly));
    assert_eq!(lines[2], line(Some((4, "q")), None, DiffLineStatus::LeftOnly));
    emit_gap(&strings(&[]), &strings(&[]), &mut li, &mut ri, &mut lines, &mut changes);
    assert_eq!(lines.len(), 3);
    assert_eq!(changes, vec![1]);
    // a place that is the last one noted is not noted twice before changed lines
    let mut changes = vec![3usize];
    emit_gap(&strings(&["m"]), &strings(&["n"]), &mut li, &mut ri, &mut lines, &mut changes);
    assert_eq!(changes, vec![3]);
    assert_eq!(lines[3], line(Some((5, "m")), Some((6, "n")), DiffLineStatus::Modified));
}

#[test]
fn truncate_or_pad_handles_tabs_and_wide_characters() {
    assert_eq!(truncate_or_pad("\tx", 8), "    x   ");
    assert_eq!(truncate_or_pad("ab\tx", 8), "ab  x   ");
    assert_eq!(truncate_or_pad("abc\t", 4), "abc ");
    assert_eq!(truncate_or_pad("abcd\te", 6), "abcd  ");
    assert_eq!(truncate_or_pad("한글", 3), "한 ");
    assert_eq!(truncate_or_pad("한글", 4), "한글");
    assert_eq!(truncate_or_pad("a\u{0007}b", 3), "a\u{0007}b ");
    assert_eq!(truncate_or_pad("abc", 0), "");
}

#[test]
fn expand_chars_writes_tabs_as_spaces() {
    assert_eq!(expand_chars("a\tb"), vec!['a', ' ', ' ', ' ', 'b']);
    assert_eq!(expand_chars("\t"), vec![' ', ' ', ' ', ' ']);
    assert_eq!(expand_chars("한\tb"), vec!['한', ' ', ' ', 'b']);
    assert_eq!(expand_chars("abcd\t"), vec!['a', 'b', 'c', 'd', ' ', ' ', ' ', ' ']);
    assert_eq!(expand_chars(""), Vec::<char>::new());
}

#[test]
fn diff_view_of_two_texts() {
    let state = DiffFileViewState::new(
        "/l/a.txt".to_string(),
        "/r/a.txt".to_string(),
        "a.txt".to_string(),
        Some(b"one\ntwo\nthree\n".to_vec()),
        Some(b"one\r\n2\nthree".to_vec()),
    );
    assert_eq!(state.left_total_lines, 3);
    assert_eq!(state.right_total_lines, 3);
    assert_eq!(state.diff_lines.len(), 3);
    assert_eq!(state.diff_lines[1], line(Some((2, "two")), Some((2, "2")), DiffLineStatus::Modified));
    assert_eq!(state.change_positions, vec![1]);
    assert_eq!(state.scroll, 0);
    assert_eq!(state.file_name, "a.txt");
}

#[test]
fn diff_view_of_binary_and_missing_files() {
    let state = DiffFileViewState::new(
        "l".to_string(),
        "r".to_string(),
        "f".to_string(),
        Some(vec![1, 0, 2]),
        Some(b"text".to_vec()),
    );
    assert_eq!(state.diff_lines, vec![line(None, None, DiffLineStatus::Same)].into_iter().map(|mut l| {
        l.left_content = Some("Binary file".to_string());
        l.right_content = Some("Binary file".to_string());
        l
    }).collect::<Vec<_>>());
    assert!(state.change_positions.is_empty());
    assert_eq!(state.left_total_lines, 0);

    let state = DiffFileViewState::new(
        "l".to_string(),
        "r".to_string(),
        "f".to_string(),
        None,
        Some(b"x\ny\n".to_vec()),
    );
    assert_eq!(
        state.diff_lines,
        vec![
            line(None, Some((1, "x")), DiffLineStatus::RightOnly),
            line(None, Some((2, "y")), DiffLineStatus::RightOnly),
        ]
    );
    assert_eq!(state.change_positions, vec![0]);
    assert_eq!(state.left_total_lines, 0);
    assert_eq!(state.right_total_lines, 2);

    let state = DiffFileViewState::new(
        "l".to_string(),
        "r".to_string(),
        "f".to_string(),
        Some(b"x\n".to_vec()),
        None,
    );
    assert_eq!(state.diff_lines, vec![line(Some((1, "x")), None, DiffLineStatus::LeftOnly)]);
    assert_eq!(state.change_positions, vec![0]);

    let state = DiffFileViewState::new("l".into(), "r".into(), "f".into(), None, None);
    assert!(state.diff_lines.is_empty());
    assert!(state.change_positions.is_empty());

    // bytes that are no UTF-8 are shown with the replacement character
    let state = DiffFileViewState::new("l".into(), "r".into(), "f".into(), Some(vec![0xff, b'a']), None);
    assert_eq!(state.diff_lines[0].left_content, Some("\u{fffd}a".to_string()));
}

#[test]
fn diff_view_keys_scroll_and_jump() {
    let left: Vec<u8> = (0..40).map(|i| format!("l{}\n", i)).collect::<String>().into_bytes();
    let mut right_text: Vec<String> = (0..40).map(|i| format!("l{}\n", i)).collect();
    right_text[10] = "changed\n".to_string();
    right_text[30] = "changed too\n".to_string();
    let right = right_text.concat().into_bytes();
    let mut state =
        DiffFileViewState::new("l".into(), "r".into(), "f".into(), Some(left), Some(right));
    assert_eq!(state.change_positions, vec![10, 30]);
    state.visible_height = 8;
    assert!(!handle_input(&mut state, DiffKey::Up));
    assert_eq!(state.scroll, 0);
    handle_input(&mut state, DiffKey::Down);
    assert_eq!(state.scroll, 1);
    handle_input(&mut state, DiffKey::PageDown);
    assert_eq!(state.scroll, 9);
    handle_input(&mut state, DiffKey::End);
    assert_eq!(state.scroll, 32);
    handle_input(&mut state, DiffKey::Down);
    assert_eq!(state.scroll, 32);
    handle_input(&mut state, DiffKey::PageDown);
    assert_eq!(state.scroll, 32);
    handle_input(&mut state, DiffKey::PageUp);
    assert_eq!(state.scroll, 24);
    handle_input(&mut state, DiffKey::Home);
    assert_eq!(state.scroll, 0);
    handle_input(&mut state, DiffKey::NextChange);
    assert_eq!(state.current_change, 1);
    assert_eq!(state.scroll, 28);
    handle_input(&mut state, DiffKey::NextChange);
    assert_eq!(state.current_change, 1);
    handle_input(&mut state, DiffKey::PreviousChange);
    assert_eq!(state.current_change, 0);
    assert_eq!(state.scroll, 8);
    handle_input(&mut state, DiffKey::PreviousChange);
    assert_eq!(state.current_change, 0);
    handle_input(&mut state, DiffKey::Other);
    assert_eq!(state.scroll, 8);
    assert!(handle_input(&mut state, DiffKey::Close));
}

#[test]
fn a_comparison_shows_every_line_of_each_file_once_with_its_number() {
    let left: Vec<String> = ["a", "b", "c", "d", "e", "f"].iter().map(|t| t.to_string()).collect();
    let right: Vec<String> = ["x", "a", "c", "y", "z", "f", "g", "h"].iter().map(|t| t.to_string()).collect();
    let lcs = compute_lcs(&left, &right);
    assert_eq!(lcs, vec![(0, 1), (2, 2), (5, 5)]);
    let (lines, _) = build_diff_lines(&left, &right, &lcs);
    let shown_left: Vec<(usize, String)> = lines
        .iter()
        .filter_map(|l| l.left_line_no.map(|n| (n, l.left_content.clone().unwrap())))
        .collect();
    let shown_right: Vec<(usize, String)> = lines
        .iter()
        .filter_map(|l| l.right_line_no.map(|n| (n, l.right_content.clone().unwrap())))
        .collect();
    let numbered = |file: &Vec<String>| -> Vec<(usize, String)> {
        file.iter().enumerate().map(|(i, t)| (i + 1, t.clone())).collect()
    };
    assert_eq!(shown_left, numbered(&left));
    assert_eq!(shown_right, numbered(&right));
    // nothing against nothing
    let (lines, changes) = build_diff_lines(&[], &[], &[]);
    assert!(lines.is_empty() && changes.is_empty());
}
