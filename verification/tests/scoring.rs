use language_detector::magika_detector::{content_kind_for_label, language_name_for_found};
use language_detector::content_type::{content_type_to_language_name, ContentKind};
use language_detector::coverage::{covered_bytes, distinct_count, ByteRange};
use language_detector::scoring::{best_match, score_language, Candidate, Capture, LanguageId, ParsedSample};
use language_detector::syntax::{count_error_bytes, SyntaxNode};

fn leaf(start: usize, end: usize) -> SyntaxNode {
    SyntaxNode { start_byte: start, end_byte: end, is_error: false, is_missing: false, children: vec![] }
}

fn error(start: usize, end: usize, children: Vec<SyntaxNode>) -> SyntaxNode {
    SyntaxNode { start_byte: start, end_byte: end, is_error: true, is_missing: false, children }
}

fn missing(at: usize) -> SyntaxNode {
    SyntaxNode { start_byte: at, end_byte: at, is_error: false, is_missing: true, children: vec![] }
}

fn node(start: usize, end: usize, children: Vec<SyntaxNode>) -> SyntaxNode {
    SyntaxNode { start_byte: start, end_byte: end, is_error: false, is_missing: false, children }
}

fn range(start: usize, end: usize) -> ByteRange {
    ByteRange { start, end }
}

fn capture(name: u32, start: usize, end: usize) -> Capture {
    Capture { name, range: range(start, end) }
}

#[test]
fn error_bytes_of_clean_tree_is_zero() {
    let tree = node(0, 100, vec![leaf(0, 40), node(40, 100, vec![leaf(40, 60), leaf(60, 100)])]);
    assert_eq!(count_error_bytes(&tree, 100), 0);
}

#[test]
fn error_bytes_counts_error_and_missing_nodes() {
    let tree = node(0, 100, vec![leaf(0, 10), error(10, 30, vec![]), node(30, 100, vec![error(50, 55, vec![]), missing(70)])]);
    assert_eq!(count_error_bytes(&tree, 100), 25);
}

#[test]
fn error_bytes_does_not_descend_into_errors() {
    // The nested error inside an error is not counted a second time.
    let tree = node(0, 100, vec![error(0, 40, vec![error(10, 20, vec![]), leaf(20, 40)])]);
    assert_eq!(count_error_bytes(&tree, 100), 40);
}

#[test]
fn error_bytes_of_error_root_is_whole_range() {
    let tree = error(0, 80, vec![leaf(0, 10)]);
    assert_eq!(count_error_bytes(&tree, 100), 80);
}

#[test]
fn error_bytes_capped_at_text_length() {
    let tree = node(0, 100, vec![error(0, 90, vec![]), error(80, 100, vec![])]);
    assert_eq!(count_error_bytes(&tree, 100), 100);
    assert_eq!(count_error_bytes(&tree, 50), 50);
}

#[test]
fn covered_bytes_merges_overlaps() {
    assert_eq!(covered_bytes(vec![]), 0);
    assert_eq!(covered_bytes(vec![range(0, 10)]), 10);
    assert_eq!(covered_bytes(vec![range(0, 10), range(5, 15)]), 15);
    assert_eq!(covered_bytes(vec![range(0, 10), range(20, 30)]), 20);
    // A node with nested captured children counts once.
    assert_eq!(covered_bytes(vec![range(0, 50), range(0, 8), range(10, 20), range(30, 50)]), 50);
    // Empty ranges count nothing.
    assert_eq!(covered_bytes(vec![range(5, 5), range(7, 7)]), 0);
}

#[test]
fn covered_bytes_sorts_before_merging() {
    assert_eq!(covered_bytes(vec![range(10, 20), range(0, 15)]), 20);
    assert_eq!(covered_bytes(vec![range(40, 50), range(30, 45), range(0, 5), range(3, 10)]), 30);
}

#[test]
fn distinct_count_counts_each_name_once() {
    assert_eq!(distinct_count(&vec![]), 0);
    assert_eq!(distinct_count(&vec![3, 3, 3]), 1);
    assert_eq!(distinct_count(&vec![1, 2, 1, 4, 2, 9]), 4);
}

fn parsed(tree: SyntaxNode, highlights: Option<Vec<Capture>>) -> Option<ParsedSample> {
    Some(ParsedSample { tree, highlights })
}

#[test]
fn score_without_parse_or_text_is_zero() {
    let text = [b'x'; 100];
    assert_eq!(score_language(&None, &text), 0);
    assert_eq!(score_language(&parsed(leaf(0, 0), None), &[]), 0);
}

#[test]
fn score_of_clean_parse_without_highlights() {
    // Parse quality 1.0 with weight 0.3: 30 points per byte out of 100.
    let text = [b'x'; 100];
    assert_eq!(score_language(&parsed(node(0, 100, vec![]), None), &text), 3000);
    assert_eq!(score_language(&parsed(node(0, 100, vec![]), Some(vec![])), &text), 3000);
}

#[test]
fn score_rejects_mostly_errors() {
    let text = [b'x'; 100];
    let half = node(0, 100, vec![error(0, 50, vec![])]);
    // Exactly half the bytes in errors is still accepted: quality 0.5.
    assert_eq!(score_language(&parsed(half, None), &text), 1500);
    let more = node(0, 100, vec![error(0, 51, vec![])]);
    assert_eq!(score_language(&parsed(more, Some(vec![capture(0, 0, 100)])), &text), 0);
}

#[test]
fn score_combines_all_three_signals() {
    let text = [b'x'; 100];
    let tree = node(0, 100, vec![error(90, 100, vec![])]);
    let captures = vec![capture(0, 0, 40), capture(1, 20, 60), capture(0, 70, 80)];
    // quality 0.9 -> 2700, coverage 0.7 -> 2100, diversity 2/10 -> 800.
    assert_eq!(score_language(&parsed(tree, Some(captures)), &text), 5600);
}

#[test]
fn score_caps_coverage_and_diversity() {
    let text = [b'x'; 10];
    let captures: Vec<Capture> = (0..12).map(|i| capture(i, 0, 20)).collect();
    // quality 1.0 -> 300, coverage capped at 1.0 -> 300, diversity capped -> 400.
    assert_eq!(score_language(&parsed(node(0, 10, vec![]), Some(captures)), &text), 1000);
}

fn candidate(id: usize, parsed: Option<ParsedSample>) -> Candidate {
    Candidate { id: LanguageId(id), parsed }
}

#[test]
fn best_match_of_no_candidates_is_none() {
    let text = [b'x'; 100];
    assert_eq!(best_match(&text, &vec![]), None);
}

#[test]
fn best_match_ignores_scores_at_or_below_threshold() {
    let text = [b'x'; 100];
    let candidates = vec![candidate(1, None), candidate(2, parsed(node(0, 100, vec![error(0, 60, vec![])]), None))];
    assert_eq!(best_match(&text, &candidates), None);
}

#[test]
fn best_match_picks_highest_score() {
    let text = [b'x'; 100];
    let candidates = vec![
        candidate(1, parsed(node(0, 100, vec![]), None)),
        candidate(2, parsed(node(0, 100, vec![]), Some(vec![capture(0, 0, 100), capture(1, 0, 10)]))),
        candidate(3, None),
    ];
    assert_eq!(best_match(&text, &candidates), Some(1));
}

#[test]
fn best_match_takes_first_of_equal_scores() {
    let text = [b'x'; 100];
    let candidates = vec![
        candidate(1, None),
        candidate(2, parsed(node(0, 100, vec![]), Some(vec![capture(5, 0, 50)]))),
        candidate(3, parsed(node(0, 100, vec![]), Some(vec![capture(7, 50, 100)]))),
    ];
    assert_eq!(best_match(&text, &candidates), Some(1));
}

#[test]
fn best_match_on_empty_text_is_none() {
    let candidates = vec![candidate(1, parsed(leaf(0, 0), None))];
    assert_eq!(best_match(&[], &candidates), None);
}

#[test]
fn content_types_map_to_language_names() {
    let expected = [
        (ContentKind::C, Some("C")),
        (ContentKind::Cpp, Some("C++")),
        (ContentKind::Css, Some("CSS")),
        (ContentKind::Diff, Some("Diff")),
        (ContentKind::Go, Some("Go")),
        (ContentKind::Html, Some("HTML")),
        (ContentKind::Javascript, Some("JavaScript")),
        (ContentKind::Json, Some("JSON")),
        (ContentKind::Markdown, Some("Markdown")),
        (ContentKind::Python, Some("Python")),
        (ContentKind::Ruby, Some("Ruby")),
        (ContentKind::Rust, Some("Rust")),
        (ContentKind::Shell, Some("Shell Script")),
        (ContentKind::Sql, Some("SQL")),
        (ContentKind::Swift, Some("Swift")),
        (ContentKind::Toml, Some("TOML")),
        (ContentKind::Typescript, Some("TypeScript")),
        (ContentKind::Xml, Some("XML")),
        (ContentKind::Yaml, Some("YAML")),
        (ContentKind::Other, None),
    ];
    for (kind, name) in expected {
        assert_eq!(content_type_to_language_name(kind), name);
    }
}

#[test]
fn fewer_errors_never_score_lower() {
    let text = [b'x'; 100];
    let highlights = Some(vec![capture(0, 0, 30), capture(1, 40, 70)]);
    let fewer = score_language(&parsed(node(0, 100, vec![error(0, 10, vec![])]), highlights.clone()), &text);
    let more = score_language(&parsed(node(0, 100, vec![error(0, 30, vec![])]), highlights), &text);
    assert!(fewer >= more);
    assert_eq!(fewer - more, 600);
}

#[test]
fn coverage_order_does_not_matter() {
    let a = vec![range(0, 10), range(5, 25), range(40, 45)];
    let b = vec![range(40, 45), range(5, 25), range(0, 10)];
    assert_eq!(covered_bytes(a), covered_bytes(b));
}

#[test]
fn magika_labels_map_to_language_names() {
    let expected = [
        ("c", Some("C")),
        ("cpp", Some("C++")),
        ("css", Some("CSS")),
        ("diff", Some("Diff")),
        ("go", Some("Go")),
        ("html", Some("HTML")),
        ("javascript", Some("JavaScript")),
        ("json", Some("JSON")),
        ("markdown", Some("Markdown")),
        ("python", Some("Python")),
        ("ruby", Some("Ruby")),
        ("rust", Some("Rust")),
        ("shell", Some("Shell Script")),
        ("sql", Some("SQL")),
        ("swift", Some("Swift")),
        ("toml", Some("TOML")),
        ("typescript", Some("TypeScript")),
        ("xml", Some("XML")),
        ("yaml", Some("YAML")),
        ("png", None),
        ("C", None),
        ("", None),
    ];
    for (label, name) in expected {
        assert_eq!(language_name_for_found(&Some(label.to_string())), name);
    }
    assert_eq!(language_name_for_found(&None), None);
    assert_eq!(content_kind_for_label(&"shell".to_string()), ContentKind::Shell);
    assert_eq!(content_kind_for_label(&"zip".to_string()), ContentKind::Other);
}
