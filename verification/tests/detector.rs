use language_detector::detector::{
    common_language_names, sample_len, BufferInfo, LanguageDetector, DEBOUNCE_MS, SAMPLE_MAX_BYTES,
    SAMPLE_MIN_BYTES,
};
use language_detector::scoring::{Candidate, LanguageId, ParsedSample};
use language_detector::syntax::SyntaxNode;

const PLAIN: LanguageId = LanguageId(0);

fn buffer(has_file: bool, len: usize, language: Option<usize>) -> BufferInfo {
    BufferInfo { has_file, len, language: language.map(LanguageId), plain_text: PLAIN }
}

fn clean(len: usize) -> Option<ParsedSample> {
    Some(ParsedSample {
        tree: SyntaxNode { start_byte: 0, end_byte: len, is_error: false, is_missing: false, children: vec![] },
        highlights: None,
    })
}

#[test]
fn constants() {
    assert_eq!(SAMPLE_MIN_BYTES, 50);
    assert_eq!(SAMPLE_MAX_BYTES, 8192);
    assert_eq!(DEBOUNCE_MS, 300);
}

#[test]
fn new_detector_holds_nothing() {
    let d = LanguageDetector::new();
    assert!(!d.detection_task && !d.registry_watcher && !d.preload_task);
    assert_eq!(d.last_detected, None);
}

#[test]
fn should_detect_rules() {
    let d = LanguageDetector::new();
    assert!(!d.should_detect(&buffer(true, 1000, None)));
    assert!(!d.should_detect(&buffer(false, 49, None)));
    assert!(d.should_detect(&buffer(false, 50, None)));
    assert!(d.should_detect(&buffer(false, 50, Some(0))));
    assert!(!d.should_detect(&buffer(false, 500, Some(7))));
}

#[test]
fn schedule_spawns_background_tasks_once() {
    let mut d = LanguageDetector::new();
    let b = buffer(false, 100, None);
    let first = d.schedule(&b);
    assert!(first.spawn_preload && first.spawn_registry_watcher && first.spawn_detection);
    let second = d.schedule(&b);
    assert!(!second.spawn_preload && !second.spawn_registry_watcher && second.spawn_detection);
    assert!(d.detection_task && d.registry_watcher && d.preload_task);
}

#[test]
fn schedule_does_nothing_when_not_wanted() {
    let mut d = LanguageDetector::new();
    let a = d.schedule(&buffer(false, 10, None));
    assert!(!a.spawn_preload && !a.spawn_registry_watcher && !a.spawn_detection);
    assert!(!d.detection_task && !d.registry_watcher && !d.preload_task);
}

#[test]
fn own_detection_is_redetected_foreign_is_not() {
    let mut d = LanguageDetector::new();
    let sample = [b'x'; 100];
    let candidates = vec![Candidate { id: LanguageId(9), parsed: None }, Candidate { id: LanguageId(5), parsed: clean(100) }];
    assert_eq!(d.finish_detection(&sample, &candidates), Some(1));
    assert_eq!(d.last_detected, Some(LanguageId(5)));
    assert!(d.should_detect(&buffer(false, 100, Some(5))));
    assert!(d.watcher_should_run(&buffer(false, 100, Some(5))));
    assert!(!d.should_detect(&buffer(false, 100, Some(6))));
    assert!(!d.watcher_should_run(&buffer(false, 100, Some(6))));
}

#[test]
fn finish_detection_without_match_keeps_state() {
    let mut d = LanguageDetector::new();
    let sample = [b'x'; 100];
    assert_eq!(d.finish_detection(&sample, &vec![]), None);
    assert_eq!(d.finish_detection(&sample, &vec![Candidate { id: LanguageId(3), parsed: None }]), None);
    assert_eq!(d.last_detected, None);
}

#[test]
fn stop_forgets_everything() {
    let mut d = LanguageDetector::new();
    d.schedule(&buffer(false, 100, None));
    let sample = [b'x'; 100];
    d.finish_detection(&sample, &vec![Candidate { id: LanguageId(5), parsed: clean(100) }]);
    d.stop();
    assert!(!d.detection_task && !d.registry_watcher && !d.preload_task);
    assert_eq!(d.last_detected, None);
    assert!(!d.should_detect(&buffer(false, 100, Some(5))));
    let again = d.schedule(&buffer(false, 100, None));
    assert!(again.spawn_preload && again.spawn_registry_watcher && again.spawn_detection);
}

#[test]
fn watcher_check_matches_schedule_check() {
    let mut d = LanguageDetector::new();
    let cases = [
        buffer(true, 100, None),
        buffer(false, 10, None),
        buffer(false, 100, None),
        buffer(false, 100, Some(0)),
        buffer(false, 100, Some(4)),
    ];
    for b in &cases {
        assert_eq!(d.watcher_should_run(b), d.should_detect(b));
    }
    let sample = [b'x'; 100];
    d.finish_detection(&sample, &vec![Candidate { id: LanguageId(4), parsed: clean(100) }]);
    for b in &cases {
        assert_eq!(d.watcher_should_run(b), d.should_detect(b));
    }
}

#[test]
fn sample_length() {
    assert_eq!(sample_len(0), None);
    assert_eq!(sample_len(49), None);
    assert_eq!(sample_len(50), Some(50));
    assert_eq!(sample_len(8191), Some(8191));
    assert_eq!(sample_len(8192), Some(8192));
    assert_eq!(sample_len(100_000), Some(8192));
}

#[test]
fn preloaded_languages() {
    assert_eq!(
        common_language_names(),
        vec!["JSON", "YAML", "HTML", "Markdown", "Rust", "Python", "JavaScript", "TypeScript", "Go", "C", "C++", "Shell Script", "Ruby", "CSS"]
    );
}
