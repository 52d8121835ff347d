//! When a detection runs on a buffer, and what the detector keeps between
//! runs.
//!
//! The detector is a state machine: the editor reports the buffer to
//! `schedule`, the outcome of a finished detection to `finish_detection`, and
//! a change of the language registry to `watcher_should_run`; each answers
//! with what to do next (spawn a task, set the buffer's language, stop
//! watching). Running the tasks, the debounce timer and the parsers is the
//! editor's part.

use vstd::prelude::*;
use crate::scoring::{Candidate, LanguageId, best_match, is_best_match, candidate_points, above_threshold};

verus! {

/// Buffers shorter than this are never detected: too little text to judge.
pub const SAMPLE_MIN_BYTES: usize = 50;

/// At most this many bytes from the start of the buffer are sampled.
pub const SAMPLE_MAX_BYTES: usize = 8192;

/// How long a scheduled detection waits for the buffer to settle.
pub const DEBOUNCE_MS: u64 = 300;

/// What the detector reads of a buffer: whether it is backed by a file, its
/// length in bytes, the id of its current language (if any) and the id of
/// the plain-text language.
#[derive(Clone, Copy)]
pub struct BufferInfo {
    pub has_file: bool,
    pub len: usize,
    pub language: Option<LanguageId>,
    pub plain_text: LanguageId,
}

/// The buffer's language is plain text, or it has none.
pub open spec fn is_plain_text(buffer: BufferInfo) -> bool {
    match buffer.language {
        None => true,
        Some(id) => id == buffer.plain_text,
    }
}

/// A detection is wanted for `buffer`, given the language that the detector
/// itself last set (`last_detected`): never for a file-backed buffer or one
/// shorter than `SAMPLE_MIN_BYTES`; always for plain text; otherwise only
/// when the current language is the one the detector set.
pub open spec fn wants_detection(buffer: BufferInfo, last_detected: Option<LanguageId>) -> bool {
    &&& !buffer.has_file
    &&& buffer.len >= SAMPLE_MIN_BYTES
    &&& (is_plain_text(buffer) || (last_detected is Some && buffer.language == last_detected))
}

/// The state of a detector: which of its tasks it holds (a held task keeps
/// running until it ends or is replaced) and the language it last set on the
/// buffer.
pub struct LanguageDetector {
    pub detection_task: bool,
    pub registry_watcher: bool,
    pub preload_task: bool,
    pub last_detected: Option<LanguageId>,
}

/// What `schedule` asks the editor to do.
#[derive(Clone, Copy)]
pub struct ScheduleActions {
    /// Spawn the background task that loads the common languages.
    pub spawn_preload: bool,
    /// Spawn the task that re-runs detection when the registry changes.
    pub spawn_registry_watcher: bool,
    /// Spawn a debounced detection, replacing (and so cancelling) any
    /// detection task held before.
    pub spawn_detection: bool,
}

/// A detector that holds no task and has set no language.
pub open spec fn idle_detector() -> LanguageDetector {
    LanguageDetector {
        detection_task: false,
        registry_watcher: false,
        preload_task: false,
        last_detected: None,
    }
}

/// The state after `schedule` on `buffer`, and the actions it asks for.
pub open spec fn schedule_step(d: LanguageDetector, buffer: BufferInfo) -> (
    LanguageDetector,
    ScheduleActions,
) {
    if wants_detection(buffer, d.last_detected) {
        (
            LanguageDetector {
                detection_task: true,
                registry_watcher: true,
                preload_task: true,
                last_detected: d.last_detected,
            },
            ScheduleActions {
                spawn_preload: !d.preload_task,
                spawn_registry_watcher: !d.registry_watcher,
                spawn_detection: true,
            },
        )
    } else {
        (d, ScheduleActions { spawn_preload: false, spawn_registry_watcher: false, spawn_detection: false })
    }
}

/// Length of the sample taken from a buffer snapshot of `len` bytes: none
/// below `SAMPLE_MIN_BYTES`, else the first `SAMPLE_MAX_BYTES` bytes at most.
pub open spec fn sample_len_for(len: nat) -> Option<nat> {
    if len < SAMPLE_MIN_BYTES {
        None
    } else if len < SAMPLE_MAX_BYTES {
        Some(len)
    } else {
        Some(SAMPLE_MAX_BYTES as nat)
    }
}

impl LanguageDetector {
    /// A detector that holds no task and has set no language.
    pub fn new() -> (d: LanguageDetector)
        ensures
            d == idle_detector(),
    {
        LanguageDetector {
            detection_task: false,
            registry_watcher: false,
            preload_task: false,
            last_detected: None,
        }
    }

    /// Whether a detection should run on `buffer` now.
    pub fn should_detect(&self, buffer: &BufferInfo) -> (wanted: bool)
        ensures
            wanted == wants_detection(*buffer, self.last_detected),
            buffer.has_file ==> !wanted,
            buffer.len < SAMPLE_MIN_BYTES ==> !wanted,
    {
        if buffer.has_file {
            return false;
        }
        if buffer.len < SAMPLE_MIN_BYTES {
            return false;
        }
        let is_plain = match buffer.language {
            None => true,
            Some(id) => id == buffer.plain_text,
        };
        if is_plain {
            return true;
        }
        // Re-detect only a language that this detector set itself.
        match self.last_detected {
            Some(detected) => match buffer.language {
                Some(current) => current == detected,
                None => false,
            },
            None => false,
        }
    }

    /// Reacts to the buffer being shown or edited: when a detection is
    /// wanted, (re)starts a debounced detection and starts the preload and
    /// the registry watcher if they are not held yet; otherwise does
    /// nothing.
    pub fn schedule(&mut self, buffer: &BufferInfo) -> (actions: ScheduleActions)
        ensures
            (*final(self), actions) == schedule_step(*old(self), *buffer),
    {
        if !self.should_detect(buffer) {
            return ScheduleActions {
                spawn_preload: false,
                spawn_registry_watcher: false,
                spawn_detection: false,
            };
        }
        let spawn_preload = !self.preload_task;
        self.preload_task = true;
        let spawn_registry_watcher = !self.registry_watcher;
        self.registry_watcher = true;
        self.detection_task = true;
        ScheduleActions { spawn_preload, spawn_registry_watcher, spawn_detection: true }
    }

    /// Drops every task (cancelling it) and forgets the language it set.
    pub fn stop(&mut self)
        ensures
            *final(self) == idle_detector(),
    {
        self.detection_task = false;
        self.registry_watcher = false;
        self.preload_task = false;
        self.last_detected = None;
    }

    /// The registry watcher's check, after each change of the language
    /// registry: whether to run detection again (`false` ends the watch).
    pub fn watcher_should_run(&self, buffer: &BufferInfo) -> (run: bool)
        ensures
            run == watcher_wants(*buffer, self.last_detected),
    {
        if buffer.has_file || buffer.len < SAMPLE_MIN_BYTES {
            return false;
        }
        let is_plain = match buffer.language {
            None => true,
            Some(id) => id == buffer.plain_text,
        };
        if is_plain {
            return true;
        }
        // Re-detect only a language that this detector set itself.
        match self.last_detected {
            Some(detected) => match buffer.language {
                Some(current) => current == detected,
                None => false,
            },
            None => false,
        }
    }

    /// Records the outcome of a detection on `sample` over `candidates`:
    /// picks the best match (see `best_match`) and, when there is one,
    /// remembers its language as set by this detector. The editor then sets
    /// that candidate's language on the buffer.
    pub fn finish_detection(&mut self, sample: &[u8], candidates: &Vec<Candidate>) -> (chosen:
        Option<usize>)
        ensures
            match chosen {
                Some(k) => {
                    &&& is_best_match(candidates@, sample@, k as int)
                    &&& final(self).last_detected == Some(candidates@[k as int].id)
                },
                None => {
                    &&& forall|j: int|
                        0 <= j < candidates@.len() ==> !above_threshold(
                            #[trigger] candidate_points(candidates@, sample@, j),
                            sample@.len(),
                        )
                    &&& final(self).last_detected == old(self).last_detected
                },
            },
            final(self).detection_task == old(self).detection_task,
            final(self).registry_watcher == old(self).registry_watcher,
            final(self).preload_task == old(self).preload_task,
    {
        if candidates.len() == 0 {
            return None;
        }
        let chosen: Option<usize> = best_match(sample, candidates);
        match chosen {
            Some(k) => {
                self.last_detected = Some(candidates[k].id);
            },
            None => {},
        }
        chosen
    }
}

/// The registry watcher's condition, as its check states it.
pub open spec fn watcher_wants(buffer: BufferInfo, last_detected: Option<LanguageId>) -> bool {
    if buffer.has_file || buffer.len < SAMPLE_MIN_BYTES {
        false
    } else if is_plain_text(buffer) {
        true
    } else {
        match last_detected {
            Some(detected) => buffer.language == Some(detected),
            None => false,
        }
    }
}

/// How many bytes of a buffer snapshot of `len` bytes to sample, if any.
pub fn sample_len(len: usize) -> (n: Option<usize>)
    ensures
        match n {
            Some(k) => {
                &&& sample_len_for(len as nat) == Some(k as nat)
                &&& SAMPLE_MIN_BYTES <= k <= SAMPLE_MAX_BYTES
                &&& k <= len
                &&& (k == len || k == SAMPLE_MAX_BYTES)
            },
            None => sample_len_for(len as nat) is None,
        },
        n is None <==> len < SAMPLE_MIN_BYTES,
{
    if len < SAMPLE_MIN_BYTES {
        None
    } else if len < SAMPLE_MAX_BYTES {
        Some(len)
    } else {
        Some(SAMPLE_MAX_BYTES)
    }
}


/// The languages loaded in the background when detection first starts, so
/// that the common ones are ready as candidates.
pub fn common_language_names() -> (names: Vec<&'static str>)
    ensures
        names@.len() == 14,
        names@[0]@ == "JSON"@,
        names@[1]@ == "YAML"@,
        names@[2]@ == "HTML"@,
        names@[3]@ == "Markdown"@,
        names@[4]@ == "Rust"@,
        names@[5]@ == "Python"@,
        names@[6]@ == "JavaScript"@,
        names@[7]@ == "TypeScript"@,
        names@[8]@ == "Go"@,
        names@[9]@ == "C"@,
        names@[10]@ == "C++"@,
        names@[11]@ == "Shell Script"@,
        names@[12]@ == "Ruby"@,
        names@[13]@ == "CSS"@,
{
    vec![
        "JSON",
        "YAML",
        "HTML",
        "Markdown",
        "Rust",
        "Python",
        "JavaScript",
        "TypeScript",
        "Go",
        "C",
        "C++",
        "Shell Script",
        "Ruby",
        "CSS",
    ]
}

/// The registry watcher re-runs detection exactly when `schedule` would
/// start one: the two checks agree on every buffer and every remembered
/// language.
pub proof fn lemma_watcher_agrees_with_schedule(
    buffer: BufferInfo,
    last_detected: Option<LanguageId>,
)
    ensures
        watcher_wants(buffer, last_detected) == wants_detection(buffer, last_detected),
{
}

/// A buffer whose language the detector set itself is detected again, as
/// long as it is not backed by a file and is long enough.
pub proof fn lemma_own_language_detected_again(d: LanguageDetector, buffer: BufferInfo)
    requires
        d.last_detected is Some,
        buffer.language == d.last_detected,
        !buffer.has_file,
        buffer.len >= SAMPLE_MIN_BYTES,
    ensures
        wants_detection(buffer, d.last_detected),
        schedule_step(d, buffer).1.spawn_detection,
{
}

/// A buffer whose language was set by someone else (not plain text, and not
/// the language the detector last set) is left alone: `schedule` does
/// nothing and changes nothing.
pub proof fn lemma_foreign_language_left_alone(d: LanguageDetector, buffer: BufferInfo)
    requires
        !is_plain_text(buffer),
        buffer.language != d.last_detected,
    ensures
        !wants_detection(buffer, d.last_detected),
        schedule_step(d, buffer).0 == d,
        !schedule_step(d, buffer).1.spawn_detection,
        !schedule_step(d, buffer).1.spawn_preload,
        !schedule_step(d, buffer).1.spawn_registry_watcher,
{
}

/// After `stop`, the detector has forgotten the language it set: a buffer
/// with any language other than plain text is not detected again.
pub proof fn lemma_stop_forgets_detection(buffer: BufferInfo)
    requires
        !is_plain_text(buffer),
    ensures
        !schedule_step(idle_detector(), buffer).1.spawn_detection,
{
}

/// Once held, the preload and the registry watcher are never spawned again
/// (until `stop`), and `schedule` never changes the remembered language.
pub proof fn lemma_background_tasks_spawned_once(d: LanguageDetector, buffer: BufferInfo)
    ensures
        d.preload_task ==> !schedule_step(d, buffer).1.spawn_preload,
        d.preload_task ==> schedule_step(d, buffer).0.preload_task,
        d.registry_watcher ==> !schedule_step(d, buffer).1.spawn_registry_watcher,
        d.registry_watcher ==> schedule_step(d, buffer).0.registry_watcher,
        schedule_step(d, buffer).0.last_detected == d.last_detected,
{
}

/// Two calls of `schedule` in a row spawn the preload and the watcher at
/// most once between them, whatever the buffers.
pub proof fn lemma_schedule_twice(d: LanguageDetector, first: BufferInfo, second: BufferInfo)
    ensures
        !(schedule_step(d, first).1.spawn_preload && schedule_step(
            schedule_step(d, first).0,
            second,
        ).1.spawn_preload),
        !(schedule_step(d, first).1.spawn_registry_watcher && schedule_step(
            schedule_step(d, first).0,
            second,
        ).1.spawn_registry_watcher),
{
}


/// An untitled buffer of at least `SAMPLE_MIN_BYTES` bytes whose language is
/// plain text, or unset, is always detected: `schedule` asks for a detection,
/// spawns the preload and the registry watcher exactly when it does not hold
/// them yet, keeps all three tasks afterwards, and leaves the remembered
/// language as it was. This holds in every detector state.
pub proof fn lemma_plain_text_always_scheduled(d: LanguageDetector, buffer: BufferInfo)
    requires
        !buffer.has_file,
        buffer.len >= SAMPLE_MIN_BYTES,
        buffer.language is None || buffer.language == Some(buffer.plain_text),
    ensures
        schedule_step(d, buffer).1.spawn_detection,
        schedule_step(d, buffer).1.spawn_preload == !d.preload_task,
        schedule_step(d, buffer).1.spawn_registry_watcher == !d.registry_watcher,
        schedule_step(d, buffer).0.detection_task,
        schedule_step(d, buffer).0.preload_task,
        schedule_step(d, buffer).0.registry_watcher,
        schedule_step(d, buffer).0.last_detected == d.last_detected,
{
}

/// An untitled plain-text (or unset) buffer of at least `SAMPLE_MIN_BYTES`
/// bytes is detected, and the registry watcher keeps running for it, however
/// long it is and whatever language the detector remembers.
pub proof fn lemma_plain_text_always_wanted(buffer: BufferInfo, last_detected: Option<LanguageId>)
    requires
        !buffer.has_file,
        buffer.len >= SAMPLE_MIN_BYTES,
        buffer.language is None || buffer.language == Some(buffer.plain_text),
    ensures
        wants_detection(buffer, last_detected),
        watcher_wants(buffer, last_detected),
{
}

/// Above `SAMPLE_MIN_BYTES`, the length of a buffer does not matter to
/// either check: two buffers that differ only in length decide alike.
pub proof fn lemma_length_irrelevant_above_minimum(
    a: BufferInfo,
    b: BufferInfo,
    last_detected: Option<LanguageId>,
)
    requires
        a.has_file == b.has_file,
        a.language == b.language,
        a.plain_text == b.plain_text,
        a.len >= SAMPLE_MIN_BYTES,
        b.len >= SAMPLE_MIN_BYTES,
    ensures
        wants_detection(a, last_detected) == wants_detection(b, last_detected),
        watcher_wants(a, last_detected) == watcher_wants(b, last_detected),
{
}

/// The sample is taken exactly when the buffer has at least
/// `SAMPLE_MIN_BYTES` bytes, and then it is the smaller of the buffer's
/// length and `SAMPLE_MAX_BYTES`: no longer than either, and equal to one of
/// them.
pub proof fn lemma_sample_is_smaller_of_length_and_maximum(len: nat)
    ensures
        sample_len_for(len) is Some <==> len >= SAMPLE_MIN_BYTES,
        len >= SAMPLE_MIN_BYTES ==> {
            let k = sample_len_for(len)->Some_0;
            &&& k <= len
            &&& k <= SAMPLE_MAX_BYTES
            &&& (k == len || k == SAMPLE_MAX_BYTES)
        },
        SAMPLE_MIN_BYTES <= len <= SAMPLE_MAX_BYTES ==> sample_len_for(len) == Some(len),
        len >= SAMPLE_MAX_BYTES ==> sample_len_for(len) == Some(SAMPLE_MAX_BYTES as nat),
{
}

} // verus!
