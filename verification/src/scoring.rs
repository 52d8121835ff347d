//! Scores how well a candidate grammar explains a text sample, and picks the
//! best-matching candidate.
//!
//! A score is a rational number in `[0, 1]`. It is kept exactly, as a count
//! of points out of `100 * text_len`: the weights 0.3, 0.3 and 0.4 of the
//! three signals become whole numbers of points, so that comparing two scores
//! of one sample is comparing two integers.

use vstd::prelude::*;
use crate::coverage::{ByteRange, covered_bytes, covered_positions, distinct_count};
use crate::syntax::{SyntaxNode, count_error_bytes, error_bytes, min_nat};

verus! {

/// One highlight capture: the index of its capture name in the highlight
/// query (the query gives each distinct name one index) and the byte range of
/// the captured node.
#[derive(Clone, Copy)]
pub struct Capture {
    pub name: u32,
    pub range: ByteRange,
}

/// The identity of a language in the registry.
#[derive(Clone, Copy, PartialEq, Eq, Structural, Debug)]
pub struct LanguageId(pub usize);

/// A candidate language: its id, and what its grammar made of the sample
/// (`None` when it has no grammar or the parse failed).
pub struct Candidate {
    pub id: LanguageId,
    pub parsed: Option<ParsedSample>,
}

/// What a candidate grammar made of the sample: the syntax tree it parsed,
/// and the captures of its highlight query, if it has one.
pub struct ParsedSample {
    pub tree: SyntaxNode,
    pub highlights: Option<Vec<Capture>>,
}

/// Points a grammar must exceed, per byte of the sample, to be considered a
/// match at all: a score above 0.1.
pub const THRESHOLD_POINTS_PER_BYTE: u128 = 10;

/// Highest number of distinct capture names that still raises the score:
/// from ten names on, the diversity signal is full.
pub const FULL_DIVERSITY_NAMES: usize = 10;

/// The byte ranges of `captures`, in order.
pub open spec fn capture_ranges(captures: Seq<Capture>) -> Seq<ByteRange> {
    captures.map_values(|c: Capture| c.range)
}

/// The capture name indices of `captures`, in order.
pub open spec fn capture_names(captures: Seq<Capture>) -> Seq<u32> {
    captures.map_values(|c: Capture| c.name)
}

/// Points for highlight coverage (weight 0.3, the share of the sample's bytes
/// that some capture covers, at most all of them) and for diversity (weight
/// 0.4, a tenth per distinct capture name, at most ten tenths).
pub open spec fn highlight_points(highlights: Option<Vec<Capture>>, n: nat) -> nat {
    match highlights {
        None => 0,
        Some(v) => {
            let captures = v@;
            if captures.len() == 0 {
            0
        } else {
            30 * min_nat(covered_positions(capture_ranges(captures)).len(), n) + 4 * n * min_nat(
                capture_names(captures).to_set().len(),
                10,
            )
            }
        },
    }
}

/// The score of a candidate on a sample of `n` bytes, in points out of
/// `100 * n`: zero without a parse or for an empty sample, zero when more
/// than half the bytes lie in error nodes; otherwise 30 points per byte
/// outside error nodes (parse quality, weight 0.3) plus the highlight points.
pub open spec fn score_points(parsed: Option<ParsedSample>, n: nat) -> nat {
    match parsed {
        None => 0,
        Some(p) => if n == 0 {
            0
        } else {
            let errors: nat = min_nat(error_bytes(p.tree), n);
            if 2 * errors > n {
                0
            } else {
                30 * (n - errors) as nat + highlight_points(p.highlights, n)
            }
        },
    }
}


/// Computes `highlight_points` for a sample of `n` bytes.
fn highlight_points_of(highlights: &Option<Vec<Capture>>, n: usize) -> (points: u128)
    ensures
        points == highlight_points(*highlights, n as nat),
        points <= 70 * n,
{
    match highlights {
        None => 0,
        Some(captures) => {
            if captures.len() == 0 {
                return 0;
            }
            let mut ranges: Vec<ByteRange> = Vec::new();
            let mut names: Vec<u32> = Vec::new();
            let mut i: usize = 0;
            while i < captures.len()
                invariant
                    i <= captures@.len(),
                    ranges@ == capture_ranges(captures@).take(i as int),
                    names@ == capture_names(captures@).take(i as int),
                decreases captures@.len() - i,
            {
                ranges.push(captures[i].range);
                names.push(captures[i].name);
                proof {
                    assert(ranges@ =~= capture_ranges(captures@).take(i + 1));
                    assert(names@ =~= capture_names(captures@).take(i + 1));
                }
                i = i + 1;
            }
            proof {
                assert(ranges@ =~= capture_ranges(captures@));
                assert(names@ =~= capture_names(captures@));
            }
            let covered: usize = covered_bytes(ranges);
            let distinct: usize = distinct_count(&names);
            let covered_capped: u128 = if covered < n {
                covered as u128
            } else {
                n as u128
            };
            let distinct_capped: u128 = if distinct < FULL_DIVERSITY_NAMES {
                distinct as u128
            } else {
                FULL_DIVERSITY_NAMES as u128
            };
            proof {
                assert(4 * (n as int) * distinct_capped <= 40 * (n as int)) by (nonlinear_arith)
                    requires
                        distinct_capped <= 10,
                ;
            }
            30 * covered_capped + 4 * (n as u128) * distinct_capped
        },
    }
}

/// Scores how well a candidate grammar explains `text`, from what the
/// grammar made of it (`None` when the candidate has no grammar or the parse
/// failed), in points out of `100 * text.len()`.
///
/// Three signals combine: parse quality (the bytes outside error nodes,
/// weight 0.3; more than half the bytes in error nodes rejects the grammar
/// outright), highlight coverage (the bytes that highlight captures cover,
/// weight 0.3) and capture diversity (distinct capture names, ten or more
/// being full marks, weight 0.4).
pub fn score_language(parsed: &Option<ParsedSample>, text: &[u8]) -> (points: u128)
    ensures
        points == score_points(*parsed, text@.len()),
        points <= 100 * text@.len(),
{
    let n: usize = text.len();
    match parsed {
        None => 0,
        Some(p) => {
            if n == 0 {
                return 0;
            }
            let errors: usize = count_error_bytes(&p.tree, n);
            if errors > n - errors {
                return 0;
            }
            let quality: u128 = 30 * ((n - errors) as u128);
            let highlights: u128 = highlight_points_of(&p.highlights, n);
            quality + highlights
        },
    }
}


/// The score of candidate `i` on `text`, in points.
pub open spec fn candidate_points(candidates: Seq<Candidate>, text: Seq<u8>, i: int) -> nat {
    score_points(candidates[i].parsed, text.len())
}

/// A score above 0.1, the least that counts as a match.
pub open spec fn above_threshold(points: nat, n: nat) -> bool {
    points > THRESHOLD_POINTS_PER_BYTE * n
}

/// Candidate `k` is what `best_match` picks: it scores above the threshold,
/// no candidate scores more, and every candidate before it scores less.
pub open spec fn is_best_match(candidates: Seq<Candidate>, text: Seq<u8>, k: int) -> bool {
    &&& 0 <= k < candidates.len()
    &&& above_threshold(candidate_points(candidates, text, k), text.len())
    &&& forall|j: int|
        0 <= j < candidates.len() ==> #[trigger] candidate_points(candidates, text, j)
            <= candidate_points(candidates, text, k)
    &&& forall|j: int|
        0 <= j < k ==> #[trigger] candidate_points(candidates, text, j) < candidate_points(
            candidates,
            text,
            k,
        )
}

/// Picks the best-matching candidate for `text`: among the candidates whose
/// score is above 0.1, one with the highest score, the first such in order
/// when several tie. `None` when no candidate scores above 0.1.
pub fn best_match(text: &[u8], candidates: &Vec<Candidate>) -> (best: Option<usize>)
    ensures
        match best {
            Some(k) => is_best_match(candidates@, text@, k as int),
            None => forall|j: int|
                0 <= j < candidates@.len() ==> !above_threshold(
                    #[trigger] candidate_points(candidates@, text@, j),
                    text@.len(),
                ),
        },
{
    let n: usize = text.len();
    let threshold: u128 = THRESHOLD_POINTS_PER_BYTE * (n as u128);
    let mut best: Option<usize> = None;
    let mut best_points: u128 = 0;
    let mut i: usize = 0;
    while i < candidates.len()
        invariant
            i <= candidates@.len(),
            n == text@.len(),
            threshold == THRESHOLD_POINTS_PER_BYTE * n,
            match best {
                Some(k) => {
                    &&& k < i
                    &&& best_points == candidate_points(candidates@, text@, k as int)
                    &&& above_threshold(best_points as nat, n as nat)
                    &&& forall|j: int|
                        0 <= j < i ==> #[trigger] candidate_points(candidates@, text@, j)
                            <= best_points
                    &&& forall|j: int|
                        0 <= j < k ==> #[trigger] candidate_points(candidates@, text@, j)
                            < best_points
                },
                None => forall|j: int|
                    0 <= j < i ==> !above_threshold(
                        #[trigger] candidate_points(candidates@, text@, j),
                        n as nat,
                    ),
            },
        decreases candidates@.len() - i,
    {
        let points: u128 = score_language(&candidates[i].parsed, text);
        proof {
            assert(points == candidate_points(candidates@, text@, i as int));
        }
        if points > threshold {
            match best {
                None => {
                    best = Some(i);
                    best_points = points;
                },
                Some(_) => {
                    if points > best_points {
                        best = Some(i);
                        best_points = points;
                    }
                },
            }
        }
        i = i + 1;
    }
    best
}


/// A grammar that leaves more than half of the sample in error nodes scores
/// zero, whatever its highlights.
pub proof fn lemma_mostly_errors_scores_zero(parsed: ParsedSample, n: nat)
    requires
        2 * min_nat(error_bytes(parsed.tree), n) > n,
    ensures
        score_points(Some(parsed), n) == 0,
{
}

/// A grammar that parses a non-empty sample without any error node is
/// always a match: its parse quality alone gives a score of at least 0.3.
pub proof fn lemma_clean_parse_matches(parsed: ParsedSample, n: nat)
    requires
        n > 0,
        error_bytes(parsed.tree) == 0,
    ensures
        score_points(Some(parsed), n) >= 30 * n,
        above_threshold(score_points(Some(parsed), n), n),
{
}

/// From ten distinct capture names on, diversity is full: the score no
/// longer depends on how many names there are.
pub proof fn lemma_diversity_saturates(captures: Vec<Capture>, n: nat)
    requires
        captures@.len() > 0,
        capture_names(captures@).to_set().len() >= FULL_DIVERSITY_NAMES,
    ensures
        highlight_points(Some(captures), n) == 30 * min_nat(
            covered_positions(capture_ranges(captures@)).len(),
            n,
        ) + 40 * n,
{
    assert(4 * n * 10 == 40 * n) by (nonlinear_arith);
}

/// Errors only ever cost: of two parses with the same highlight captures,
/// the one with fewer bytes in error nodes scores at least as high.
pub proof fn lemma_fewer_errors_never_score_lower(
    better: ParsedSample,
    worse: ParsedSample,
    n: nat,
)
    requires
        better.highlights == worse.highlights,
        error_bytes(better.tree) <= error_bytes(worse.tree),
    ensures
        score_points(Some(better), n) >= score_points(Some(worse), n),
{
}

/// Every score lies between 0 and 1: at most `100 * n` points.
pub proof fn lemma_score_at_most_one(parsed: Option<ParsedSample>, n: nat)
    ensures
        score_points(parsed, n) <= 100 * n,
{
    match parsed {
        None => {},
        Some(p) => {
            match p.highlights {
                None => {},
                Some(v) => {
                    let d: nat = min_nat(capture_names(v@).to_set().len(), 10);
                    assert(4 * n * d <= 40 * n) by (nonlinear_arith)
                        requires
                            d <= 10,
                    ;
                },
            }
        },
    }
}

/// The best match is unique: no two candidates both fit `is_best_match`.
pub proof fn lemma_best_match_unique(candidates: Seq<Candidate>, text: Seq<u8>, k1: int, k2: int)
    requires
        is_best_match(candidates, text, k1),
        is_best_match(candidates, text, k2),
    ensures
        k1 == k2,
{
    if k1 < k2 {
        assert(candidate_points(candidates, text, k1) < candidate_points(candidates, text, k2));
        assert(candidate_points(candidates, text, k2) <= candidate_points(candidates, text, k1));
    } else if k2 < k1 {
        assert(candidate_points(candidates, text, k2) < candidate_points(candidates, text, k1));
        assert(candidate_points(candidates, text, k1) <= candidate_points(candidates, text, k2));
    }
}

} // verus!
