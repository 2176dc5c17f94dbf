use vstd::prelude::*;

use crate::config::{FuzzyMatchAlgorithm, MatchPolicy, Threshold};
use crate::device::AudioDevice;

verus! {

/// The score that the Skim matcher gives `pattern` in `choice`, `None` where
/// `pattern` does not match.
pub uninterp spec fn skim_score_of(choice: Seq<char>, pattern: Seq<char>) -> Option<i64>;

/// The lower-case form of a string.
pub uninterp spec fn lower_of(s: Seq<char>) -> Seq<char>;

/// The Levenshtein edit distance between two strings, counted in characters.
pub uninterp spec fn levenshtein_of(a: Seq<char>, b: Seq<char>) -> nat;

/// Relies on `fuzzy_matcher::FuzzyMatcher::fuzzy_match` of a default
/// `SkimMatcherV2`: the score of `pattern` in `choice`, which depends on the
/// two strings alone.
#[verifier::external_body]
fn skim_score(choice: &str, pattern: &str) -> (r: Option<i64>)
    ensures
        r == skim_score_of(choice@, pattern@),
{
    let matcher = fuzzy_matcher::skim::SkimMatcherV2::default();
    fuzzy_matcher::FuzzyMatcher::fuzzy_match(&matcher, choice, pattern)
}

/// Relies on `str::to_lowercase`: the result depends on the characters alone.
#[verifier::external_body]
fn lowercase(s: &str) -> (r: String)
    ensures
        r@ == lower_of(s@),
{
    s.to_lowercase()
}

/// Relies on `strsim::levenshtein`: the least number of single-character
/// insertions, deletions and substitutions that turn `a` into `b`, which is at
/// most the length of the longer string.
#[verifier::external_body]
fn levenshtein_distance(a: &str, b: &str) -> (r: usize)
    ensures
        r as nat == levenshtein_of(a@, b@),
        r <= a@.len() || r <= b@.len(),
{
    strsim::levenshtein(a, b)
}

/// A similarity in `[0, 1]`, as the fraction `num / den`, with `den > 0`.
#[derive(Clone, Copy, Debug, PartialEq, Eq, Structural)]
pub struct Similarity {
    pub num: usize,
    pub den: usize,
}

/// The normalized similarity of two strings whose edit distance is `d`:
/// `1 - d / m`, where `m` is the length of the longer one; 1 where both are
/// empty.
pub open spec fn similarity_spec(d: nat, len_a: nat, len_b: nat) -> Similarity {
    let m = if len_a >= len_b { len_a } else { len_b };
    if m == 0 {
        Similarity { num: 1, den: 1 }
    } else {
        Similarity { num: (m - d) as usize, den: m as usize }
    }
}

/// The similarity of two strings, as `strsim::normalized_levenshtein` defines it.
pub open spec fn string_similarity(a: Seq<char>, b: Seq<char>) -> Similarity {
    similarity_spec(levenshtein_of(a, b), a.len(), b.len())
}

/// `x` is strictly more similar than `y`.
pub open spec fn sim_gt(x: Similarity, y: Similarity) -> bool {
    x.num * y.den > y.num * x.den
}

/// The similarity `s` reaches the threshold `t`.
pub open spec fn reaches(s: Similarity, t: Threshold) -> bool {
    s.num * t.den >= t.num * s.den
}

/// The normalized similarity from an edit distance and the two lengths.
pub fn similarity(d: usize, len_a: usize, len_b: usize) -> (r: Similarity)
    requires
        d <= len_a || d <= len_b,
    ensures
        r == similarity_spec(d as nat, len_a as nat, len_b as nat),
        r.den > 0,
        r.num <= r.den,
{
    let m = if len_a >= len_b { len_a } else { len_b };
    if m == 0 {
        Similarity { num: 1, den: 1 }
    } else {
        Similarity { num: m - d, den: m }
    }
}

/// Whether `x` is strictly more similar than `y`.
pub fn more_similar(x: Similarity, y: Similarity) -> (r: bool)
    ensures
        r == sim_gt(x, y),
{
    proof {
        lemma_product_fits(x.num as int, y.den as int);
        lemma_product_fits(y.num as int, x.den as int);
    }
    (x.num as u128) * (y.den as u128) > (y.num as u128) * (x.den as u128)
}

/// Whether the similarity `s` reaches the threshold `t`.
pub fn accepts(s: Similarity, t: Threshold) -> (r: bool)
    ensures
        r == reaches(s, t),
{
    proof {
        lemma_product_fits(s.num as int, t.den as int);
        lemma_product_fits(t.num as int, s.den as int);
    }
    (s.num as u128) * (t.den as u128) >= (t.num as u128) * (s.den as u128)
}

proof fn lemma_product_fits(a: int, b: int)
    requires
        0 <= a <= u64::MAX,
        0 <= b <= u64::MAX,
    ensures
        a * b <= u128::MAX,
{
    assert(a * b <= u64::MAX * u64::MAX) by (nonlinear_arith)
        requires
            0 <= a <= u64::MAX,
            0 <= b <= u64::MAX,
    ;
}

/// Every similarity in `sims` has a positive denominator.
pub open spec fn well_formed_sims(sims: Seq<Similarity>) -> bool {
    forall|i: int| 0 <= i < sims.len() ==> #[trigger] sims[i].den > 0
}

proof fn lemma_sim_gt_trans(a: Similarity, b: Similarity, c: Similarity)
    requires
        a.den > 0,
        b.den > 0,
        c.den > 0,
        sim_gt(a, b),
        !sim_gt(c, b),
    ensures
        sim_gt(a, c),
{
    let (an, ad, bn, bd, cn, cd) = (
        a.num as int,
        a.den as int,
        b.num as int,
        b.den as int,
        c.num as int,
        c.den as int,
    );
    assert(an * cd > cn * ad) by (nonlinear_arith)
        requires
            ad > 0,
            bd > 0,
            cd > 0,
            an >= 0,
            bn >= 0,
            cn >= 0,
            an * bd > bn * ad,
            cn * bd <= bn * cd,
    {
        assert(an * bd * cd > bn * ad * cd);
        assert(cn * bd * ad <= bn * cd * ad);
        assert(an * cd * bd > cn * ad * bd);
    }
}

/// `r` is the index of the first candidate with the highest score, and `None`
/// where no candidate scores at all.
pub open spec fn first_best_score(scores: Seq<Option<i64>>, r: Option<usize>) -> bool {
    match r {
        None => forall|j: int| 0 <= j < scores.len() ==> #[trigger] scores[j] is None,
        Some(i) => {
            &&& i < scores.len()
            &&& scores[i as int] is Some
            &&& forall|j: int|
                0 <= j < i ==> #[trigger] scores[j] is None || scores[j]->Some_0
                    < scores[i as int]->Some_0
            &&& forall|j: int|
                i < j < scores.len() ==> #[trigger] scores[j] is None || scores[j]->Some_0
                    <= scores[i as int]->Some_0
        },
    }
}

/// `r` is the index of the first candidate with the highest similarity, and
/// `None` where there is no candidate.
pub open spec fn first_best_similarity(sims: Seq<Similarity>, r: Option<usize>) -> bool {
    match r {
        None => sims.len() == 0,
        Some(i) => {
            &&& i < sims.len()
            &&& forall|j: int| 0 <= j < i ==> sim_gt(sims[i as int], #[trigger] sims[j])
            &&& forall|j: int| i < j < sims.len() ==> !sim_gt(#[trigger] sims[j], sims[i as int])
        },
    }
}

/// `r` is the most similar candidate where it reaches the threshold, and
/// `None` where there is no candidate or the most similar one falls short.
pub open spec fn threshold_pick(sims: Seq<Similarity>, t: Threshold, r: Option<usize>) -> bool {
    match r {
        Some(i) => first_best_similarity(sims, Some(i)) && reaches(sims[i as int], t),
        None => forall|i: usize|
            #[trigger] first_best_similarity(sims, Some(i)) ==> !reaches(sims[i as int], t),
    }
}

/// `r` is the first device whose name is exactly `target`, `None` where none is.
pub open spec fn first_exact(devices: Seq<AudioDevice>, target: Seq<char>, r: Option<usize>) -> bool {
    match r {
        None => forall|j: int| 0 <= j < devices.len() ==> #[trigger] devices[j].name@ != target,
        Some(i) => {
            &&& i < devices.len()
            &&& devices[i as int].name@ == target
            &&& forall|j: int| 0 <= j < i ==> #[trigger] devices[j].name@ != target
        },
    }
}

/// The Skim score of each device's name against `target`.
pub open spec fn skim_scores(devices: Seq<AudioDevice>, target: Seq<char>) -> Seq<Option<i64>> {
    devices.map_values(|d: AudioDevice| skim_score_of(d.name@, target))
}

/// The similarity of each device's lower-cased name with the lower-cased `target`.
pub open spec fn similarities(devices: Seq<AudioDevice>, target: Seq<char>) -> Seq<Similarity> {
    devices.map_values(|d: AudioDevice| string_similarity(lower_of(d.name@), lower_of(target)))
}

/// `r` is the device that `policy` selects for `target` among `devices`.
pub open spec fn resolves_to(
    devices: Seq<AudioDevice>,
    target: Seq<char>,
    policy: MatchPolicy,
    r: Option<usize>,
) -> bool {
    if !policy.fuzzy_enabled {
        first_exact(devices, target, r)
    } else {
        match policy.algorithm {
            FuzzyMatchAlgorithm::Skim => first_best_score(skim_scores(devices, target), r),
            FuzzyMatchAlgorithm::Levenshtein => threshold_pick(
                similarities(devices, target),
                policy.threshold,
                r,
            ),
        }
    }
}

/// The first candidate with the highest score; `None` where none scores.
pub fn best_score_index(scores: &Vec<Option<i64>>) -> (r: Option<usize>)
    ensures
        first_best_score(scores@, r),
{
    let mut best: Option<usize> = None;
    let mut i: usize = 0;
    while i < scores.len()
        invariant
            i <= scores@.len(),
            first_best_score(scores@.subrange(0, i as int), best),
            best matches Some(b) ==> b < i,
        decreases scores@.len() - i,
    {
        let ghost prefix = scores@.subrange(0, i as int);
        let ghost next = scores@.subrange(0, i as int + 1);
        assert(forall|j: int| 0 <= j < i ==> next[j] == prefix[j]);
        if let Some(s) = scores[i] {
            let better = match best {
                None => true,
                Some(b) => s > scores[b].unwrap(),
            };
            if better {
                best = Some(i);
            }
        }
        i = i + 1;
    }
    assert(scores@.subrange(0, scores@.len() as int) =~= scores@);
    best
}

/// The first candidate with the highest similarity; `None` where there is none.
pub fn best_similarity_index(sims: &Vec<Similarity>) -> (r: Option<usize>)
    requires
        well_formed_sims(sims@),
    ensures
        first_best_similarity(sims@, r),
{
    let mut best: Option<usize> = None;
    let mut i: usize = 0;
    while i < sims.len()
        invariant
            i <= sims@.len(),
            well_formed_sims(sims@),
            first_best_similarity(sims@.subrange(0, i as int), best),
            best is None <==> i == 0,
            best matches Some(b) ==> b < i,
        decreases sims@.len() - i,
    {
        let ghost prefix = sims@.subrange(0, i as int);
        let ghost next = sims@.subrange(0, i as int + 1);
        assert(forall|j: int| 0 <= j < i ==> next[j] == prefix[j]);
        match best {
            None => {
                best = Some(i);
            },
            Some(b) => {
                if more_similar(sims[i], sims[b]) {
                    proof {
                        assert forall|j: int| 0 <= j < i implies sim_gt(
                            sims@[i as int],
                            #[trigger] next[j],
                        ) by {
                            assert(next[j] == prefix[j]);
                            if j < b {
                                assert(sim_gt(prefix[b as int], prefix[j]));
                                assert(!sim_gt(prefix[j], prefix[b as int]));
                            }
                            if j != b {
                                lemma_sim_gt_trans(sims@[i as int], sims@[b as int], sims@[j]);
                            }
                        }
                    }
                    best = Some(i);
                }
            },
        }
        i = i + 1;
    }
    assert(sims@.subrange(0, sims@.len() as int) =~= sims@);
    best
}

/// Two indices that both meet `first_best_similarity` are the same.
proof fn lemma_first_best_similarity_unique(sims: Seq<Similarity>, a: usize, b: usize)
    requires
        first_best_similarity(sims, Some(a)),
        first_best_similarity(sims, Some(b)),
    ensures
        a == b,
{
    if a < b {
        assert(sim_gt(sims[b as int], sims[a as int]));
    } else if b < a {
        assert(sim_gt(sims[a as int], sims[b as int]));
    }
}

/// The most similar candidate, where it reaches the threshold `t`.
pub fn pick_by_threshold(sims: &Vec<Similarity>, t: Threshold) -> (r: Option<usize>)
    requires
        well_formed_sims(sims@),
    ensures
        threshold_pick(sims@, t, r),
{
    match best_similarity_index(sims) {
        None => None,
        Some(b) => {
            if accepts(sims[b], t) {
                Some(b)
            } else {
                proof {
                    assert forall|i: usize| #[trigger]
                        first_best_similarity(sims@, Some(i)) implies !reaches(sims@[i as int], t) by {
                        lemma_first_best_similarity_unique(sims@, i, b);
                    }
                }
                None
            }
        },
    }
}

/// The first device named exactly `target`.
pub fn find_exact(target: &String, devices: &Vec<AudioDevice>) -> (r: Option<usize>)
    ensures
        first_exact(devices@, target@, r),
{
    let mut i: usize = 0;
    while i < devices.len()
        invariant
            i <= devices@.len(),
            forall|j: int| 0 <= j < i ==> #[trigger] devices@[j].name@ != target@,
        decreases devices@.len() - i,
    {
        if devices[i].name == *target {
            return Some(i);
        }
        i = i + 1;
    }
    None
}

/// The Skim score of every device name against `target`.
fn skim_scores_of(target: &String, devices: &Vec<AudioDevice>) -> (r: Vec<Option<i64>>)
    ensures
        r@ == skim_scores(devices@, target@),
{
    let mut out: Vec<Option<i64>> = Vec::new();
    let mut i: usize = 0;
    while i < devices.len()
        invariant
            i <= devices@.len(),
            out@ == skim_scores(devices@.subrange(0, i as int), target@),
        decreases devices@.len() - i,
    {
        let score = skim_score(devices[i].name.as_str(), target.as_str());
        out.push(score);
        i = i + 1;
        assert(skim_scores(devices@.subrange(0, i as int), target@) =~= skim_scores(
            devices@.subrange(0, i - 1 as int),
            target@,
        ).push(score));
    }
    assert(devices@.subrange(0, devices@.len() as int) =~= devices@);
    out
}

/// The similarity of each lower-cased device name with the lower-cased `target`.
fn similarities_of(target: &String, devices: &Vec<AudioDevice>) -> (r: Vec<Similarity>)
    ensures
        r@ == similarities(devices@, target@),
        well_formed_sims(r@),
{
    let target_lower = lowercase(target.as_str());
    let target_len = target_lower.as_str().unicode_len();
    let mut out: Vec<Similarity> = Vec::new();
    let mut i: usize = 0;
    while i < devices.len()
        invariant
            i <= devices@.len(),
            target_lower@ == lower_of(target@),
            target_len == target_lower@.len(),
            out@ == similarities(devices@.subrange(0, i as int), target@),
            well_formed_sims(out@),
        decreases devices@.len() - i,
    {
        let name_lower = lowercase(devices[i].name.as_str());
        let d = levenshtein_distance(name_lower.as_str(), target_lower.as_str());
        let sim = similarity(d, name_lower.as_str().unicode_len(), target_len);
        out.push(sim);
        i = i + 1;
        assert(similarities(devices@.subrange(0, i as int), target@) =~= similarities(
            devices@.subrange(0, i - 1 as int),
            target@,
        ).push(sim));
    }
    assert(devices@.subrange(0, devices@.len() as int) =~= devices@);
    out
}

/// The device that `policy` selects for `target`: the first exact match, the
/// first best Skim score, or the first most similar name where it reaches the
/// threshold.
pub fn find_best_match(target: &String, devices: &Vec<AudioDevice>, policy: MatchPolicy) -> (r:
    Option<usize>)
    ensures
        resolves_to(devices@, target@, policy, r),
{
    if !policy.fuzzy_enabled {
        return find_exact(target, devices);
    }
    match policy.algorithm {
        FuzzyMatchAlgorithm::Skim => {
            let scores = skim_scores_of(target, devices);
            best_score_index(&scores)
        },
        FuzzyMatchAlgorithm::Levenshtein => {
            let sims = similarities_of(target, devices);
            pick_by_threshold(&sims, policy.threshold)
        },
    }
}

/// In exact mode, whenever some device is named `target`, the match is a
/// device named `target` at or before it; where no device is, there is no
/// match.
pub proof fn exact_match_law(
    devices: Seq<AudioDevice>,
    target: Seq<char>,
    policy: MatchPolicy,
    r: Option<usize>,
)
    requires
        !policy.fuzzy_enabled,
        resolves_to(devices, target, policy, r),
    ensures
        forall|j: int|
            0 <= j < devices.len() && #[trigger] devices[j].name@ == target ==> (r matches Some(
                i,
            ) && i <= j && devices[i as int].name@ == target),
        (forall|j: int| 0 <= j < devices.len() ==> #[trigger] devices[j].name@ != target) ==> r
            is None,
{
    assert forall|j: int| 0 <= j < devices.len() && #[trigger] devices[j].name@ == target implies (
    r matches Some(i) && i <= j && devices[i as int].name@ == target) by {
        if r is None {
            assert(devices[j].name@ != target);
        }
    }
}

/// In Skim mode the match is determined by the candidates and the target, and
/// of two candidates with equal scores the later one is never chosen.
pub proof fn skim_stability_law(
    devices: Seq<AudioDevice>,
    target: Seq<char>,
    policy: MatchPolicy,
    r1: Option<usize>,
    r2: Option<usize>,
)
    requires
        policy.fuzzy_enabled,
        policy.algorithm == FuzzyMatchAlgorithm::Skim,
        resolves_to(devices, target, policy, r1),
        resolves_to(devices, target, policy, r2),
    ensures
        r1 == r2,
        forall|i: usize, j: usize|
            i < j < devices.len() && #[trigger] skim_score_of(devices[i as int].name@, target)
                is Some && #[trigger] skim_score_of(devices[j as int].name@, target)
                == skim_score_of(devices[i as int].name@, target) ==> r1 != Some(j),
{
    let scores = skim_scores(devices, target);
    assert forall|i: usize, j: usize|
        i < j < devices.len() && #[trigger] skim_score_of(devices[i as int].name@, target)
            is Some && #[trigger] skim_score_of(devices[j as int].name@, target)
            == skim_score_of(devices[i as int].name@, target) implies r1 != Some(j) by {
        if r1 == Some(j) {
            assert(scores[i as int] == skim_score_of(devices[i as int].name@, target));
            assert(scores[j as int] == skim_score_of(devices[j as int].name@, target));
            assert(scores[i as int] is None || scores[i as int]->Some_0 < scores[j as int]->Some_0);
        }
    }
    match (r1, r2) {
        (Some(a), Some(b)) => {
            if a < b {
                assert(scores[a as int] is None || scores[a as int]->Some_0 < scores[b as int]->Some_0);
            } else if b < a {
                assert(scores[b as int] is None || scores[b as int]->Some_0 < scores[a as int]->Some_0);
            }
        },
        (Some(a), None) => {
            assert(scores[a as int] is None);
        },
        (None, Some(b)) => {
            assert(scores[b as int] is None);
        },
        (None, None) => {},
    }
}

/// Two choices that both meet `threshold_pick` are the same.
proof fn lemma_threshold_pick_unique(sims: Seq<Similarity>, t: Threshold, r1: Option<usize>, r2: Option<usize>)
    requires
        threshold_pick(sims, t, r1),
        threshold_pick(sims, t, r2),
    ensures
        r1 == r2,
{
    match (r1, r2) {
        (Some(a), Some(b)) => lemma_first_best_similarity_unique(sims, a, b),
        (Some(a), None) => assert(first_best_similarity(sims, Some(a))),
        (None, Some(b)) => assert(first_best_similarity(sims, Some(b))),
        (None, None) => {},
    }
}

/// In Levenshtein mode the most similar candidate is accepted when its
/// similarity equals the threshold or exceeds it, and rejected when it is
/// strictly below.
pub proof fn threshold_boundary_law(
    devices: Seq<AudioDevice>,
    target: Seq<char>,
    policy: MatchPolicy,
    best: usize,
    r: Option<usize>,
)
    requires
        policy.fuzzy_enabled,
        policy.algorithm == FuzzyMatchAlgorithm::Levenshtein,
        first_best_similarity(similarities(devices, target), Some(best)),
        resolves_to(devices, target, policy, r),
    ensures
        ({
            let s = similarities(devices, target)[best as int];
            let t = policy.threshold;
            &&& s.num * t.den == t.num * s.den ==> r == Some(best)
            &&& s.num * t.den > t.num * s.den ==> r == Some(best)
            &&& s.num * t.den < t.num * s.den ==> r is None
        }),
{
    let sims = similarities(devices, target);
    match r {
        Some(i) => lemma_first_best_similarity_unique(sims, i, best),
        None => {},
    }
}

/// In Levenshtein mode letter case does not matter: two lists whose names
/// agree once lower-cased, and two targets that agree once lower-cased, give
/// the same match.
pub proof fn case_insensitive_law(
    devices1: Seq<AudioDevice>,
    target1: Seq<char>,
    devices2: Seq<AudioDevice>,
    target2: Seq<char>,
    policy: MatchPolicy,
    r1: Option<usize>,
    r2: Option<usize>,
)
    requires
        policy.fuzzy_enabled,
        policy.algorithm == FuzzyMatchAlgorithm::Levenshtein,
        devices1.len() == devices2.len(),
        forall|i: int|
            0 <= i < devices1.len() ==> lower_of(#[trigger] devices1[i].name@) == lower_of(
                devices2[i].name@,
            ),
        lower_of(target1) == lower_of(target2),
        resolves_to(devices1, target1, policy, r1),
        resolves_to(devices2, target2, policy, r2),
    ensures
        r1 == r2,
{
    assert(similarities(devices1, target1) =~= similarities(devices2, target2));
    lemma_threshold_pick_unique(similarities(devices1, target1), policy.threshold, r1, r2);
}

/// Resolution is a function of the candidates, the target and the policy:
/// two results that both meet `resolves_to` are the same.
pub proof fn resolution_unique_law(
    devices: Seq<AudioDevice>,
    target: Seq<char>,
    policy: MatchPolicy,
    r1: Option<usize>,
    r2: Option<usize>,
)
    requires
        resolves_to(devices, target, policy, r1),
        resolves_to(devices, target, policy, r2),
    ensures
        r1 == r2,
{
    if !policy.fuzzy_enabled {
        match (r1, r2) {
            (Some(a), Some(b)) => {
                if a < b {
                    assert(devices[a as int].name@ != target);
                } else if b < a {
                    assert(devices[b as int].name@ != target);
                }
            },
            (Some(a), None) => assert(devices[a as int].name@ != target),
            (None, Some(b)) => assert(devices[b as int].name@ != target),
            (None, None) => {},
        }
    } else {
        match policy.algorithm {
            FuzzyMatchAlgorithm::Skim => skim_stability_law(devices, target, policy, r1, r2),
            FuzzyMatchAlgorithm::Levenshtein => lemma_threshold_pick_unique(
                similarities(devices, target),
                policy.threshold,
                r1,
                r2,
            ),
        }
    }
}

} // verus!
