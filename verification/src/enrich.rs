//! The enrichment pipeline's verified half: building the request for one
//! word problem, finding the reserved slots, and writing one resolved word
//! problem — remote content or local fallback — into its slot.  The caller
//! owns the remote call itself and hands its outcome in as a plain value,
//! so everything here holds whatever the service did.

use vstd::prelude::*;
use crate::config::{
    QuizConfig, difficulty_code, difficulty_code_text, max_number_for, max_number_of,
};
use crate::generate::{fallback_content_ok, generate_fallback_word_problem};
use crate::question::{Question, QuestionKind, QuestionModel, is_word_kind};
use crate::sampler::Sampler;
use crate::schedule::has_word_slot;

verus! {

/// What one request to the remote word-problem service carries.
pub struct WordProblemRequest {
    pub difficulty: String,
    pub max_number: i32,
}

/// What a well-formed response from the service carries.
pub struct WordProblemResponse {
    pub prompt: String,
    pub answer: i32,
}

/// Build the request for one word problem at the configured difficulty.
pub fn word_problem_request(cfg: &QuizConfig) -> (r: WordProblemRequest)
    ensures
        r.difficulty@ == difficulty_code(cfg.difficulty),
        r.max_number as int == max_number_of(cfg.difficulty),
{
    WordProblemRequest {
        difficulty: difficulty_code_text(cfg.difficulty),
        max_number: max_number_for(cfg.difficulty),
    }
}

/// The positions of the word-problem slots, each exactly once, in
/// ascending order — the order in which the pipeline resolves them.
#[verifier::loop_isolation(false)]
pub fn placeholder_indices(qs: &Vec<Question>) -> (r: Vec<usize>)
    ensures
        forall|k: int|
            0 <= k < r@.len() ==> #[trigger] r@[k] < qs@.len() && is_word_kind(
                qs@[r@[k] as int]@.kind,
            ),
        forall|k1: int, k2: int| 0 <= k1 < k2 < r@.len() ==> r@[k1] < r@[k2],
        forall|j: int|
            0 <= j < qs@.len() && is_word_kind(#[trigger] qs@[j]@.kind) ==> r@.contains(
                j as usize,
            ),
{
    let n = qs.len();
    let mut r: Vec<usize> = Vec::new();
    let mut i: usize = 0;
    while i < n
        invariant
            i <= n,
            forall|k: int|
                0 <= k < r@.len() ==> #[trigger] r@[k] < i && is_word_kind(
                    qs@[r@[k] as int]@.kind,
                ),
            forall|k1: int, k2: int| 0 <= k1 < k2 < r@.len() ==> r@[k1] < r@[k2],
            forall|j: int|
                0 <= j < i && is_word_kind(#[trigger] qs@[j]@.kind) ==> r@.contains(j as usize),
        decreases n - i,
    {
        let ghost pre = r@;
        if qs[i].is_word_problem() {
            r.push(i);
        }
        proof {
            assert forall|j: int|
                0 <= j < i + 1 && is_word_kind(#[trigger] qs@[j]@.kind) implies r@.contains(
                j as usize,
            ) by {
                if j < i {
                    let w = choose|w: int| 0 <= w < pre.len() && pre[w] == j as usize;
                    assert(r@[w] == j as usize);
                } else {
                    assert(r@[r@.len() - 1] == j as usize);
                }
            }
        }
        i = i + 1;
    }
    r
}

/// The content an enrichment step leaves in its slot: the remote prompt and
/// answer on success, the local fallback template on any failure; either
/// way the slot becomes a word problem tagged with the configured
/// difficulty, and whatever was typed or graded on it stays untouched.
pub open spec fn enriched_slot_ok(
    cfg: QuizConfig,
    before: QuestionModel,
    after: QuestionModel,
    outcome: Option<WordProblemResponse>,
) -> bool {
    &&& after.kind == QuestionKind::WordProblem(cfg.difficulty)
    &&& after.user_answer == before.user_answer
    &&& after.graded == before.graded
    &&& match outcome {
        Option::Some(resp) => after.prompt == resp.prompt@ && after.answer == resp.answer as int,
        Option::None => fallback_content_ok(after.prompt, after.answer),
    }
}

/// Write one resolved word problem into slot `idx`: the response content if
/// the remote call succeeded, a locally synthesized fallback otherwise.
/// A stale index — the list shrank since the indices were taken — changes
/// nothing.  Serves both the sequential fill over all reserved slots and a
/// user-triggered re-roll of a single slot.
pub fn apply_enrichment<S: Sampler>(
    qs: &mut Vec<Question>,
    idx: usize,
    outcome: Option<WordProblemResponse>,
    cfg: &QuizConfig,
    rng: &mut S,
)
    ensures
        final(qs)@.len() == old(qs)@.len(),
        forall|j: int|
            0 <= j < final(qs)@.len() && j != idx ==> final(qs)@[j] == old(qs)@[j],
        idx >= old(qs)@.len() ==> final(qs)@ == old(qs)@,
        idx < old(qs)@.len() ==> enriched_slot_ok(
            *cfg,
            old(qs)@[idx as int]@,
            final(qs)@[idx as int]@,
            outcome,
        ),
{
    if idx >= qs.len() {
        return ;
    }
    let (prompt, answer) = match outcome {
        Option::Some(resp) => (resp.prompt, resp.answer),
        Option::None => generate_fallback_word_problem(rng),
    };
    let mut nq = qs[idx].clone();
    nq.prompt = prompt;
    nq.answer = answer;
    nq.kind = QuestionKind::WordProblem(cfg.difficulty);
    qs.set(idx, nq);
}

/// A list that already carries a word slot keeps one across any in-place
/// update that either leaves every slot alone or writes a word slot itself
/// — in particular across every enrichment step, so a run that started
/// with a reserved slot ends with a word problem.
pub proof fn lemma_word_slot_preserved(pre: Seq<Question>, post: Seq<Question>, idx: int)
    requires
        pre.len() == post.len(),
        forall|j: int| 0 <= j < post.len() && j != idx ==> post[j] == pre[j],
        0 <= idx < post.len() ==> is_word_kind(post[idx]@.kind),
        has_word_slot(pre),
    ensures
        has_word_slot(post),
{
    let i = choose|i: int| 0 <= i < pre.len() && is_word_kind(#[trigger] pre[i]@.kind);
    if i == idx {
        assert(is_word_kind(post[idx]@.kind));
    } else {
        assert(post[i] == pre[i]);
        assert(is_word_kind(post[i]@.kind));
    }
}

} // verus!
