//! The placeholder scheduler: builds the full question list for a run,
//! choosing per slot between a basic question and a reserved word-problem
//! slot, and guaranteeing at least one reserved slot whenever word problems
//! were requested.

use vstd::prelude::*;
use crate::config::QuizConfig;
use crate::generate::{basic_content_ok, generate_basic_question};
use crate::question::{
    BaseOp, Question, QuestionKind, QuestionModel, fresh_response_state, is_word_kind,
    placeholder_ok, placeholder_question,
};
use crate::sampler::Sampler;

verus! {

/// Which operations a slot may draw from: the enabled set, or addition
/// alone when nothing is enabled, so that a run always has something to
/// draw from.
pub open spec fn op_allowed(cfg: QuizConfig, op: BaseOp) -> bool {
    if cfg.no_ops_enabled() {
        op == BaseOp::Add
    } else {
        match op {
            BaseOp::Add => cfg.include_add,
            BaseOp::Sub => cfg.include_sub,
            BaseOp::Mul => cfg.include_mul,
            BaseOp::Div => cfg.include_div,
        }
    }
}

/// What one freshly built slot may hold: a reserved word-problem slot (only
/// when word problems were requested), or a basic question of an allowed
/// operation.  Either way, nobody has answered or graded it yet.
pub open spec fn slot_ok(cfg: QuizConfig, q: QuestionModel) -> bool {
    &&& fresh_response_state(q)
    &&& {
        ||| (cfg.include_words && placeholder_ok(cfg.difficulty, q))
        ||| (exists|op: BaseOp|
            #![auto]
            op_allowed(cfg, op) && basic_content_ok(cfg.difficulty, op, q))
    }
}

/// Some slot of the list is (or is reserved for) a word problem.
pub open spec fn has_word_slot(qs: Seq<Question>) -> bool {
    exists|i: int| 0 <= i < qs.len() && is_word_kind(#[trigger] qs[i]@.kind)
}

/// With every operation toggle off and word problems off, a well-built slot
/// can only be an addition question.
pub proof fn lemma_empty_ops_all_addition(cfg: QuizConfig, q: QuestionModel)
    requires
        cfg.no_ops_enabled(),
        !cfg.include_words,
        slot_ok(cfg, q),
    ensures
        basic_content_ok(cfg.difficulty, BaseOp::Add, q),
{
    let op = choose|op: BaseOp|
        #![auto]
        op_allowed(cfg, op) && basic_content_ok(cfg.difficulty, op, q);
    assert(op == BaseOp::Add);
}

/// With word problems off, a well-built slot is never a word problem: the
/// toggle alone decides whether any slot can be reserved.
pub proof fn lemma_no_word_slot_when_disabled(cfg: QuizConfig, q: QuestionModel)
    requires
        !cfg.include_words,
        slot_ok(cfg, q),
    ensures
        !is_word_kind(q.kind),
{
    let op = choose|op: BaseOp|
        #![auto]
        op_allowed(cfg, op) && basic_content_ok(cfg.difficulty, op, q);
    assert(q.kind == QuestionKind::Basic(op));
}

/// The operations a run draws from, as a non-empty list.
fn enabled_ops(cfg: &QuizConfig) -> (ops: Vec<BaseOp>)
    ensures
        1 <= ops@.len() <= 4,
        forall|k: int| 0 <= k < ops@.len() ==> op_allowed(*cfg, #[trigger] ops@[k]),
{
    let mut ops: Vec<BaseOp> = Vec::new();
    if cfg.include_add {
        ops.push(BaseOp::Add);
    }
    if cfg.include_sub {
        ops.push(BaseOp::Sub);
    }
    if cfg.include_mul {
        ops.push(BaseOp::Mul);
    }
    if cfg.include_div {
        ops.push(BaseOp::Div);
    }
    if ops.len() == 0 {
        ops.push(BaseOp::Add);
    }
    ops
}

/// Build the question list for one run: `cfg.question_count` slots, each a
/// basic question of an allowed operation or — when word problems are on,
/// with one-in-four odds — a reserved word-problem slot.  If word problems
/// were requested and chance reserved none, slot zero is converted, so a
/// non-empty list always carries at least one.
pub fn build_quiz<S: Sampler>(cfg: &QuizConfig, rng: &mut S) -> (qs: Vec<Question>)
    ensures
        qs@.len() == cfg.question_count,
        forall|i: int| 0 <= i < qs@.len() ==> slot_ok(*cfg, #[trigger] qs@[i]@),
        cfg.include_words && cfg.question_count > 0 ==> has_word_slot(qs@),
{
    let ops = enabled_ops(cfg);
    let mut qs: Vec<Question> = Vec::new();
    let mut word_count: usize = 0;
    let mut i: usize = 0;
    while i < cfg.question_count
        invariant
            i <= cfg.question_count,
            qs@.len() == i,
            word_count <= i,
            1 <= ops@.len() <= 4,
            forall|k: int| 0 <= k < ops@.len() ==> op_allowed(*cfg, #[trigger] ops@[k]),
            forall|j: int| 0 <= j < qs@.len() ==> slot_ok(*cfg, #[trigger] qs@[j]@),
            word_count > 0 ==> has_word_slot(qs@),
        decreases cfg.question_count - i,
    {
        let make_word = cfg.include_words && rng.sample(0, 3) == 0;
        if make_word {
            word_count = word_count + 1;
            qs.push(placeholder_question(cfg.difficulty));
            proof {
                assert(is_word_kind(qs@[qs@.len() - 1]@.kind));
            }
        } else {
            let ghost pre = qs@;
            let pick = rng.sample(0, (ops.len() - 1) as i32);
            let op = ops[pick as usize];
            qs.push(generate_basic_question(cfg, op, rng));
            proof {
                assert(slot_ok(*cfg, qs@[qs@.len() - 1]@));
                if word_count > 0 {
                    let wi = choose|wi: int| 0 <= wi < pre.len() && is_word_kind(pre[wi]@.kind);
                    assert(is_word_kind(qs@[wi]@.kind));
                }
            }
        }
        i = i + 1;
    }
    if cfg.include_words && word_count == 0 && qs.len() > 0 {
        qs.set(0, placeholder_question(cfg.difficulty));
        proof {
            assert(is_word_kind(qs@[0]@.kind));
        }
    }
    qs
}

} // verus!
