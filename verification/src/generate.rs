//! Range-based generation of basic arithmetic questions, and the local
//! fallback word problem used when the remote service does not deliver.

use vstd::prelude::*;
use crate::config::{Difficulty, QuizConfig};
use crate::question::{BaseOp, Question, QuestionKind, QuestionModel, fresh_response_state};
use crate::sampler::Sampler;
use crate::text::{dec_str, i32_text};

verus! {

/// Operand range for addition and subtraction, per difficulty.
pub open spec fn addsub_lo(d: Difficulty) -> int {
    match d {
        Difficulty::Easy => 0,
        Difficulty::Moderate => 10,
        Difficulty::Advanced => 100,
    }
}

pub open spec fn addsub_hi(d: Difficulty) -> int {
    match d {
        Difficulty::Easy => 9,
        Difficulty::Moderate => 99,
        Difficulty::Advanced => 999,
    }
}

/// Factor range for multiplication, per difficulty.
pub open spec fn mul_lo(d: Difficulty) -> int {
    match d {
        Difficulty::Easy => 0,
        Difficulty::Moderate => 2,
        Difficulty::Advanced => 5,
    }
}

pub open spec fn mul_hi(d: Difficulty) -> int {
    match d {
        Difficulty::Easy => 5,
        Difficulty::Moderate => 12,
        Difficulty::Advanced => 20,
    }
}

/// Quotient range for division, per difficulty; the divisor is drawn from
/// `[1, div_q_hi(d)]`.
pub open spec fn div_q_lo(d: Difficulty) -> int {
    match d {
        Difficulty::Easy => 1,
        Difficulty::Moderate => 2,
        Difficulty::Advanced => 5,
    }
}

pub open spec fn div_q_hi(d: Difficulty) -> int {
    match d {
        Difficulty::Easy => 9,
        Difficulty::Moderate => 12,
        Difficulty::Advanced => 20,
    }
}

/// The prompt text of a two-operand question: both operands in decimal
/// around the operator symbol, then ` = ?`.
pub open spec fn binop_prompt(a: int, sym: Seq<char>, b: int) -> Seq<char> {
    dec_str(a) + sym + dec_str(b) + " = ?"@
}

pub open spec fn add_prompt(a: int, b: int) -> Seq<char> {
    binop_prompt(a, " + "@, b)
}

pub open spec fn sub_prompt(a: int, b: int) -> Seq<char> {
    binop_prompt(a, " − "@, b)
}

pub open spec fn mul_prompt(a: int, b: int) -> Seq<char> {
    binop_prompt(a, " × "@, b)
}

/// The division prompt shows the dividend and the divisor.
pub open spec fn div_prompt(dividend: int, divisor: int) -> Seq<char> {
    binop_prompt(dividend, " ÷ "@, divisor)
}

/// The division prompt as composed from divisor and quotient: the shown
/// dividend is their product.
pub open spec fn div_prompt_of_factors(dv: int, qt: int) -> Seq<char> {
    div_prompt(dv * qt, dv)
}

/// An addition question at difficulty `d`: both operands lie in the
/// documented range and the answer is their sum.
pub open spec fn add_content_ok(d: Difficulty, prompt: Seq<char>, ans: int) -> bool {
    exists|a: int, b: int|
        #![auto]
        addsub_lo(d) <= a <= addsub_hi(d) && addsub_lo(d) <= b <= addsub_hi(d) && prompt
            == add_prompt(a, b) && ans == a + b
}

/// A subtraction question: the subtrahend never exceeds the minuend, so the
/// answer is never negative.
pub open spec fn sub_content_ok(d: Difficulty, prompt: Seq<char>, ans: int) -> bool {
    exists|a: int, b: int|
        #![auto]
        addsub_lo(d) <= a <= addsub_hi(d) && 0 <= b <= a && prompt == sub_prompt(a, b) && ans == a
            - b
}

/// A multiplication question: both factors in range, answer their product.
pub open spec fn mul_content_ok(d: Difficulty, prompt: Seq<char>, ans: int) -> bool {
    exists|a: int, b: int|
        #![auto]
        mul_lo(d) <= a <= mul_hi(d) && mul_lo(d) <= b <= mul_hi(d) && prompt == mul_prompt(a, b)
            && ans == a * b
}

/// A division question: the shown dividend is the divisor times the
/// quotient, so the answer divides it exactly.
pub open spec fn div_content_ok(d: Difficulty, prompt: Seq<char>, ans: int) -> bool {
    exists|dv: int, qt: int|
        #![auto]
        1 <= dv <= div_q_hi(d) && div_q_lo(d) <= qt <= div_q_hi(d) && prompt
            == div_prompt_of_factors(dv, qt) && ans == qt
}

/// The content a basic question of operation `op` must hold at
/// difficulty `d`.
pub open spec fn basic_content_ok(d: Difficulty, op: BaseOp, q: QuestionModel) -> bool {
    &&& q.kind == QuestionKind::Basic(op)
    &&& match op {
        BaseOp::Add => add_content_ok(d, q.prompt, q.answer),
        BaseOp::Sub => sub_content_ok(d, q.prompt, q.answer),
        BaseOp::Mul => mul_content_ok(d, q.prompt, q.answer),
        BaseOp::Div => div_content_ok(d, q.prompt, q.answer),
    }
}

/// A subtraction answer is never negative.
pub proof fn lemma_sub_answer_nonneg(d: Difficulty, prompt: Seq<char>, ans: int)
    requires
        sub_content_ok(d, prompt, ans),
    ensures
        ans >= 0,
{
    let (a, b) = choose|a: int, b: int|
        #![auto]
        addsub_lo(d) <= a <= addsub_hi(d) && 0 <= b <= a && prompt == sub_prompt(a, b) && ans == a
            - b;
}

/// A division answer times its divisor gives back exactly the dividend that
/// the prompt shows, and the divisor is at least one.
pub proof fn lemma_div_answer_exact(d: Difficulty, prompt: Seq<char>, ans: int)
    requires
        div_content_ok(d, prompt, ans),
    ensures
        exists|dv: int, dd: int| #![auto] 1 <= dv && ans * dv == dd && prompt == div_prompt(dd, dv),
{
    let (dv, qt) = choose|dv: int, qt: int|
        #![auto]
        1 <= dv <= div_q_hi(d) && div_q_lo(d) <= qt <= div_q_hi(d) && prompt
            == div_prompt_of_factors(dv, qt) && ans == qt;
    assert(ans * dv == dv * qt) by (nonlinear_arith)
        requires
            ans == qt,
    ;
    assert(1 <= dv && ans * dv == dv * qt && prompt == div_prompt(dv * qt, dv));
}

fn addsub_bounds(d: Difficulty) -> (r: (i32, i32))
    ensures
        r.0 as int == addsub_lo(d),
        r.1 as int == addsub_hi(d),
{
    match d {
        Difficulty::Easy => (0, 9),
        Difficulty::Moderate => (10, 99),
        Difficulty::Advanced => (100, 999),
    }
}

fn mul_bounds(d: Difficulty) -> (r: (i32, i32))
    ensures
        r.0 as int == mul_lo(d),
        r.1 as int == mul_hi(d),
{
    match d {
        Difficulty::Easy => (0, 5),
        Difficulty::Moderate => (2, 12),
        Difficulty::Advanced => (5, 20),
    }
}

fn div_q_bounds(d: Difficulty) -> (r: (i32, i32))
    ensures
        r.0 as int == div_q_lo(d),
        r.1 as int == div_q_hi(d),
{
    match d {
        Difficulty::Easy => (1, 9),
        Difficulty::Moderate => (2, 12),
        Difficulty::Advanced => (5, 20),
    }
}

/// Renders `a <sym> b = ?`.
fn binop_prompt_text(a: i32, sym: &str, b: i32) -> (r: String)
    requires
        a >= 0,
        b >= 0,
    ensures
        r@ == binop_prompt(a as int, sym@, b as int),
{
    let mut s = i32_text(a);
    s.append(sym);
    let bt = i32_text(b);
    s.append(bt.as_str());
    s.append(" = ?");
    proof {
        assert(s@ =~= binop_prompt(a as int, sym@, b as int));
    }
    s
}

/// Generate one basic question of operation `op` at the configured
/// difficulty, with nobody's answer on it yet.
pub fn generate_basic_question<S: Sampler>(cfg: &QuizConfig, op: BaseOp, rng: &mut S) -> (q:
    Question)
    ensures
        basic_content_ok(cfg.difficulty, op, q@),
        fresh_response_state(q@),
{
    match op {
        BaseOp::Add => {
            let (lo, hi) = addsub_bounds(cfg.difficulty);
            let a = rng.sample(lo, hi);
            let b = rng.sample(lo, hi);
            let q = Question {
                prompt: binop_prompt_text(a, " + ", b),
                kind: QuestionKind::Basic(BaseOp::Add),
                answer: a + b,
                user_answer: String::new(),
                graded: None,
            };
            proof {
                assert(q@.prompt == add_prompt(a as int, b as int));
            }
            q
        },
        BaseOp::Sub => {
            let (lo, hi) = addsub_bounds(cfg.difficulty);
            let a = rng.sample(lo, hi);
            let b = rng.sample(0, a);
            let q = Question {
                prompt: binop_prompt_text(a, " − ", b),
                kind: QuestionKind::Basic(BaseOp::Sub),
                answer: a - b,
                user_answer: String::new(),
                graded: None,
            };
            proof {
                assert(q@.prompt == sub_prompt(a as int, b as int));
            }
            q
        },
        BaseOp::Mul => {
            let (lo, hi) = mul_bounds(cfg.difficulty);
            let a = rng.sample(lo, hi);
            let b = rng.sample(lo, hi);
            proof {
                assert(a * b <= 400 && a * b >= 0) by (nonlinear_arith)
                    requires
                        0 <= a <= 20,
                        0 <= b <= 20,
                ;
            }
            let q = Question {
                prompt: binop_prompt_text(a, " × ", b),
                kind: QuestionKind::Basic(BaseOp::Mul),
                answer: a * b,
                user_answer: String::new(),
                graded: None,
            };
            proof {
                assert(q@.prompt == mul_prompt(a as int, b as int));
            }
            q
        },
        BaseOp::Div => {
            let (lo, hi) = div_q_bounds(cfg.difficulty);
            let divisor = rng.sample(1, hi);
            let quotient = rng.sample(lo, hi);
            proof {
                assert(divisor * quotient <= 400 && divisor * quotient >= 0) by (nonlinear_arith)
                    requires
                        1 <= divisor <= 20,
                        0 <= quotient <= 20,
                ;
            }
            let dividend = divisor * quotient;
            let q = Question {
                prompt: binop_prompt_text(dividend, " ÷ ", divisor),
                kind: QuestionKind::Basic(BaseOp::Div),
                answer: quotient,
                user_answer: String::new(),
                graded: None,
            };
            proof {
                assert(q@.prompt == div_prompt_of_factors(divisor as int, quotient as int));
            }
            q
        },
    }
}

/// The template of the locally synthesized word problem.
pub open spec fn fallback_prompt(a: int, b: int) -> Seq<char> {
    "Kiki has "@ + dec_str(a) + " stickers. She gets "@ + dec_str(b)
        + " more from a friend. How many stickers does Kiki have now?"@
}

/// A locally synthesized word problem: the documented template with
/// `a` in `[3, 15]`, `b` in `[2, 10]`, and the sum as its answer.
pub open spec fn fallback_content_ok(prompt: Seq<char>, ans: int) -> bool {
    exists|a: int, b: int|
        #![auto]
        3 <= a <= 15 && 2 <= b <= 10 && prompt == fallback_prompt(a, b) && ans == a + b
}

/// Synthesize the local fallback word problem; used whenever the remote
/// service does not deliver one.
pub fn generate_fallback_word_problem<S: Sampler>(rng: &mut S) -> (r: (String, i32))
    ensures
        fallback_content_ok(r.0@, r.1 as int),
{
    let a = rng.sample(3, 15);
    let b = rng.sample(2, 10);
    let mut s = String::from_str("Kiki has ");
    let at = i32_text(a);
    s.append(at.as_str());
    s.append(" stickers. She gets ");
    let bt = i32_text(b);
    s.append(bt.as_str());
    s.append(" more from a friend. How many stickers does Kiki have now?");
    proof {
        assert(s@ =~= fallback_prompt(a as int, b as int));
    }
    (s, a + b)
}

} // verus!
