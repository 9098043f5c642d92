//! The grading engine: compare each typed answer against the stored one,
//! record a verdict per question, and recompute the aggregate score from
//! scratch on every pass.

use vstd::prelude::*;
use crate::parse::{parse_i32_spec, parse_i32_text, trim_spec};
use crate::question::{Question, QuestionModel, pending_placeholder};

verus! {

/// Aggregate result of a grading pass: how many earned their point, out of
/// how many.
#[derive(Clone, Copy, PartialEq, Eq, Structural, Debug)]
pub struct Score {
    pub correct: usize,
    pub total: usize,
}

/// Whether answer text `t` earns the point for stored answer `ans`: it must
/// trim to a well-formed numeral whose value matches exactly.  Unparsable
/// text is simply wrong, never a fault.
pub open spec fn answer_matches(t: Seq<char>, ans: int) -> bool {
    match parse_i32_spec(trim_spec(t)) {
        Option::Some(v) => v == ans,
        Option::None => false,
    }
}

/// The verdict one grading pass records for a question.  A word-problem
/// slot still waiting on its content holds no answer worth grading, so it
/// is incorrect whatever was typed; every other question is graded by
/// matching the typed text against its stored answer.
pub open spec fn grade_of(q: QuestionModel) -> bool {
    !pending_placeholder(q) && answer_matches(q.user_answer, q.answer)
}

/// A question with only its verdict changed.
pub open spec fn with_graded(q: QuestionModel, g: Option<bool>) -> QuestionModel {
    QuestionModel { graded: g, ..q }
}

/// A question with its answer text replaced and its verdict cleared.
pub open spec fn with_answer_text(q: QuestionModel, t: Seq<char>) -> QuestionModel {
    QuestionModel { user_answer: t, graded: Option::None, ..q }
}

/// How many questions of the list a grading pass marks correct.
pub open spec fn correct_count(qs: Seq<Question>) -> int
    decreases qs.len(),
{
    if qs.len() == 0 {
        0
    } else {
        correct_count(qs.drop_last()) + if grade_of(qs.last()@) {
            1int
        } else {
            0
        }
    }
}

/// Grade one piece of answer text against a stored answer.
pub fn grade_answer(text: &str, answer: i32) -> (b: bool)
    ensures
        b == answer_matches(text@, answer as int),
{
    match parse_i32_text(text) {
        Option::Some(v) => v == answer,
        Option::None => false,
    }
}

/// Grade every question in place and return the aggregate score, always
/// recomputed over the whole list.
#[verifier::loop_isolation(false)]
pub fn grade(qs: &mut Vec<Question>) -> (sc: Score)
    ensures
        final(qs)@.len() == old(qs)@.len(),
        forall|i: int|
            0 <= i < final(qs)@.len() ==> #[trigger] final(qs)@[i]@ == with_graded(
                old(qs)@[i]@,
                Option::Some(grade_of(old(qs)@[i]@)),
            ),
        sc.total == final(qs)@.len(),
        sc.correct == correct_count(old(qs)@),
{
    let n = qs.len();
    let mut correct: usize = 0;
    let mut i: usize = 0;
    while i < n
        invariant
            i <= n,
            qs@.len() == n,
            correct <= i,
            forall|j: int|
                0 <= j < i ==> #[trigger] qs@[j]@ == with_graded(
                    old(qs)@[j]@,
                    Option::Some(grade_of(old(qs)@[j]@)),
                ),
            forall|j: int| i <= j < n ==> qs@[j] == old(qs)@[j],
            correct == correct_count(old(qs)@.subrange(0, i as int)),
        decreases n - i,
    {
        let ok = if qs[i].is_pending() {
            false
        } else {
            grade_answer(qs[i].user_answer.as_str(), qs[i].answer)
        };
        let mut nq = qs[i].clone();
        nq.graded = Some(ok);
        qs.set(i, nq);
        if ok {
            correct = correct + 1;
        }
        proof {
            let pre = old(qs)@.subrange(0, i as int);
            let post = old(qs)@.subrange(0, i as int + 1);
            assert(post.drop_last() =~= pre);
            assert(post.last() == old(qs)@[i as int]);
        }
        i = i + 1;
    }
    proof {
        assert(old(qs)@.subrange(0, n as int) =~= old(qs)@);
    }
    Score { correct, total: n }
}

/// Clear every typed answer and every verdict, and return the zeroed score.
#[verifier::loop_isolation(false)]
pub fn reset(qs: &mut Vec<Question>) -> (sc: Score)
    ensures
        final(qs)@.len() == old(qs)@.len(),
        forall|i: int|
            0 <= i < final(qs)@.len() ==> #[trigger] final(qs)@[i]@ == with_answer_text(
                old(qs)@[i]@,
                Seq::<char>::empty(),
            ),
        sc == (Score { correct: 0, total: old(qs)@.len() as usize }),
{
    let n = qs.len();
    let mut i: usize = 0;
    while i < n
        invariant
            i <= n,
            qs@.len() == n,
            forall|j: int|
                0 <= j < i ==> #[trigger] qs@[j]@ == with_answer_text(
                    old(qs)@[j]@,
                    Seq::<char>::empty(),
                ),
            forall|j: int| i <= j < n ==> qs@[j] == old(qs)@[j],
        decreases n - i,
    {
        let mut nq = qs[i].clone();
        nq.user_answer = String::new();
        nq.graded = None;
        qs.set(i, nq);
        i = i + 1;
    }
    Score { correct: 0, total: n }
}

/// Record what the learner typed into one slot, clearing only that slot's
/// verdict; the aggregate score is untouched until the next grading pass.
pub fn set_user_answer(qs: &mut Vec<Question>, idx: usize, text: String)
    ensures
        final(qs)@.len() == old(qs)@.len(),
        forall|j: int|
            0 <= j < final(qs)@.len() && j != idx ==> final(qs)@[j] == old(qs)@[j],
        idx < old(qs)@.len() ==> final(qs)@[idx as int]@ == with_answer_text(
            old(qs)@[idx as int]@,
            text@,
        ),
{
    if idx < qs.len() {
        let mut nq = qs[idx].clone();
        nq.user_answer = text;
        nq.graded = None;
        qs.set(idx, nq);
    }
}

} // verus!
