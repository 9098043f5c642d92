//! The question type, its mathematical model, and the kind labels shown
//! beside each prompt.

use vstd::prelude::*;
use crate::config::{Difficulty, difficulty_label, difficulty_label_text};

verus! {

/// One of the four basic arithmetic operations.
#[derive(Clone, Copy, PartialEq, Eq, Structural, Debug)]
pub enum BaseOp {
    Add,
    Sub,
    Mul,
    Div,
}

/// What a question slot holds: a basic arithmetic question of one
/// operation, or a word problem tagged with the difficulty it was made for.
#[derive(Clone, Copy, PartialEq, Eq, Structural, Debug)]
pub enum QuestionKind {
    Basic(BaseOp),
    WordProblem(Difficulty),
}

pub open spec fn is_word_kind(k: QuestionKind) -> bool {
    k is WordProblem
}

/// The label shown beside a question, derived from its kind alone.
pub open spec fn kind_label(k: QuestionKind) -> Seq<char> {
    match k {
        QuestionKind::Basic(BaseOp::Add) => "Addition"@,
        QuestionKind::Basic(BaseOp::Sub) => "Subtraction"@,
        QuestionKind::Basic(BaseOp::Mul) => "Multiplication"@,
        QuestionKind::Basic(BaseOp::Div) => "Division"@,
        QuestionKind::WordProblem(d) => "Word Problem 🌟 ("@ + difficulty_label(d) + ")"@,
    }
}

/// One quiz slot.  `prompt`, `kind` and `answer` are the question itself;
/// `user_answer` is whatever the learner typed; `graded` is unset until a
/// grading pass and records the verdict of the most recent one.
#[derive(PartialEq, Debug)]
pub struct Question {
    pub prompt: String,
    pub kind: QuestionKind,
    pub answer: i32,
    pub user_answer: String,
    pub graded: Option<bool>,
}

/// The mathematical value of a question: its text fields as character
/// sequences and its answer as an unbounded integer.
#[verifier::ext_equal]
pub ghost struct QuestionModel {
    pub prompt: Seq<char>,
    pub kind: QuestionKind,
    pub answer: int,
    pub user_answer: Seq<char>,
    pub graded: Option<bool>,
}

impl View for Question {
    type V = QuestionModel;

    open spec fn view(&self) -> QuestionModel {
        QuestionModel {
            prompt: self.prompt@,
            kind: self.kind,
            answer: self.answer as int,
            user_answer: self.user_answer@,
            graded: self.graded,
        }
    }
}

impl Clone for Question {
    fn clone(&self) -> (r: Self)
        ensures
            r@ == self@,
    {
        Question {
            prompt: self.prompt.clone(),
            kind: self.kind,
            answer: self.answer,
            user_answer: self.user_answer.clone(),
            graded: self.graded,
        }
    }
}

impl Question {
    /// True when this slot is (or is reserved for) a word problem.
    pub fn is_word_problem(&self) -> (b: bool)
        ensures
            b == is_word_kind(self@.kind),
    {
        match self.kind {
            QuestionKind::WordProblem(_) => true,
            _ => false,
        }
    }

    /// True while this slot is a word problem whose content has not been
    /// resolved yet.
    pub fn is_pending(&self) -> (b: bool)
        ensures
            b == pending_placeholder(self@),
    {
        let sentinel = String::from_str("Loading AI word problem...");
        self.is_word_problem() && self.prompt == sentinel
    }

    /// The label for this question's kind.
    pub fn label(&self) -> (r: String)
        ensures
            r@ == kind_label(self@.kind),
    {
        match self.kind {
            QuestionKind::Basic(BaseOp::Add) => String::from_str("Addition"),
            QuestionKind::Basic(BaseOp::Sub) => String::from_str("Subtraction"),
            QuestionKind::Basic(BaseOp::Mul) => String::from_str("Multiplication"),
            QuestionKind::Basic(BaseOp::Div) => String::from_str("Division"),
            QuestionKind::WordProblem(d) => {
                let mut s = String::from_str("Word Problem 🌟 (");
                let tag = difficulty_label_text(d);
                s.append(tag.as_str());
                s.append(")");
                proof {
                    assert(s@ =~= kind_label(self@.kind));
                }
                s
            },
        }
    }
}

/// A question is a word problem exactly when its label begins with the
/// word-problem tag — so tag matching on labels and matching on the kind
/// itself agree.
pub proof fn lemma_word_label(k: QuestionKind)
    ensures
        is_word_kind(k) <==> (kind_label(k).len() >= 13 && kind_label(k).subrange(0, 13)
            == "Word Problem "@),
{
    reveal_strlit("Addition");
    reveal_strlit("Subtraction");
    reveal_strlit("Multiplication");
    reveal_strlit("Division");
    reveal_strlit("Word Problem 🌟 (");
    reveal_strlit("Word Problem ");
    match k {
        QuestionKind::Basic(BaseOp::Add) => {
            assert(kind_label(k).len() == 8);
        },
        QuestionKind::Basic(BaseOp::Sub) => {
            assert(kind_label(k).len() == 11);
        },
        QuestionKind::Basic(BaseOp::Mul) => {
            if kind_label(k).len() >= 13 && kind_label(k).subrange(0, 13) == "Word Problem "@ {
                assert(kind_label(k).subrange(0, 13)[0] == 'M');
                assert("Word Problem "@[0] == 'W');
                assert(false);
            }
        },
        QuestionKind::Basic(BaseOp::Div) => {
            assert(kind_label(k).len() == 8);
        },
        QuestionKind::WordProblem(d) => {
            assert(kind_label(k).len() >= 14);
            assert(kind_label(k).subrange(0, 13) =~= "Word Problem "@);
        },
    }
}

/// The sentinel text a reserved word-problem slot shows until it is
/// resolved.
pub open spec fn placeholder_prompt() -> Seq<char> {
    "Loading AI word problem..."@
}

/// A reserved word-problem slot: sentinel prompt, answer zero, word-problem
/// kind.  It carries no real answer until enrichment resolves it, so the
/// grading engine marks a still-pending slot incorrect whatever was typed.
pub open spec fn placeholder_ok(d: Difficulty, q: QuestionModel) -> bool {
    &&& q.prompt == placeholder_prompt()
    &&& q.answer == 0
    &&& q.kind == QuestionKind::WordProblem(d)
}

/// A word-problem slot whose prompt is still the loading sentinel: it has
/// not been resolved yet and holds no answer worth grading against.
pub open spec fn pending_placeholder(q: QuestionModel) -> bool {
    &&& is_word_kind(q.kind)
    &&& q.prompt == placeholder_prompt()
}

/// A question nobody has answered or graded yet.
pub open spec fn fresh_response_state(q: QuestionModel) -> bool {
    &&& q.user_answer == Seq::<char>::empty()
    &&& q.graded is None
}

/// A fresh placeholder slot for a word problem at difficulty `d`.
pub fn placeholder_question(d: Difficulty) -> (q: Question)
    ensures
        placeholder_ok(d, q@),
        fresh_response_state(q@),
{
    Question {
        prompt: String::from_str("Loading AI word problem..."),
        kind: QuestionKind::WordProblem(d),
        answer: 0,
        user_answer: String::new(),
        graded: None,
    }
}

} // verus!
