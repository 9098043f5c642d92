//! The state store: the one place that owns the current configuration,
//! question list and score.  Every mutation replaces whole values — a
//! caller takes a snapshot, changes it, and publishes it back; nothing
//! hands out a long-lived reference into the store.

use vstd::prelude::*;
use crate::config::{QuizConfig, initial_config};
use crate::enrich::{WordProblemResponse, apply_enrichment, enriched_slot_ok};
use crate::grade::{
    Score, correct_count, grade, grade_of, reset, set_user_answer, with_answer_text, with_graded,
};
use crate::question::Question;
use crate::sampler::Sampler;
use crate::schedule::{build_quiz, has_word_slot, slot_ok};

verus! {

/// The session state the presentation layer reads.
pub struct StateStore {
    pub config: QuizConfig,
    pub questions: Vec<Question>,
    pub score: Score,
}

impl StateStore {
    /// A fresh session: default configuration, no questions, zero score.
    pub fn new() -> (s: StateStore)
        ensures
            s.config == initial_config(),
            s.questions@ == Seq::<Question>::empty(),
            s.score == (Score { correct: 0, total: 0 }),
    {
        StateStore {
            config: QuizConfig::default(),
            questions: Vec::new(),
            score: Score { correct: 0, total: 0 },
        }
    }

    /// Replace the configuration; the published list and score stand until
    /// the next run is generated.
    pub fn set_config(&mut self, c: QuizConfig)
        ensures
            final(self).config == c,
            final(self).questions == old(self).questions,
            final(self).score == old(self).score,
    {
        self.config = c;
    }

    /// Publish a new question list and score wholesale.
    pub fn publish(&mut self, qs: Vec<Question>, sc: Score)
        ensures
            final(self).config == old(self).config,
            final(self).questions == qs,
            final(self).score == sc,
    {
        self.questions = qs;
        self.score = sc;
    }

    /// Build a fresh run from the current configuration and publish the
    /// skeleton list — word slots still reserved — with a zeroed score.
    pub fn start_quiz<S: Sampler>(&mut self, rng: &mut S)
        ensures
            final(self).config == old(self).config,
            final(self).questions@.len() == old(self).config.question_count,
            forall|i: int|
                0 <= i < final(self).questions@.len() ==> slot_ok(
                    old(self).config,
                    #[trigger] final(self).questions@[i]@,
                ),
            old(self).config.include_words && old(self).config.question_count > 0
                ==> has_word_slot(final(self).questions@),
            final(self).score == (Score {
                correct: 0,
                total: old(self).config.question_count as usize,
            }),
    {
        let cfg = self.config;
        let qs = build_quiz(&cfg, rng);
        let total = qs.len();
        self.questions = qs;
        self.score = Score { correct: 0, total };
    }

    /// Resolve one reserved or re-rolled word slot with the outcome of a
    /// remote call, falling back locally when there is none, and republish.
    pub fn enrich_slot<S: Sampler>(
        &mut self,
        idx: usize,
        outcome: Option<WordProblemResponse>,
        rng: &mut S,
    )
        ensures
            final(self).config == old(self).config,
            final(self).score == old(self).score,
            final(self).questions@.len() == old(self).questions@.len(),
            forall|j: int|
                0 <= j < final(self).questions@.len() && j != idx ==> final(self).questions@[j]
                    == old(self).questions@[j],
            idx >= old(self).questions@.len() ==> final(self).questions@ == old(
                self,
            ).questions@,
            idx < old(self).questions@.len() ==> enriched_slot_ok(
                old(self).config,
                old(self).questions@[idx as int]@,
                final(self).questions@[idx as int]@,
                outcome,
            ),
    {
        let cfg = self.config;
        apply_enrichment(&mut self.questions, idx, outcome, &cfg, rng);
    }

    /// Record what the learner typed into one slot, clearing only that
    /// slot's verdict; the aggregate score keeps showing the last explicit
    /// grading pass.
    pub fn set_answer(&mut self, idx: usize, text: String)
        ensures
            final(self).config == old(self).config,
            final(self).score == old(self).score,
            final(self).questions@.len() == old(self).questions@.len(),
            forall|j: int|
                0 <= j < final(self).questions@.len() && j != idx ==> final(self).questions@[j]
                    == old(self).questions@[j],
            idx < old(self).questions@.len() ==> final(self).questions@[idx as int]@
                == with_answer_text(old(self).questions@[idx as int]@, text@),
    {
        set_user_answer(&mut self.questions, idx, text);
    }

    /// Grade the whole list and publish the recomputed score.
    pub fn grade_quiz(&mut self)
        ensures
            final(self).config == old(self).config,
            final(self).questions@.len() == old(self).questions@.len(),
            forall|i: int|
                0 <= i < final(self).questions@.len() ==> #[trigger] final(self).questions@[i]@
                    == with_graded(
                    old(self).questions@[i]@,
                    Option::Some(grade_of(old(self).questions@[i]@)),
                ),
            final(self).score == (Score {
                correct: correct_count(old(self).questions@) as usize,
                total: old(self).questions@.len() as usize,
            }),
    {
        let sc = grade(&mut self.questions);
        self.score = sc;
    }

    /// Clear every typed answer and verdict and zero the score, keeping
    /// the questions themselves.
    pub fn reset_quiz(&mut self)
        ensures
            final(self).config == old(self).config,
            final(self).questions@.len() == old(self).questions@.len(),
            forall|i: int|
                0 <= i < final(self).questions@.len() ==> #[trigger] final(self).questions@[i]@
                    == with_answer_text(old(self).questions@[i]@, Seq::<char>::empty()),
            final(self).score == (Score { correct: 0, total: old(self).questions@.len() as usize }),
    {
        let sc = reset(&mut self.questions);
        self.score = sc;
    }
}

} // verus!
