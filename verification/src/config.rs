//! Quiz parameters: difficulty tiers and the per-run configuration.

use vstd::prelude::*;

verus! {

/// Difficulty tier of a quiz run.  It decides the numeric ranges of every
/// arithmetic operation and the largest number the word-problem service is
/// asked to use.
#[derive(Clone, Copy, PartialEq, Eq, Structural, Debug)]
pub enum Difficulty {
    Easy,
    Moderate,
    Advanced,
}

/// Wire code for a difficulty, exactly as the word-problem service expects
/// it in a request body.
pub open spec fn difficulty_code(d: Difficulty) -> Seq<char> {
    match d {
        Difficulty::Easy => "easy"@,
        Difficulty::Moderate => "moderate"@,
        Difficulty::Advanced => "advanced"@,
    }
}

/// Human-readable difficulty tag, used inside the word-problem kind label.
pub open spec fn difficulty_label(d: Difficulty) -> Seq<char> {
    match d {
        Difficulty::Easy => "Easy"@,
        Difficulty::Moderate => "Moderate"@,
        Difficulty::Advanced => "Advanced"@,
    }
}

/// Largest number a remote word problem may mention at this difficulty.
pub open spec fn max_number_of(d: Difficulty) -> int {
    match d {
        Difficulty::Easy => 9,
        Difficulty::Moderate => 99,
        Difficulty::Advanced => 999,
    }
}

/// Parameters of one quiz run.  The operation toggles form the enabled set;
/// it may be empty, in which case generation falls back to addition so that
/// a run always has something to draw from.
#[derive(Clone, Copy, PartialEq, Eq, Structural, Debug)]
pub struct QuizConfig {
    pub question_count: usize,
    pub difficulty: Difficulty,
    pub include_add: bool,
    pub include_sub: bool,
    pub include_mul: bool,
    pub include_div: bool,
    pub include_words: bool,
}

/// The configuration a fresh session starts from: ten questions, easy,
/// addition and subtraction enabled, word problems on.
pub open spec fn initial_config() -> QuizConfig {
    QuizConfig {
        question_count: 10,
        difficulty: Difficulty::Easy,
        include_add: true,
        include_sub: true,
        include_mul: false,
        include_div: false,
        include_words: true,
    }
}

impl Default for QuizConfig {
    /// Starting configuration: ten questions, easy, addition and
    /// subtraction enabled, word problems on.
    fn default() -> (c: QuizConfig)
        ensures
            c == initial_config(),
    {
        QuizConfig {
            question_count: 10,
            difficulty: Difficulty::Easy,
            include_add: true,
            include_sub: true,
            include_mul: false,
            include_div: false,
            include_words: true,
        }
    }
}

impl QuizConfig {
    /// True when no arithmetic operation is toggled on.
    pub open spec fn no_ops_enabled(self) -> bool {
        !self.include_add && !self.include_sub && !self.include_mul && !self.include_div
    }
}

/// The difficulty wire code, as an owned string for a request body.
pub fn difficulty_code_text(d: Difficulty) -> (r: String)
    ensures
        r@ == difficulty_code(d),
{
    match d {
        Difficulty::Easy => String::from_str("easy"),
        Difficulty::Moderate => String::from_str("moderate"),
        Difficulty::Advanced => String::from_str("advanced"),
    }
}

/// The difficulty tag, as an owned string for a kind label.
pub fn difficulty_label_text(d: Difficulty) -> (r: String)
    ensures
        r@ == difficulty_label(d),
{
    match d {
        Difficulty::Easy => String::from_str("Easy"),
        Difficulty::Moderate => String::from_str("Moderate"),
        Difficulty::Advanced => String::from_str("Advanced"),
    }
}

/// The largest number a remote word problem may mention, per difficulty.
pub fn max_number_for(d: Difficulty) -> (r: i32)
    ensures
        r as int == max_number_of(d),
{
    match d {
        Difficulty::Easy => 9,
        Difficulty::Moderate => 99,
        Difficulty::Advanced => 999,
    }
}

} // verus!
