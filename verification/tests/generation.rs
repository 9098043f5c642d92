use math_quiz::config::{Difficulty, QuizConfig};
use math_quiz::generate::generate_basic_question;
use math_quiz::question::{BaseOp, Question};
use math_quiz::sampler::{LcgSampler, Sampler};
use math_quiz::schedule::build_quiz;

/// A sampler that replays a fixed script, clamped into the requested range.
struct ScriptSampler {
    vals: Vec<i32>,
    next: usize,
}

impl ScriptSampler {
    fn new(vals: Vec<i32>) -> ScriptSampler {
        ScriptSampler { vals, next: 0 }
    }
}

impl Sampler for ScriptSampler {
    fn sample(&mut self, lo: i32, hi: i32) -> i32 {
        let v = if self.next < self.vals.len() {
            self.vals[self.next]
        } else {
            lo
        };
        self.next += 1;
        v.clamp(lo, hi)
    }
}

fn all_ops_cfg(difficulty: Difficulty) -> QuizConfig {
    QuizConfig {
        question_count: 10,
        difficulty,
        include_add: true,
        include_sub: true,
        include_mul: true,
        include_div: true,
        include_words: false,
    }
}

fn operands(prompt: &str, sym: &str) -> (i32, i32) {
    let rest = prompt.strip_suffix(" = ?").expect("prompt should end in ' = ?'");
    let (a, b) = rest.split_once(sym).expect("prompt should hold two operands");
    (a.parse().unwrap(), b.parse().unwrap())
}

fn addsub_range(d: Difficulty) -> (i32, i32) {
    match d {
        Difficulty::Easy => (0, 9),
        Difficulty::Moderate => (10, 99),
        Difficulty::Advanced => (100, 999),
    }
}

#[test]
fn add_easy_exact() {
    let cfg = all_ops_cfg(Difficulty::Easy);
    let mut rng = ScriptSampler::new(vec![3, 4]);
    let q = generate_basic_question(&cfg, BaseOp::Add, &mut rng);
    assert_eq!(q.prompt, "3 + 4 = ?");
    assert_eq!(q.answer, 7);
    assert_eq!(q.label(), "Addition");
    assert_eq!(q.user_answer, "");
    assert!(q.graded.is_none());
}

#[test]
fn add_operands_in_range_all_difficulties() {
    for d in [Difficulty::Easy, Difficulty::Moderate, Difficulty::Advanced] {
        let cfg = all_ops_cfg(d);
        let mut rng = LcgSampler::new(7);
        let (lo, hi) = addsub_range(d);
        for _ in 0..50 {
            let q = generate_basic_question(&cfg, BaseOp::Add, &mut rng);
            let (a, b) = operands(&q.prompt, " + ");
            assert!(lo <= a && a <= hi);
            assert!(lo <= b && b <= hi);
            assert_eq!(q.answer, a + b);
        }
    }
}

#[test]
fn sub_never_negative() {
    for d in [Difficulty::Easy, Difficulty::Moderate, Difficulty::Advanced] {
        let cfg = all_ops_cfg(d);
        let mut rng = LcgSampler::new(11);
        for _ in 0..50 {
            let q = generate_basic_question(&cfg, BaseOp::Sub, &mut rng);
            let (a, b) = operands(&q.prompt, " − ");
            assert!(b <= a);
            assert_eq!(q.answer, a - b);
            assert!(q.answer >= 0);
        }
    }
}

#[test]
fn sub_easy_exact() {
    let cfg = all_ops_cfg(Difficulty::Easy);
    let mut rng = ScriptSampler::new(vec![9, 5]);
    let q = generate_basic_question(&cfg, BaseOp::Sub, &mut rng);
    assert_eq!(q.prompt, "9 − 5 = ?");
    assert_eq!(q.answer, 4);
    assert_eq!(q.label(), "Subtraction");
}

#[test]
fn mul_easy_exact() {
    let cfg = all_ops_cfg(Difficulty::Easy);
    let mut rng = ScriptSampler::new(vec![3, 4]);
    let q = generate_basic_question(&cfg, BaseOp::Mul, &mut rng);
    assert_eq!(q.prompt, "3 × 4 = ?");
    assert_eq!(q.answer, 12);
    assert_eq!(q.label(), "Multiplication");
}

#[test]
fn div_divides_exactly() {
    for d in [Difficulty::Easy, Difficulty::Moderate, Difficulty::Advanced] {
        let cfg = all_ops_cfg(d);
        let mut rng = LcgSampler::new(13);
        for _ in 0..50 {
            let q = generate_basic_question(&cfg, BaseOp::Div, &mut rng);
            let (dividend, divisor) = operands(&q.prompt, " ÷ ");
            assert!(divisor >= 1);
            assert_eq!(q.answer * divisor, dividend);
        }
    }
}

#[test]
fn div_easy_exact() {
    let cfg = all_ops_cfg(Difficulty::Easy);
    let mut rng = ScriptSampler::new(vec![4, 5]);
    let q = generate_basic_question(&cfg, BaseOp::Div, &mut rng);
    assert_eq!(q.prompt, "20 ÷ 4 = ?");
    assert_eq!(q.answer, 5);
    assert_eq!(q.label(), "Division");
}

#[test]
fn build_quiz_fills_every_slot() {
    let cfg = all_ops_cfg(Difficulty::Moderate);
    let mut rng = LcgSampler::new(99);
    let qs: Vec<Question> = build_quiz(&cfg, &mut rng);
    assert_eq!(qs.len(), 10);
    for q in &qs {
        assert!(!q.is_word_problem());
        assert!(q.user_answer.is_empty());
        assert!(q.graded.is_none());
    }
}

#[test]
fn empty_operation_set_yields_only_addition() {
    let cfg = QuizConfig {
        question_count: 6,
        difficulty: Difficulty::Easy,
        include_add: false,
        include_sub: false,
        include_mul: false,
        include_div: false,
        include_words: false,
    };
    let mut rng = LcgSampler::new(5);
    let qs = build_quiz(&cfg, &mut rng);
    assert_eq!(qs.len(), 6);
    for q in &qs {
        assert_eq!(q.label(), "Addition");
        let (a, b) = operands(&q.prompt, " + ");
        assert_eq!(q.answer, a + b);
    }
}

#[test]
fn word_slot_forced_when_chance_reserves_none() {
    // The word draw never hits zero, so only the forced conversion of slot
    // zero can reserve a word problem.
    let cfg = QuizConfig {
        question_count: 5,
        difficulty: Difficulty::Easy,
        include_add: true,
        include_sub: false,
        include_mul: false,
        include_div: false,
        include_words: true,
    };
    let mut rng = ScriptSampler::new(vec![3; 40]);
    let qs = build_quiz(&cfg, &mut rng);
    assert_eq!(qs.len(), 5);
    assert!(qs[0].is_word_problem());
    assert_eq!(qs[0].prompt, "Loading AI word problem...");
    assert_eq!(qs[0].answer, 0);
    assert_eq!(qs[0].label(), "Word Problem 🌟 (Easy)");
}

#[test]
fn word_slot_reserved_by_draw() {
    let cfg = QuizConfig {
        question_count: 4,
        difficulty: Difficulty::Moderate,
        include_add: true,
        include_sub: false,
        include_mul: false,
        include_div: false,
        include_words: true,
    };
    // First slot's word draw is zero: reserved; later draws never zero.
    let mut rng = ScriptSampler::new(vec![0, 3, 10, 10, 3, 10, 10, 3, 10, 10]);
    let qs = build_quiz(&cfg, &mut rng);
    assert!(qs[0].is_word_problem());
    assert_eq!(qs[0].label(), "Word Problem 🌟 (Moderate)");
    assert!(qs.iter().any(|q| q.is_word_problem()));
}

#[test]
fn lcg_sampler_stays_in_range() {
    let mut rng = LcgSampler::new(0xdead_beef);
    for _ in 0..200 {
        let v = rng.sample(0, 3);
        assert!((0..=3).contains(&v));
        let w = rng.sample(5, 20);
        assert!((5..=20).contains(&w));
        let x = rng.sample(7, 7);
        assert_eq!(x, 7);
    }
}
