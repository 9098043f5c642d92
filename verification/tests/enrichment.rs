use math_quiz::config::{Difficulty, QuizConfig};
use math_quiz::enrich::{
    apply_enrichment, placeholder_indices, word_problem_request, WordProblemResponse,
};
use math_quiz::question::{placeholder_question, BaseOp, Question, QuestionKind};
use math_quiz::sampler::LcgSampler;
use math_quiz::schedule::build_quiz;
use math_quiz::store::StateStore;

fn words_cfg(n: usize, difficulty: Difficulty) -> QuizConfig {
    QuizConfig {
        question_count: n,
        difficulty,
        include_add: true,
        include_sub: true,
        include_mul: false,
        include_div: false,
        include_words: true,
    }
}

fn basic(answer: i32) -> Question {
    Question {
        prompt: String::from("1 + 1 = ?"),
        kind: QuestionKind::Basic(BaseOp::Add),
        answer,
        user_answer: String::new(),
        graded: None,
    }
}

/// Pull the two drawn operands back out of a fallback prompt.
fn fallback_operands(prompt: &str) -> (i32, i32) {
    let rest = prompt.strip_prefix("Kiki has ").expect("fallback template");
    let (a, rest) = rest.split_once(" stickers. She gets ").expect("fallback template");
    let (b, tail) = rest.split_once(" more from a friend.").expect("fallback template");
    assert_eq!(tail, " How many stickers does Kiki have now?");
    (a.parse().unwrap(), b.parse().unwrap())
}

#[test]
fn request_carries_code_and_cap() {
    let r = word_problem_request(&words_cfg(5, Difficulty::Easy));
    assert_eq!(r.difficulty, "easy");
    assert_eq!(r.max_number, 9);
    let r = word_problem_request(&words_cfg(5, Difficulty::Moderate));
    assert_eq!(r.difficulty, "moderate");
    assert_eq!(r.max_number, 99);
    let r = word_problem_request(&words_cfg(5, Difficulty::Advanced));
    assert_eq!(r.difficulty, "advanced");
    assert_eq!(r.max_number, 999);
}

#[test]
fn placeholder_indices_in_order() {
    let qs = vec![
        basic(2),
        placeholder_question(Difficulty::Easy),
        basic(3),
        placeholder_question(Difficulty::Easy),
    ];
    let idxs = placeholder_indices(&qs);
    assert_eq!(idxs, vec![1, 3]);
}

#[test]
fn success_response_fills_slot() {
    let cfg = words_cfg(3, Difficulty::Easy);
    let mut qs = vec![placeholder_question(Difficulty::Easy), basic(2), basic(3)];
    let mut rng = LcgSampler::new(1);
    let resp = WordProblemResponse {
        prompt: String::from("Ana has 3 apples and finds 2 more. How many now?"),
        answer: 5,
    };
    apply_enrichment(&mut qs, 0, Some(resp), &cfg, &mut rng);
    assert_eq!(qs[0].prompt, "Ana has 3 apples and finds 2 more. How many now?");
    assert_eq!(qs[0].answer, 5);
    assert!(qs[0].is_word_problem());
    assert_eq!(qs[0].label(), "Word Problem 🌟 (Easy)");
    assert_eq!(qs[1].prompt, "1 + 1 = ?");
    assert_eq!(qs[2].answer, 3);
}

#[test]
fn every_failure_falls_back_locally() {
    let cfg = words_cfg(8, Difficulty::Moderate);
    let mut rng = LcgSampler::new(21);
    let mut qs = build_quiz(&cfg, &mut rng);
    let idxs = placeholder_indices(&qs);
    assert!(!idxs.is_empty());
    for idx in idxs.iter().copied() {
        apply_enrichment(&mut qs, idx, None, &cfg, &mut rng);
    }
    for idx in idxs {
        let q = &qs[idx];
        assert!(q.is_word_problem());
        assert_eq!(q.label(), "Word Problem 🌟 (Moderate)");
        let (a, b) = fallback_operands(&q.prompt);
        assert!((3..=15).contains(&a));
        assert!((2..=10).contains(&b));
        assert_eq!(q.answer, a + b);
    }
}

#[test]
fn stale_index_changes_nothing() {
    let cfg = words_cfg(2, Difficulty::Easy);
    let mut qs = vec![basic(2), basic(3)];
    let mut rng = LcgSampler::new(3);
    apply_enrichment(&mut qs, 5, None, &cfg, &mut rng);
    assert_eq!(qs.len(), 2);
    assert_eq!(qs[0].prompt, "1 + 1 = ?");
    assert!(!qs[0].is_word_problem());
}

#[test]
fn regenerate_touches_one_resolved_slot() {
    let cfg = words_cfg(2, Difficulty::Easy);
    let mut rng = LcgSampler::new(17);
    let mut qs = vec![placeholder_question(Difficulty::Easy), basic(4)];
    apply_enrichment(&mut qs, 0, None, &cfg, &mut rng);
    let first = qs[0].prompt.clone();
    let resp = WordProblemResponse { prompt: String::from("Two birds join three. How many?"), answer: 5 };
    apply_enrichment(&mut qs, 0, Some(resp), &cfg, &mut rng);
    assert_ne!(qs[0].prompt, first);
    assert_eq!(qs[0].answer, 5);
    assert_eq!(qs[1].answer, 4);
}

#[test]
fn word_problem_survives_enrichment() {
    for n in [1usize, 2, 5, 12] {
        let cfg = words_cfg(n, Difficulty::Easy);
        let mut rng = LcgSampler::new(n as u64 + 100);
        let mut qs = build_quiz(&cfg, &mut rng);
        let idxs = placeholder_indices(&qs);
        for idx in idxs {
            apply_enrichment(&mut qs, idx, None, &cfg, &mut rng);
        }
        assert!(qs.iter().any(|q| q.is_word_problem()));
        assert!(qs.iter().any(|q| q.label().starts_with("Word Problem ")));
    }
}

#[test]
fn store_session_flow() {
    let mut store = StateStore::new();
    assert_eq!(store.score.total, 0);
    assert!(store.questions.is_empty());

    let mut cfg = store.config;
    cfg.question_count = 6;
    cfg.difficulty = Difficulty::Easy;
    store.set_config(cfg);

    let mut rng = LcgSampler::new(2024);
    store.start_quiz(&mut rng);
    assert_eq!(store.questions.len(), 6);
    assert_eq!(store.score.correct, 0);
    assert_eq!(store.score.total, 6);

    let idxs = placeholder_indices(&store.questions);
    assert!(!idxs.is_empty());
    for idx in idxs {
        store.enrich_slot(idx, None, &mut rng);
    }
    assert!(store.questions.iter().all(|q| q.prompt != "Loading AI word problem..."));

    let answer_text = store.questions[0].answer.to_string();
    store.set_answer(0, answer_text);
    store.grade_quiz();
    assert_eq!(store.score.total, 6);
    assert!(store.score.correct >= 1);
    assert_eq!(store.questions[0].graded, Some(true));

    store.reset_quiz();
    assert_eq!(store.score.correct, 0);
    assert_eq!(store.score.total, 6);
    for q in &store.questions {
        assert_eq!(q.user_answer, "");
        assert_eq!(q.graded, None);
    }
}
