use quizzle_migrator::decoder::QuizFormat;
use quizzle_migrator::formats::{
    BfsitInfo, BfsitQuestion, BfsitQuiz, Quizzle1Answer, Quizzle1Question, Quizzle1Quiz,
    Quizzle2Answer, Quizzle2Question, Quizzle2Quiz,
};
use quizzle_migrator::migrator::{
    answer_is_correct, convert_bfsit_to_quizzle2, convert_quizzle1_to_quizzle2,
    infer_question_type, to_canonical,
};

fn oldest_question(answers: &[&str], correct_answer: usize) -> BfsitQuestion {
    BfsitQuestion {
        title: "Q".to_string(),
        answers: answers.iter().map(|a| a.to_string()).collect(),
        correct_answer,
    }
}

fn oldest_quiz(questions: Vec<BfsitQuestion>) -> BfsitQuiz {
    BfsitQuiz { info: BfsitInfo { title: "Old quiz".to_string() }, questions }
}

fn middle_question(answers: usize, image: Option<&str>) -> Quizzle1Question {
    Quizzle1Question {
        title: format!("{} answers", answers),
        answers: (0..answers)
            .map(|i| Quizzle1Answer {
                content: format!("answer {}", i),
                answer_type: if i % 2 == 0 { "text".to_string() } else { "image".to_string() },
                is_correct: i % 3 == 0,
            })
            .collect(),
        b64_image: image.map(|s| s.to_string()),
    }
}

fn flags(question: &Quizzle2Question) -> Vec<Option<bool>> {
    question.answers.iter().map(|a| a.is_correct).collect()
}

#[test]
fn ordinal_two_of_three_marks_the_second_answer() {
    let quiz = convert_bfsit_to_quizzle2(oldest_quiz(vec![oldest_question(&["A", "B", "C"], 2)]));
    assert_eq!(flags(&quiz.questions[0]), vec![Some(false), Some(true), Some(false)]);
}

#[test]
fn ordinal_counts_from_one() {
    let first = convert_bfsit_to_quizzle2(oldest_quiz(vec![oldest_question(&["A", "B", "C"], 1)]));
    assert_eq!(flags(&first.questions[0]), vec![Some(true), Some(false), Some(false)]);
    let last = convert_bfsit_to_quizzle2(oldest_quiz(vec![oldest_question(&["A", "B", "C"], 3)]));
    assert_eq!(flags(&last.questions[0]), vec![Some(false), Some(false), Some(true)]);
}

#[test]
fn ordinal_outside_the_answers_marks_none() {
    let zero = convert_bfsit_to_quizzle2(oldest_quiz(vec![oldest_question(&["A", "B"], 0)]));
    assert_eq!(flags(&zero.questions[0]), vec![Some(false), Some(false)]);
    let beyond = convert_bfsit_to_quizzle2(oldest_quiz(vec![oldest_question(&["A", "B"], 3)]));
    assert_eq!(flags(&beyond.questions[0]), vec![Some(false), Some(false)]);
    let huge = convert_bfsit_to_quizzle2(oldest_quiz(vec![oldest_question(&["A"], usize::MAX)]));
    assert_eq!(flags(&huge.questions[0]), vec![Some(false)]);
}

#[test]
fn the_rule_of_the_ordinal_on_its_own() {
    assert!(answer_is_correct(0, 1));
    assert!(answer_is_correct(1, 2));
    assert!(!answer_is_correct(1, 1));
    assert!(!answer_is_correct(0, 0));
    assert!(!answer_is_correct(2, 2));
    assert!(answer_is_correct(usize::MAX - 1, usize::MAX));
    assert!(!answer_is_correct(usize::MAX, usize::MAX));
    assert!(!answer_is_correct(usize::MAX, 0));
}

#[test]
fn oldest_document_converts_member_by_member() {
    let quiz = convert_bfsit_to_quizzle2(oldest_quiz(vec![
        oldest_question(&["Madrid", "Seville"], 1),
        oldest_question(&[], 1),
    ]));
    assert_eq!(
        quiz,
        Quizzle2Quiz {
            quiz_type: "QUIZZLE2".to_string(),
            title: "Old quiz".to_string(),
            questions: vec![
                Quizzle2Question {
                    title: "Q".to_string(),
                    question_type: "multiple-choice".to_string(),
                    answers: vec![
                        Quizzle2Answer {
                            content: "Madrid".to_string(),
                            answer_type: Some("text".to_string()),
                            is_correct: Some(true),
                        },
                        Quizzle2Answer {
                            content: "Seville".to_string(),
                            answer_type: Some("text".to_string()),
                            is_correct: Some(false),
                        },
                    ],
                    b64_image: None,
                },
                Quizzle2Question {
                    title: "Q".to_string(),
                    question_type: "multiple-choice".to_string(),
                    answers: vec![],
                    b64_image: None,
                },
            ],
        }
    );
}

#[test]
fn oldest_question_with_two_answers_stays_multiple_choice() {
    let quiz = convert_bfsit_to_quizzle2(oldest_quiz(vec![oldest_question(&["yes", "no"], 1)]));
    assert_eq!(quiz.questions[0].question_type, "multiple-choice");
}

#[test]
fn two_answers_make_a_true_false_question() {
    let quiz = convert_quizzle1_to_quizzle2(Quizzle1Quiz {
        title: "T".to_string(),
        questions: vec![middle_question(2, None)],
    });
    assert_eq!(quiz.questions[0].question_type, "true-false");
}

#[test]
fn any_other_number_of_answers_makes_a_multiple_choice_question() {
    for count in [0, 1, 3, 4, 7] {
        let quiz = convert_quizzle1_to_quizzle2(Quizzle1Quiz {
            title: "T".to_string(),
            questions: vec![middle_question(count, None)],
        });
        assert_eq!(quiz.questions[0].question_type, "multiple-choice", "{} answers", count);
    }
}

#[test]
fn the_type_is_inferred_from_the_count_alone() {
    assert_eq!(infer_question_type(2), "true-false");
    assert_eq!(infer_question_type(0), "multiple-choice");
    assert_eq!(infer_question_type(1), "multiple-choice");
    assert_eq!(infer_question_type(3), "multiple-choice");
    assert_eq!(infer_question_type(4), "multiple-choice");
    assert_eq!(infer_question_type(usize::MAX), "multiple-choice");
}

#[test]
fn middle_document_converts_member_by_member() {
    let quiz = convert_quizzle1_to_quizzle2(Quizzle1Quiz {
        title: "Middle quiz".to_string(),
        questions: vec![
            Quizzle1Question {
                title: "Q1".to_string(),
                answers: vec![
                    Quizzle1Answer {
                        content: "A".to_string(),
                        answer_type: "text".to_string(),
                        is_correct: true,
                    },
                    Quizzle1Answer {
                        content: "B".to_string(),
                        answer_type: "image".to_string(),
                        is_correct: true,
                    },
                ],
                b64_image: Some("aW1hZ2U=".to_string()),
            },
            middle_question(0, None),
        ],
    });
    assert_eq!(quiz.quiz_type, "QUIZZLE2");
    assert_eq!(quiz.title, "Middle quiz");
    assert_eq!(
        quiz.questions[0],
        Quizzle2Question {
            title: "Q1".to_string(),
            question_type: "true-false".to_string(),
            answers: vec![
                Quizzle2Answer {
                    content: "A".to_string(),
                    answer_type: Some("text".to_string()),
                    is_correct: Some(true),
                },
                Quizzle2Answer {
                    content: "B".to_string(),
                    answer_type: Some("image".to_string()),
                    is_correct: Some(true),
                },
            ],
            b64_image: Some("aW1hZ2U=".to_string()),
        }
    );
    assert_eq!(quiz.questions[1].answers, vec![]);
    assert_eq!(quiz.questions[1].b64_image, None);
}

#[test]
fn canonical_document_is_its_own_canonical_form() {
    let quiz = Quizzle2Quiz {
        quiz_type: "QUIZZLE2".to_string(),
        title: "T".to_string(),
        questions: vec![Quizzle2Question {
            title: "Q".to_string(),
            question_type: "anything".to_string(),
            answers: vec![Quizzle2Answer {
                content: "A".to_string(),
                answer_type: None,
                is_correct: None,
            }],
            b64_image: None,
        }],
    };
    assert_eq!(to_canonical(QuizFormat::Quizzle2(quiz.clone())), quiz);
    assert!(quiz.has_canonical_tag());
}

#[test]
fn converting_twice_is_converting_once() {
    let once = to_canonical(QuizFormat::Bfsit(oldest_quiz(vec![oldest_question(&["A", "B"], 2)])));
    let twice = to_canonical(QuizFormat::Quizzle2(once.clone()));
    assert_eq!(once, twice);
    let once = to_canonical(QuizFormat::Quizzle1(Quizzle1Quiz {
        title: "T".to_string(),
        questions: vec![middle_question(2, Some("aQ==")), middle_question(3, None)],
    }));
    let twice = to_canonical(QuizFormat::Quizzle2(once.clone()));
    assert_eq!(once, twice);
}

#[test]
fn conversion_reads_nothing_but_its_argument() {
    let make = || oldest_quiz(vec![oldest_question(&["A", "B", "C"], 3)]);
    assert_eq!(convert_bfsit_to_quizzle2(make()), convert_bfsit_to_quizzle2(make()));
}

#[test]
fn a_document_without_the_tag_is_seen_as_such() {
    let quiz = Quizzle2Quiz { quiz_type: "quizzle2".to_string(), title: String::new(), questions: vec![] };
    assert!(!quiz.has_canonical_tag());
}
