//! The three quiz schemas, each with the mathematical model that the
//! contracts of this crate speak of.
//!
//! Every type has a deep view: strings become sequences of characters,
//! vectors become sequences of models, and the one integer becomes a
//! natural number.

use vstd::prelude::*;

verus! {

/// Model of [`BfsitInfo`].
pub struct BfsitInfoModel {
    pub title: Seq<char>,
}

/// Model of [`BfsitQuestion`].
pub struct BfsitQuestionModel {
    pub title: Seq<char>,
    pub answers: Seq<Seq<char>>,
    pub correct_answer: nat,
}

/// Model of [`BfsitQuiz`].
pub struct BfsitQuizModel {
    pub info: BfsitInfoModel,
    pub questions: Seq<BfsitQuestionModel>,
}

/// Model of [`Quizzle1Answer`].
pub struct Quizzle1AnswerModel {
    pub content: Seq<char>,
    pub answer_type: Seq<char>,
    pub is_correct: bool,
}

/// Model of [`Quizzle1Question`].
pub struct Quizzle1QuestionModel {
    pub title: Seq<char>,
    pub answers: Seq<Quizzle1AnswerModel>,
    pub b64_image: Option<Seq<char>>,
}

/// Model of [`Quizzle1Quiz`].
pub struct Quizzle1QuizModel {
    pub title: Seq<char>,
    pub questions: Seq<Quizzle1QuestionModel>,
}

/// Model of [`Quizzle2Answer`].
pub struct Quizzle2AnswerModel {
    pub content: Seq<char>,
    pub answer_type: Option<Seq<char>>,
    pub is_correct: Option<bool>,
}

/// Model of [`Quizzle2Question`].
pub struct Quizzle2QuestionModel {
    pub title: Seq<char>,
    pub question_type: Seq<char>,
    pub answers: Seq<Quizzle2AnswerModel>,
    pub b64_image: Option<Seq<char>>,
}

/// Model of [`Quizzle2Quiz`].
pub struct Quizzle2QuizModel {
    pub quiz_type: Seq<char>,
    pub title: Seq<char>,
    pub questions: Seq<Quizzle2QuestionModel>,
}

/// The tag that every canonical document carries in its `__type` member.
pub open spec fn canonical_tag() -> Seq<char> {
    "QUIZZLE2"@
}

impl Quizzle2QuizModel {
    /// A canonical document is well formed when it carries the canonical tag.
    pub open spec fn wf(self) -> bool {
        self.quiz_type == canonical_tag()
    }
}

/// The header of the oldest schema: `{ title }`.
#[derive(Debug, Clone, PartialEq, Eq)]
pub struct BfsitInfo {
    pub title: String,
}

/// A question of the oldest schema. Its answers are plain strings, and
/// `correct_answer` is the position of the one correct answer, counted from 1.
#[derive(Debug, Clone, PartialEq, Eq)]
pub struct BfsitQuestion {
    pub title: String,
    pub answers: Vec<String>,
    pub correct_answer: usize,
}

/// A document of the oldest schema: `{ info: { title }, questions }`.
#[derive(Debug, Clone, PartialEq, Eq)]
pub struct BfsitQuiz {
    pub info: BfsitInfo,
    pub questions: Vec<BfsitQuestion>,
}

/// An answer of the middle schema: each one carries its own type label and
/// its own correctness flag.
#[derive(Debug, Clone, PartialEq, Eq)]
pub struct Quizzle1Answer {
    pub content: String,
    pub answer_type: String,
    pub is_correct: bool,
}

/// A question of the middle schema, with an optional image.
#[derive(Debug, Clone, PartialEq, Eq)]
pub struct Quizzle1Question {
    pub title: String,
    pub answers: Vec<Quizzle1Answer>,
    pub b64_image: Option<String>,
}

/// A document of the middle schema: `{ title, questions }`.
#[derive(Debug, Clone, PartialEq, Eq)]
pub struct Quizzle1Quiz {
    pub title: String,
    pub questions: Vec<Quizzle1Question>,
}

/// An answer of the canonical schema. Type label and correctness flag are
/// both optional.
#[derive(Debug, Clone, PartialEq, Eq)]
pub struct Quizzle2Answer {
    pub content: String,
    pub answer_type: Option<String>,
    pub is_correct: Option<bool>,
}

/// A question of the canonical schema, with its own type label.
#[derive(Debug, Clone, PartialEq, Eq)]
pub struct Quizzle2Question {
    pub title: String,
    pub question_type: String,
    pub answers: Vec<Quizzle2Answer>,
    pub b64_image: Option<String>,
}

/// A document of the canonical schema: `{ __type, title, questions }`.
#[derive(Debug, Clone, PartialEq, Eq)]
pub struct Quizzle2Quiz {
    pub quiz_type: String,
    pub title: String,
    pub questions: Vec<Quizzle2Question>,
}

impl DeepView for BfsitInfo {
    type V = BfsitInfoModel;

    open spec fn deep_view(&self) -> BfsitInfoModel {
        BfsitInfoModel { title: self.title@ }
    }
}

impl DeepView for BfsitQuestion {
    type V = BfsitQuestionModel;

    open spec fn deep_view(&self) -> BfsitQuestionModel {
        BfsitQuestionModel {
            title: self.title@,
            answers: self.answers.deep_view(),
            correct_answer: self.correct_answer as nat,
        }
    }
}

impl DeepView for BfsitQuiz {
    type V = BfsitQuizModel;

    open spec fn deep_view(&self) -> BfsitQuizModel {
        BfsitQuizModel { info: self.info.deep_view(), questions: self.questions.deep_view() }
    }
}

impl DeepView for Quizzle1Answer {
    type V = Quizzle1AnswerModel;

    open spec fn deep_view(&self) -> Quizzle1AnswerModel {
        Quizzle1AnswerModel {
            content: self.content@,
            answer_type: self.answer_type@,
            is_correct: self.is_correct,
        }
    }
}

impl DeepView for Quizzle1Question {
    type V = Quizzle1QuestionModel;

    open spec fn deep_view(&self) -> Quizzle1QuestionModel {
        Quizzle1QuestionModel {
            title: self.title@,
            answers: self.answers.deep_view(),
            b64_image: self.b64_image.deep_view(),
        }
    }
}

impl DeepView for Quizzle1Quiz {
    type V = Quizzle1QuizModel;

    open spec fn deep_view(&self) -> Quizzle1QuizModel {
        Quizzle1QuizModel { title: self.title@, questions: self.questions.deep_view() }
    }
}

impl DeepView for Quizzle2Answer {
    type V = Quizzle2AnswerModel;

    open spec fn deep_view(&self) -> Quizzle2AnswerModel {
        Quizzle2AnswerModel {
            content: self.content@,
            answer_type: self.answer_type.deep_view(),
            is_correct: self.is_correct,
        }
    }
}

impl DeepView for Quizzle2Question {
    type V = Quizzle2QuestionModel;

    open spec fn deep_view(&self) -> Quizzle2QuestionModel {
        Quizzle2QuestionModel {
            title: self.title@,
            question_type: self.question_type@,
            answers: self.answers.deep_view(),
            b64_image: self.b64_image.deep_view(),
        }
    }
}

impl DeepView for Quizzle2Quiz {
    type V = Quizzle2QuizModel;

    open spec fn deep_view(&self) -> Quizzle2QuizModel {
        Quizzle2QuizModel {
            quiz_type: self.quiz_type@,
            title: self.title@,
            questions: self.questions.deep_view(),
        }
    }
}

impl Quizzle2Quiz {
    /// Whether the document carries the canonical tag.
    pub fn has_canonical_tag(&self) -> (r: bool)
        ensures
            r == self.deep_view().wf(),
    {
        let tag = "QUIZZLE2".to_owned();
        self.quiz_type == tag
    }
}

} // verus!
