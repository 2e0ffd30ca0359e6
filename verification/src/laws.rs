//! What holds of the stages taken together.
//!
//! Each fact is stated over the models of the documents and proved from the
//! definitions of the stages. JSON text and compressed bytes are read and
//! written by outside crates; where a fact reaches through them, it says
//! what it takes from them.

use crate::container::{decoded_container, encoded_container, ContainerKind, DecodeError};
use crate::decoder::{classified, decoded_file, parsed_quiz, QuizFormatModel};
use crate::encoder::{encoded_quiz, lemma_quiz_tree, quiz_tree};
use crate::error::{EncodeError, MigrationError, ParseError};
use crate::formats::{
    BfsitQuestionModel, BfsitQuizModel, Quizzle1QuestionModel, Quizzle1QuizModel,
    Quizzle2QuizModel,
};
use crate::json::JsonTree;
use crate::json_text::{parsed_json, pretty_json};
use crate::migrator::{
    bfsit_answer_to_canonical, bfsit_question_to_canonical, bfsit_to_canonical, canonical_form,
    migration_plan, next_step_of, planned_actions, quizzle1_answer_to_canonical,
    quizzle1_question_to_canonical, quizzle1_to_canonical, FailureModel, FileActionModel,
    MigrationOutcomeModel, MigrationPlanModel, NextStepModel,
};
use crate::schema::{
    array_member, bfsit_answers, bfsit_question, bfsit_questions, bfsit_quiz, canonical_quiz,
    quizzle1_answer, quizzle1_answers, quizzle1_question, quizzle1_questions, quizzle1_quiz,
    text_item,
};
use vstd::prelude::*;
use vstd::utf8::encode_utf8;

verus! {

/// A canonical document that is laid out as JSON and classified again is
/// the same canonical document, member for member.
pub proof fn lemma_canonical_round_trip(quiz: Quizzle2QuizModel)
    requires
        quiz.wf(),
    ensures
        classified(quiz_tree(quiz)) == Some(QuizFormatModel::Quizzle2(quiz)),
{
    lemma_quiz_tree(quiz);
}

/// A text from which the JSON layout of a canonical document is read parses
/// as that document.
pub proof fn lemma_canonical_text_round_trip(quiz: Quizzle2QuizModel, text: Seq<char>)
    requires
        quiz.wf(),
        parsed_json(text) == Some(quiz_tree(quiz)),
    ensures
        parsed_quiz(text) == Ok::<QuizFormatModel, ParseError>(QuizFormatModel::Quizzle2(quiz)),
{
    lemma_canonical_round_trip(quiz);
}

/// The canonical form of any document is canonical: it carries the tag, it
/// is its own canonical form, and once laid out as JSON it is classified as
/// canonical, so that converting twice is converting once.
pub proof fn lemma_conversion_is_idempotent(quiz: QuizFormatModel)
    requires
        quiz.wf(),
    ensures
        canonical_form(quiz).wf(),
        canonical_form(QuizFormatModel::Quizzle2(canonical_form(quiz))) == canonical_form(quiz),
        classified(quiz_tree(canonical_form(quiz))) == Some(
            QuizFormatModel::Quizzle2(canonical_form(quiz)),
        ),
{
    lemma_canonical_round_trip(canonical_form(quiz));
}

/// A file that holds a canonical document needs nothing done, whatever the
/// backup setting.
pub proof fn lemma_canonical_is_already_current(
    content: Seq<u8>,
    extension: Seq<char>,
    skip_backup: bool,
)
    requires
        decoded_file(content, extension) matches Ok(QuizFormatModel::Quizzle2(_)),
    ensures
        migration_plan(content, extension, skip_backup) == Ok::<
            MigrationPlanModel,
            MigrationError,
        >(MigrationPlanModel::AlreadyCurrent),
{
}

/// A second run finds nothing to do. Where the first run wrote `payload`
/// for a document, and the outside crates read back what they wrote (the
/// zlib stream gives the text, the text gives the JSON layout), the plan
/// for the written file is to leave it alone.
pub proof fn lemma_second_run_is_already_current(
    quiz: QuizFormatModel,
    text: Seq<char>,
    payload: Seq<u8>,
    skip_backup: bool,
)
    requires
        quiz.wf(),
        pretty_json(quiz_tree(canonical_form(quiz))) == Some(text),
        encoded_container(text) == Some(payload),
        decoded_container(payload, ContainerKind::Zlib) == Ok::<Seq<char>, DecodeError>(text),
        parsed_json(text) == Some(quiz_tree(canonical_form(quiz))),
    ensures
        encoded_quiz(canonical_form(quiz)) == Ok::<Seq<u8>, EncodeError>(payload),
        migration_plan(payload, "quizzle"@, skip_backup) == Ok::<
            MigrationPlanModel,
            MigrationError,
        >(MigrationPlanModel::AlreadyCurrent),
{
    lemma_conversion_is_idempotent(quiz);
    reveal_strlit("quizzle");
    reveal_strlit("quizlet");
    assert("quizzle"@[4] != "quizlet"@[4]);
}

/// A document that matches the canonical schema is classified as canonical,
/// whatever other schema it matches as well.
pub proof fn lemma_canonical_takes_precedence(doc: JsonTree)
    requires
        canonical_quiz(doc) is Some,
    ensures
        classified(doc) == Some(QuizFormatModel::Quizzle2(canonical_quiz(doc).unwrap())),
{
}

/// A document without a `__type` member is never classified as canonical,
/// and where it matches the middle schema it is classified as that.
pub proof fn lemma_untagged_is_not_canonical(doc: JsonTree)
    requires
        doc.field("__type"@) is None,
    ensures
        canonical_quiz(doc) is None,
        !(classified(doc) matches Some(QuizFormatModel::Quizzle2(_))),
        quizzle1_quiz(doc) is Some ==> classified(doc) == Some(
            QuizFormatModel::Quizzle1(quizzle1_quiz(doc).unwrap()),
        ),
{
}

/// A document is classified as the oldest schema only where it matches
/// neither of the other two.
pub proof fn lemma_oldest_is_last(doc: JsonTree)
    requires
        classified(doc) matches Some(QuizFormatModel::Bfsit(_)),
    ensures
        canonical_quiz(doc) is None,
        quizzle1_quiz(doc) is None,
{
}

/// The middle and the oldest schema do not overlap on a document with an
/// answer: an answer of the middle schema is an object, an answer of the
/// oldest a string.
pub proof fn lemma_answer_objects_exclude_oldest(doc: JsonTree, question: int, answer: int)
    requires
        quizzle1_quiz(doc) is Some,
        0 <= question < quizzle1_quiz(doc).unwrap().questions.len(),
        0 <= answer < quizzle1_quiz(doc).unwrap().questions[question].answers.len(),
    ensures
        bfsit_quiz(doc) is None,
{
    let questions = array_member(doc, "questions"@).unwrap();
    assert(quizzle1_questions(questions) is Some);
    assert(quizzle1_question(questions[question]) is Some);
    let answers = array_member(questions[question], "answers"@).unwrap();
    assert(quizzle1_answers(answers) is Some);
    assert(quizzle1_question(questions[question]).unwrap().answers.len() == answers.len());
    assert(quizzle1_answer(answers[answer]) is Some);
    assert(answers[answer] is Object);
    assert(text_item(answers[answer]) is None);
    assert(bfsit_answers(answers) is None);
    assert(bfsit_question(questions[question]) is None);
    assert(bfsit_questions(questions) is None);
}

/// A text is rejected as an unknown format exactly where it is no JSON or
/// its JSON matches none of the three schemas; the error carries the length
/// of the text in bytes.
pub proof fn lemma_unknown_format(text: Seq<char>)
    ensures
        parsed_quiz(text) is Err <==> (parsed_json(text) matches Some(doc) ==> canonical_quiz(doc)
            is None && quizzle1_quiz(doc) is None && bfsit_quiz(doc) is None),
        parsed_quiz(text) matches Err(e) ==> e == (ParseError::UnknownFormat {
            length: encode_utf8(text).len() as usize,
        }),
{
}

/// The rule of the ordinal marks the answer whose position, counted from 1,
/// is `correct_answer`, and no other.
pub proof fn lemma_ordinal_marks_one_answer(question: BfsitQuestionModel, position: int)
    requires
        0 <= position < question.answers.len(),
    ensures
        bfsit_question_to_canonical(question).answers.len() == question.answers.len(),
        bfsit_question_to_canonical(question).answers[position].is_correct == Some(
            position + 1 == question.correct_answer,
        ),
        bfsit_question_to_canonical(question).answers[position].content
            == question.answers[position],
{
}

/// A converted question of the middle schema is a true-false question
/// exactly where it has two answers, and a multiple-choice question
/// otherwise.
pub proof fn lemma_question_type_by_count(question: Quizzle1QuestionModel)
    ensures
        question.answers.len() == 2 <==> quizzle1_question_to_canonical(question).question_type
            == "true-false"@,
        question.answers.len() != 2 <==> quizzle1_question_to_canonical(question).question_type
            == "multiple-choice"@,
{
    reveal_strlit("true-false");
    reveal_strlit("multiple-choice");
    assert("true-false"@.len() != "multiple-choice"@.len());
}

/// The conversion of the middle schema loses nothing: two documents with
/// the same canonical form are the same document.
pub proof fn lemma_middle_conversion_is_lossless(
    first: Quizzle1QuizModel,
    second: Quizzle1QuizModel,
)
    requires
        quizzle1_to_canonical(first) == quizzle1_to_canonical(second),
    ensures
        first == second,
{
    let left = quizzle1_to_canonical(first);
    let right = quizzle1_to_canonical(second);
    assert(first.questions.len() == left.questions.len());
    assert(second.questions.len() == right.questions.len());
    assert forall|i: int| 0 <= i < first.questions.len() implies first.questions[i]
        == second.questions[i] by {
        let a = first.questions[i];
        let b = second.questions[i];
        assert(left.questions[i] == quizzle1_question_to_canonical(a));
        assert(right.questions[i] == quizzle1_question_to_canonical(b));
        assert(a.answers.len() == left.questions[i].answers.len());
        assert(b.answers.len() == right.questions[i].answers.len());
        assert forall|k: int| 0 <= k < a.answers.len() implies a.answers[k] == b.answers[k] by {
            assert(left.questions[i].answers[k] == quizzle1_answer_to_canonical(a.answers[k]));
            assert(right.questions[i].answers[k] == quizzle1_answer_to_canonical(b.answers[k]));
        }
        assert(a.answers =~= b.answers);
    }
    assert(first.questions =~= second.questions);
}

/// Whether the ordinal of every question of a document names one of the
/// answers of that question.
pub open spec fn ordinals_name_answers(quiz: BfsitQuizModel) -> bool {
    forall|i: int|
        0 <= i < quiz.questions.len() ==> 1 <= (#[trigger] quiz.questions[i]).correct_answer
            <= quiz.questions[i].answers.len()
}

/// The conversion of the oldest schema loses nothing where every ordinal
/// names an answer: two such documents with the same canonical form are
/// the same document. An ordinal that names no answer is lost, as it marks
/// none.
pub proof fn lemma_oldest_conversion_is_lossless(first: BfsitQuizModel, second: BfsitQuizModel)
    requires
        ordinals_name_answers(first),
        ordinals_name_answers(second),
        bfsit_to_canonical(first) == bfsit_to_canonical(second),
    ensures
        first == second,
{
    let left = bfsit_to_canonical(first);
    let right = bfsit_to_canonical(second);
    assert(first.questions.len() == left.questions.len());
    assert(second.questions.len() == right.questions.len());
    assert forall|i: int| 0 <= i < first.questions.len() implies first.questions[i]
        == second.questions[i] by {
        let a = first.questions[i];
        let b = second.questions[i];
        assert(left.questions[i] == bfsit_question_to_canonical(a));
        assert(right.questions[i] == bfsit_question_to_canonical(b));
        assert(a.answers.len() == left.questions[i].answers.len());
        assert(b.answers.len() == right.questions[i].answers.len());
        assert forall|k: int| 0 <= k < a.answers.len() implies a.answers[k] == b.answers[k] by {
            assert(left.questions[i].answers[k] == bfsit_answer_to_canonical(
                a.answers[k],
                k,
                a.correct_answer,
            ));
            assert(right.questions[i].answers[k] == bfsit_answer_to_canonical(
                b.answers[k],
                k,
                b.correct_answer,
            ));
        }
        assert(a.answers =~= b.answers);
        let marked: int = a.correct_answer - 1;
        assert(left.questions[i].answers[marked] == bfsit_answer_to_canonical(
            a.answers[marked],
            marked,
            a.correct_answer,
        ));
        assert(right.questions[i].answers[marked] == bfsit_answer_to_canonical(
            b.answers[marked],
            marked,
            b.correct_answer,
        ));
        assert(a.correct_answer == b.correct_answer);
    }
    assert(first.questions =~= second.questions);
}

/// The steps of a plan stand in the one safe order: the backup, where one
/// is made, comes first; the canonical file is written exactly once and
/// after the backup; the migrated file is removed last, and only where the
/// canonical file has another name.
pub proof fn lemma_steps_are_ordered(extension: Seq<char>, skip_backup: bool, payload: Seq<u8>)
    ensures
        ({
            let steps = planned_actions(extension, skip_backup, payload);
            let written: int = if skip_backup {
                0
            } else {
                1
            };
            &&& !skip_backup ==> steps[0] is Backup
            &&& steps[written] == (FileActionModel::Write { extension: "quizzle"@, payload })
            &&& forall|i: int| 0 <= i < steps.len() && i != written ==> !(steps[i] is Write)
            &&& forall|i: int| 0 <= i < steps.len() && steps[i] is RemoveSource ==> i == written + 1
            &&& (exists|i: int| 0 <= i < steps.len() && steps[i] is RemoveSource) <==> extension
                != "quizzle"@
            &&& steps.len() == written + 1 + if extension == "quizzle"@ {
                0int
            } else {
                1int
            }
        }),
{
    let steps = planned_actions(extension, skip_backup, payload);
    if extension != "quizzle"@ {
        assert(steps[steps.len() - 1] is RemoveSource);
    }
}

/// A failed step ends the migration of its file: whatever the plan and
/// however far it has come, nothing more is to be done but to report the
/// failure.
pub proof fn lemma_failure_stops_the_run(plan: MigrationPlanModel, done: nat, reason: Seq<char>)
    ensures
        next_step_of(plan, done, Some(reason)) == NextStepModel::Finish(
            MigrationOutcomeModel::Failed(FailureModel::Io(reason)),
        ),
{
}

/// A file counts as migrated only when every step of its plan was taken
/// and none failed.
pub proof fn lemma_migrated_means_every_step(
    plan: MigrationPlanModel,
    done: nat,
    failure: Option<Seq<char>>,
)
    requires
        next_step_of(plan, done, failure) == NextStepModel::Finish(MigrationOutcomeModel::Migrated),
    ensures
        failure is None,
        plan matches MigrationPlanModel::Migrate(steps) && done >= steps.len(),
{
}

} // verus!
