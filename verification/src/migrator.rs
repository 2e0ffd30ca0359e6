//! Conversion of the legacy schemas to the canonical one, and the plan for
//! migrating one file.
//!
//! The conversions are pure: they read nothing but their argument, and
//! every canonical document is a new value. The plan is pure as well: it is
//! made from the bytes of a file and says which files the caller is to
//! write and remove, in which order.

use crate::decoder::{decode_quiz_file, decoded_file, QuizFormat, QuizFormatModel};
use crate::encoder::{encode_quizzle2, encoded_quiz};
use crate::error::MigrationError;
use crate::file_ops::{backup_extension, backup_extension_of, canonical_extension};
use crate::formats::{
    canonical_tag, BfsitQuestion, BfsitQuestionModel, BfsitQuiz, BfsitQuizModel, Quizzle1Answer,
    Quizzle1AnswerModel, Quizzle1Question, Quizzle1QuestionModel, Quizzle1Quiz, Quizzle1QuizModel,
    Quizzle2Answer, Quizzle2AnswerModel, Quizzle2Question, Quizzle2QuestionModel, Quizzle2Quiz,
    Quizzle2QuizModel,
};
use vstd::prelude::*;

verus! {

/// The rule of the ordinal: the oldest schema names its one correct answer
/// by position, counted from 1, so the answer at `position`, counted from
/// 0, is the correct one when `position + 1` is that ordinal.
pub open spec fn is_correct_ordinal(position: int, correct_answer: int) -> bool {
    position + 1 == correct_answer
}

/// The type of a converted question of the middle schema, which carries
/// none of its own: two answers make a true-false question, any other
/// number a multiple-choice question.
pub open spec fn inferred_question_type(answer_count: nat) -> Seq<char> {
    if answer_count == 2 {
        "true-false"@
    } else {
        "multiple-choice"@
    }
}

/// The canonical form of the answer at `position` of a question of the
/// oldest schema: plain text, correct by the rule of the ordinal.
pub open spec fn bfsit_answer_to_canonical(content: Seq<char>, position: int, correct_answer: nat)
    -> Quizzle2AnswerModel {
    Quizzle2AnswerModel {
        content,
        answer_type: Some("text"@),
        is_correct: Some(is_correct_ordinal(position, correct_answer as int)),
    }
}

/// The canonical form of a question of the oldest schema: always
/// multiple-choice, never with an image.
pub open spec fn bfsit_question_to_canonical(question: BfsitQuestionModel)
    -> Quizzle2QuestionModel {
    Quizzle2QuestionModel {
        title: question.title,
        question_type: "multiple-choice"@,
        answers: Seq::new(
            question.answers.len(),
            |i: int| bfsit_answer_to_canonical(question.answers[i], i, question.correct_answer),
        ),
        b64_image: None,
    }
}

/// The canonical form of a document of the oldest schema.
pub open spec fn bfsit_to_canonical(quiz: BfsitQuizModel) -> Quizzle2QuizModel {
    Quizzle2QuizModel {
        quiz_type: canonical_tag(),
        title: quiz.info.title,
        questions: Seq::new(
            quiz.questions.len(),
            |i: int| bfsit_question_to_canonical(quiz.questions[i]),
        ),
    }
}

/// The canonical form of an answer of the middle schema: content, type and
/// correctness carry over as they are.
pub open spec fn quizzle1_answer_to_canonical(answer: Quizzle1AnswerModel) -> Quizzle2AnswerModel {
    Quizzle2AnswerModel {
        content: answer.content,
        answer_type: Some(answer.answer_type),
        is_correct: Some(answer.is_correct),
    }
}

/// The canonical form of a question of the middle schema: its type is
/// inferred from the number of its answers, its image carries over.
pub open spec fn quizzle1_question_to_canonical(question: Quizzle1QuestionModel)
    -> Quizzle2QuestionModel {
    Quizzle2QuestionModel {
        title: question.title,
        question_type: inferred_question_type(question.answers.len()),
        answers: Seq::new(
            question.answers.len(),
            |i: int| quizzle1_answer_to_canonical(question.answers[i]),
        ),
        b64_image: question.b64_image,
    }
}

/// The canonical form of a document of the middle schema.
pub open spec fn quizzle1_to_canonical(quiz: Quizzle1QuizModel) -> Quizzle2QuizModel {
    Quizzle2QuizModel {
        quiz_type: canonical_tag(),
        title: quiz.title,
        questions: Seq::new(
            quiz.questions.len(),
            |i: int| quizzle1_question_to_canonical(quiz.questions[i]),
        ),
    }
}

/// The canonical form of a classified document. A canonical document is
/// its own canonical form.
pub open spec fn canonical_form(quiz: QuizFormatModel) -> Quizzle2QuizModel {
    match quiz {
        QuizFormatModel::Bfsit(quiz) => bfsit_to_canonical(quiz),
        QuizFormatModel::Quizzle1(quiz) => quizzle1_to_canonical(quiz),
        QuizFormatModel::Quizzle2(quiz) => quiz,
    }
}

/// Decides by the rule of the ordinal whether the answer at `position`,
/// counted from 0, is the one that `correct_answer` names, counted from 1.
pub fn answer_is_correct(position: usize, correct_answer: usize) -> (r: bool)
    ensures
        r == is_correct_ordinal(position as int, correct_answer as int),
{
    correct_answer >= 1 && correct_answer - 1 == position
}

/// Infers the type of a question from the number of its answers.
pub fn infer_question_type(answer_count: usize) -> (r: String)
    ensures
        r@ == inferred_question_type(answer_count as nat),
{
    if answer_count == 2 {
        "true-false".to_owned()
    } else {
        "multiple-choice".to_owned()
    }
}

/// Converts one question of the oldest schema.
fn convert_bfsit_question(question: BfsitQuestion) -> (r: Quizzle2Question)
    ensures
        r.deep_view() == bfsit_question_to_canonical(question.deep_view()),
{
    let ghost model = question.deep_view();
    let BfsitQuestion { title, answers, correct_answer } = question;
    let ghost all = answers@;
    let mut out: Vec<Quizzle2Answer> = Vec::new();
    for content in it: answers.into_iter()
        invariant
            it.seq() == all,
            out@.len() == it.index(),
            forall|k: int|
                0 <= k < out@.len() ==> (#[trigger] out@[k]).deep_view()
                    == bfsit_answer_to_canonical(all[k]@, k, correct_answer as nat),
    {
        let position = out.len();
        let is_correct = answer_is_correct(position, correct_answer);
        out.push(
            Quizzle2Answer {
                content,
                answer_type: Some("text".to_owned()),
                is_correct: Some(is_correct),
            },
        );
    }
    let r = Quizzle2Question {
        title,
        question_type: "multiple-choice".to_owned(),
        answers: out,
        b64_image: None,
    };
    assert(r.deep_view().answers =~= bfsit_question_to_canonical(model).answers);
    r
}

/// Converts a document of the oldest schema to the canonical one.
///
/// Every question becomes a multiple-choice question without an image; every
/// answer becomes a text answer, correct exactly where its position,
/// counted from 1, is the `correct_answer` of its question.
pub fn convert_bfsit_to_quizzle2(bfsit: BfsitQuiz) -> (r: Quizzle2Quiz)
    ensures
        r.deep_view() == bfsit_to_canonical(bfsit.deep_view()),
        r.deep_view().wf(),
{
    let ghost model = bfsit.deep_view();
    let BfsitQuiz { info, questions } = bfsit;
    let ghost all = questions@;
    let mut out: Vec<Quizzle2Question> = Vec::new();
    for question in it: questions.into_iter()
        invariant
            it.seq() == all,
            out@.len() == it.index(),
            forall|k: int|
                0 <= k < out@.len() ==> (#[trigger] out@[k]).deep_view()
                    == bfsit_question_to_canonical(all[k].deep_view()),
    {
        out.push(convert_bfsit_question(question));
    }
    let r = Quizzle2Quiz { quiz_type: "QUIZZLE2".to_owned(), title: info.title, questions: out };
    assert(r.deep_view().questions =~= bfsit_to_canonical(model).questions);
    r
}

/// Converts one question of the middle schema.
fn convert_quizzle1_question(question: Quizzle1Question) -> (r: Quizzle2Question)
    ensures
        r.deep_view() == quizzle1_question_to_canonical(question.deep_view()),
{
    let ghost model = question.deep_view();
    let Quizzle1Question { title, answers, b64_image } = question;
    let ghost all = answers@;
    let mut out: Vec<Quizzle2Answer> = Vec::new();
    for answer in it: answers.into_iter()
        invariant
            it.seq() == all,
            out@.len() == it.index(),
            forall|k: int|
                0 <= k < out@.len() ==> (#[trigger] out@[k]).deep_view()
                    == quizzle1_answer_to_canonical(all[k].deep_view()),
    {
        let Quizzle1Answer { content, answer_type, is_correct } = answer;
        out.push(
            Quizzle2Answer {
                content,
                answer_type: Some(answer_type),
                is_correct: Some(is_correct),
            },
        );
    }
    let question_type = infer_question_type(out.len());
    let r = Quizzle2Question { title, question_type, answers: out, b64_image };
    assert(r.deep_view().answers =~= quizzle1_question_to_canonical(model).answers);
    r
}

/// Converts a document of the middle schema to the canonical one.
///
/// Answers carry over as they are, and so does the image of a question. The
/// type of a question is inferred: true-false for exactly two answers,
/// multiple-choice for any other number.
pub fn convert_quizzle1_to_quizzle2(q1: Quizzle1Quiz) -> (r: Quizzle2Quiz)
    ensures
        r.deep_view() == quizzle1_to_canonical(q1.deep_view()),
        r.deep_view().wf(),
{
    let ghost model = q1.deep_view();
    let Quizzle1Quiz { title, questions } = q1;
    let ghost all = questions@;
    let mut out: Vec<Quizzle2Question> = Vec::new();
    for question in it: questions.into_iter()
        invariant
            it.seq() == all,
            out@.len() == it.index(),
            forall|k: int|
                0 <= k < out@.len() ==> (#[trigger] out@[k]).deep_view()
                    == quizzle1_question_to_canonical(all[k].deep_view()),
    {
        out.push(convert_quizzle1_question(question));
    }
    let r = Quizzle2Quiz { quiz_type: "QUIZZLE2".to_owned(), title, questions: out };
    assert(r.deep_view().questions =~= quizzle1_to_canonical(model).questions);
    r
}

/// Converts a classified document to the canonical schema. A canonical
/// document is returned as it is.
pub fn to_canonical(quiz: QuizFormat) -> (r: Quizzle2Quiz)
    ensures
        r.deep_view() == canonical_form(quiz.deep_view()),
        quiz.deep_view().wf() ==> r.deep_view().wf(),
{
    match quiz {
        QuizFormat::Bfsit(bfsit) => convert_bfsit_to_quizzle2(bfsit),
        QuizFormat::Quizzle1(q1) => convert_quizzle1_to_quizzle2(q1),
        QuizFormat::Quizzle2(q2) => q2,
    }
}

/// Model of [`FileAction`].
pub enum FileActionModel {
    Backup { extension: Seq<char> },
    Write { extension: Seq<char>, payload: Seq<u8> },
    RemoveSource,
}

/// One step on the file system. A step names a file by the extension that
/// takes the place of the extension of the file that is migrated.
#[derive(Debug, Clone, PartialEq, Eq)]
pub enum FileAction {
    /// Copy the migrated file to the file with this extension.
    Backup { extension: String },
    /// Write these bytes to the file with this extension.
    Write { extension: String, payload: Vec<u8> },
    /// Remove the migrated file.
    RemoveSource,
}

/// Model of [`MigrationPlan`].
pub enum MigrationPlanModel {
    AlreadyCurrent,
    Migrate(Seq<FileActionModel>),
}

/// What is to be done with one file.
#[derive(Debug, Clone, PartialEq, Eq)]
pub enum MigrationPlan {
    /// The document is canonical already: nothing is to be touched.
    AlreadyCurrent,
    /// The steps that migrate the file, to be taken in their order; when a
    /// step fails, none of the later ones is to be taken.
    Migrate(Vec<FileAction>),
}

impl DeepView for FileAction {
    type V = FileActionModel;

    open spec fn deep_view(&self) -> FileActionModel {
        match self {
            FileAction::Backup { extension } => FileActionModel::Backup { extension: extension@ },
            FileAction::Write { extension, payload } => FileActionModel::Write {
                extension: extension@,
                payload: payload@,
            },
            FileAction::RemoveSource => FileActionModel::RemoveSource,
        }
    }
}

impl DeepView for MigrationPlan {
    type V = MigrationPlanModel;

    open spec fn deep_view(&self) -> MigrationPlanModel {
        match self {
            MigrationPlan::AlreadyCurrent => MigrationPlanModel::AlreadyCurrent,
            MigrationPlan::Migrate(actions) => MigrationPlanModel::Migrate(actions.deep_view()),
        }
    }
}

/// The steps that put a canonical payload in the place of a file: first the
/// backup, unless it is skipped; then the canonical file; last the removal
/// of the migrated file, unless the canonical file has taken its very name.
pub open spec fn planned_actions(extension: Seq<char>, skip_backup: bool, payload: Seq<u8>) -> Seq<
    FileActionModel,
> {
    let backup = if skip_backup {
        Seq::empty()
    } else {
        Seq::empty().push(
            FileActionModel::Backup { extension: backup_extension_of(Some(extension)) },
        )
    };
    let written = backup.push(FileActionModel::Write { extension: "quizzle"@, payload });
    if extension == "quizzle"@ {
        written
    } else {
        written.push(FileActionModel::RemoveSource)
    }
}

/// The plan for one file, from its content, the extension of its name and
/// the one setting. A file that cannot be read as a quiz document has no
/// plan but an error; a canonical document needs nothing done; any other is
/// converted and encoded before the first step is planned.
pub open spec fn migration_plan(content: Seq<u8>, extension: Seq<char>, skip_backup: bool)
    -> Result<MigrationPlanModel, MigrationError> {
    match decoded_file(content, extension) {
        Ok(QuizFormatModel::Quizzle2(_)) => Ok(MigrationPlanModel::AlreadyCurrent),
        Ok(quiz) => match encoded_quiz(canonical_form(quiz)) {
            Ok(payload) => Ok(
                MigrationPlanModel::Migrate(planned_actions(extension, skip_backup, payload)),
            ),
            Err(e) => Err(MigrationError::Encode(e)),
        },
        Err(e) => Err(e),
    }
}

/// Lists the steps that put a canonical payload in the place of a file
/// with the given extension. The result is exactly [`planned_actions`].
pub fn plan_actions(extension: &str, skip_backup: bool, payload: Vec<u8>) -> (actions: Vec<
    FileAction,
>)
    ensures
        actions.deep_view() == planned_actions(extension@, skip_backup, payload@),
{
    let ghost bytes = payload@;
    let mut actions: Vec<FileAction> = Vec::new();
    if !skip_backup {
        actions.push(FileAction::Backup { extension: backup_extension(Some(extension)) });
    }
    let output_extension = canonical_extension();
    let same_name = extension.to_owned() == output_extension;
    actions.push(FileAction::Write { extension: output_extension, payload });
    if !same_name {
        actions.push(FileAction::RemoveSource);
    }
    assert(actions.deep_view() =~= planned_actions(extension@, skip_backup, bytes));
    actions
}

/// Plans the migration of one file. The result is exactly
/// [`migration_plan`]; nothing is read or written here.
pub fn migrate_file(content: &[u8], extension: &str, skip_backup: bool) -> (r: Result<
    MigrationPlan,
    MigrationError,
>)
    ensures
        match r {
            Ok(plan) => migration_plan(content@, extension@, skip_backup) == Ok::<
                MigrationPlanModel,
                MigrationError,
            >(plan.deep_view()),
            Err(e) => migration_plan(content@, extension@, skip_backup) == Err::<
                MigrationPlanModel,
                MigrationError,
            >(e),
        },
{
    let quiz = match decode_quiz_file(content, extension) {
        Ok(quiz) => quiz,
        Err(e) => return Err(e),
    };
    let canonical = match quiz {
        QuizFormat::Quizzle2(_) => return Ok(MigrationPlan::AlreadyCurrent),
        QuizFormat::Bfsit(bfsit) => convert_bfsit_to_quizzle2(bfsit),
        QuizFormat::Quizzle1(q1) => convert_quizzle1_to_quizzle2(q1),
    };
    let payload = match encode_quizzle2(&canonical) {
        Ok(payload) => payload,
        Err(e) => return Err(MigrationError::Encode(e)),
    };
    Ok(MigrationPlan::Migrate(plan_actions(extension, skip_backup, payload)))
}

/// Model of [`Failure`].
pub enum FailureModel {
    Migration(MigrationError),
    Io(Seq<char>),
}

/// Why the migration of one file failed.
#[derive(Debug, Clone, PartialEq, Eq)]
pub enum Failure {
    /// No plan could be made for the file.
    Migration(MigrationError),
    /// A step on the file system failed; the text is what the caller
    /// reported of it.
    Io(String),
}

/// Model of [`MigrationOutcome`].
pub enum MigrationOutcomeModel {
    Migrated,
    AlreadyCurrent,
    Failed(FailureModel),
}

/// How the migration of one file ended.
#[derive(Debug, Clone, PartialEq, Eq)]
pub enum MigrationOutcome {
    /// Every step of the plan was taken.
    Migrated,
    /// The file held a canonical document; nothing was touched.
    AlreadyCurrent,
    /// The migration stopped, for this reason.
    Failed(Failure),
}

/// Model of [`NextStep`].
pub enum NextStepModel {
    Perform(FileActionModel),
    Finish(MigrationOutcomeModel),
}

/// What the caller is to do next with a plan.
#[derive(Debug, PartialEq, Eq)]
pub enum NextStep<'a> {
    /// Take this step, then ask again.
    Perform(&'a FileAction),
    /// Stop: the migration of the file has ended.
    Finish(MigrationOutcome),
}

impl DeepView for Failure {
    type V = FailureModel;

    open spec fn deep_view(&self) -> FailureModel {
        match self {
            Failure::Migration(error) => FailureModel::Migration(*error),
            Failure::Io(reason) => FailureModel::Io(reason@),
        }
    }
}

impl DeepView for MigrationOutcome {
    type V = MigrationOutcomeModel;

    open spec fn deep_view(&self) -> MigrationOutcomeModel {
        match self {
            MigrationOutcome::Migrated => MigrationOutcomeModel::Migrated,
            MigrationOutcome::AlreadyCurrent => MigrationOutcomeModel::AlreadyCurrent,
            MigrationOutcome::Failed(failure) => MigrationOutcomeModel::Failed(
                failure.deep_view(),
            ),
        }
    }
}

impl<'a> DeepView for NextStep<'a> {
    type V = NextStepModel;

    open spec fn deep_view(&self) -> NextStepModel {
        match self {
            NextStep::Perform(action) => NextStepModel::Perform(action.deep_view()),
            NextStep::Finish(outcome) => NextStepModel::Finish(outcome.deep_view()),
        }
    }
}

/// What comes next for a plan of which `done` steps have been taken, and of
/// which a step may have failed. A failure ends the migration at once, so
/// that no step is taken after a failed one; a canonical file ends it
/// untouched; otherwise the steps are taken in their order, and the file is
/// migrated when none is left.
pub open spec fn next_step_of(plan: MigrationPlanModel, done: nat, failure: Option<Seq<char>>)
    -> NextStepModel {
    match failure {
        Some(reason) => NextStepModel::Finish(
            MigrationOutcomeModel::Failed(FailureModel::Io(reason)),
        ),
        None => match plan {
            MigrationPlanModel::AlreadyCurrent => NextStepModel::Finish(
                MigrationOutcomeModel::AlreadyCurrent,
            ),
            MigrationPlanModel::Migrate(actions) => if done < actions.len() {
                NextStepModel::Perform(actions[done as int])
            } else {
                NextStepModel::Finish(MigrationOutcomeModel::Migrated)
            },
        },
    }
}

/// Decides what the caller is to do next with a plan, given the number of
/// steps taken so far and the failure of the last step, if it failed. The
/// result is exactly [`next_step_of`].
pub fn next_step<'a>(plan: &'a MigrationPlan, done: usize, failure: Option<String>) -> (r: NextStep<
    'a,
>)
    ensures
        r.deep_view() == next_step_of(plan.deep_view(), done as nat, failure.deep_view()),
{
    if let Some(reason) = failure {
        return NextStep::Finish(MigrationOutcome::Failed(Failure::Io(reason)));
    }
    match plan {
        MigrationPlan::AlreadyCurrent => NextStep::Finish(MigrationOutcome::AlreadyCurrent),
        MigrationPlan::Migrate(actions) => if done < actions.len() {
            NextStep::Perform(&actions[done])
        } else {
            NextStep::Finish(MigrationOutcome::Migrated)
        },
    }
}

} // verus!
