//! Strict structural matching of a JSON document against the quiz schemas.
//!
//! A document matches a schema when every required member is present with
//! the right kind of value. Members that the schema does not name are
//! ignored, an optional member may be absent or `null`, and a member of the
//! wrong kind is a mismatch: nothing is coerced and nothing is defaulted.

use crate::formats::{
    canonical_tag, BfsitInfo, BfsitInfoModel, BfsitQuestion, BfsitQuestionModel, BfsitQuiz,
    BfsitQuizModel, Quizzle1Answer, Quizzle1AnswerModel, Quizzle1Question, Quizzle1QuestionModel,
    Quizzle1Quiz, Quizzle1QuizModel, Quizzle2Answer, Quizzle2AnswerModel, Quizzle2Question,
    Quizzle2QuestionModel, Quizzle2Quiz, Quizzle2QuizModel,
};
use crate::json::{Json, JsonTree};
use vstd::prelude::*;

verus! {

/// A required member that must be a string.
pub open spec fn text_member(doc: JsonTree, key: Seq<char>) -> Option<Seq<char>> {
    match doc.field(key) {
        Some(JsonTree::Text(s)) => Some(s),
        _ => None,
    }
}

/// A required member that must be `true` or `false`.
pub open spec fn bool_member(doc: JsonTree, key: Seq<char>) -> Option<bool> {
    match doc.field(key) {
        Some(JsonTree::Bool(b)) => Some(b),
        _ => None,
    }
}

/// A required member that must be a non-negative integer that `usize` holds.
pub open spec fn index_member(doc: JsonTree, key: Seq<char>) -> Option<nat> {
    match doc.field(key) {
        Some(JsonTree::Unsigned(n)) => if n <= usize::MAX {
            Some(n as nat)
        } else {
            None
        },
        _ => None,
    }
}

/// A required member that must be an array.
pub open spec fn array_member(doc: JsonTree, key: Seq<char>) -> Option<Seq<JsonTree>> {
    match doc.field(key) {
        Some(JsonTree::Array(items)) => Some(items),
        _ => None,
    }
}

/// An optional string: absent and `null` both stand for no value. The outer
/// `None` is a mismatch.
pub open spec fn optional_text_member(doc: JsonTree, key: Seq<char>) -> Option<Option<Seq<char>>> {
    match doc.field(key) {
        None => Some(None),
        Some(JsonTree::Null) => Some(None),
        Some(JsonTree::Text(s)) => Some(Some(s)),
        _ => None,
    }
}

/// An optional boolean, by the rule of [`optional_text_member`].
pub open spec fn optional_bool_member(doc: JsonTree, key: Seq<char>) -> Option<Option<bool>> {
    match doc.field(key) {
        None => Some(None),
        Some(JsonTree::Null) => Some(None),
        Some(JsonTree::Bool(b)) => Some(Some(b)),
        _ => None,
    }
}

/// Matches every item of an array: the array matches when each item does,
/// and the result lists what the items matched as, in their order.
pub open spec fn match_each<T>(items: Seq<JsonTree>, matcher: spec_fn(JsonTree) -> Option<T>)
    -> Option<Seq<T>> {
    if forall|i: int| 0 <= i < items.len() ==> matcher(#[trigger] items[i]) is Some {
        Some(Seq::new(items.len(), |i: int| matcher(items[i]).unwrap()))
    } else {
        None
    }
}

/// A string item of an array of strings.
pub open spec fn text_item(doc: JsonTree) -> Option<Seq<char>> {
    match doc {
        JsonTree::Text(s) => Some(s),
        _ => None,
    }
}

/// An answer of the canonical schema:
/// `{ content, type: optional, is_correct: optional }`.
pub open spec fn canonical_answer(doc: JsonTree) -> Option<Quizzle2AnswerModel> {
    match (
        text_member(doc, "content"@),
        optional_text_member(doc, "type"@),
        optional_bool_member(doc, "is_correct"@),
    ) {
        (Some(content), Some(answer_type), Some(is_correct)) => Some(
            Quizzle2AnswerModel { content, answer_type, is_correct },
        ),
        _ => None,
    }
}

/// The answers of a canonical question.
pub open spec fn canonical_answers(items: Seq<JsonTree>) -> Option<Seq<Quizzle2AnswerModel>> {
    match_each(items, |item: JsonTree| canonical_answer(item))
}

/// A question of the canonical schema:
/// `{ title, type, answers, b64_image: optional }`.
pub open spec fn canonical_question(doc: JsonTree) -> Option<Quizzle2QuestionModel> {
    match (
        text_member(doc, "title"@),
        text_member(doc, "type"@),
        array_member(doc, "answers"@),
        optional_text_member(doc, "b64_image"@),
    ) {
        (Some(title), Some(question_type), Some(items), Some(b64_image)) => match canonical_answers(
            items,
        ) {
            Some(answers) => Some(
                Quizzle2QuestionModel { title, question_type, answers, b64_image },
            ),
            None => None,
        },
        _ => None,
    }
}

/// The questions of a canonical document.
pub open spec fn canonical_questions(items: Seq<JsonTree>) -> Option<Seq<Quizzle2QuestionModel>> {
    match_each(items, |item: JsonTree| canonical_question(item))
}

/// A document of the canonical schema: `{ __type, title, questions }`, where
/// `__type` is the canonical tag and nothing else.
pub open spec fn canonical_quiz(doc: JsonTree) -> Option<Quizzle2QuizModel> {
    match (
        text_member(doc, "__type"@),
        text_member(doc, "title"@),
        array_member(doc, "questions"@),
    ) {
        (Some(quiz_type), Some(title), Some(items)) => if quiz_type == canonical_tag() {
            match canonical_questions(items) {
                Some(questions) => Some(Quizzle2QuizModel { quiz_type, title, questions }),
                None => None,
            }
        } else {
            None
        },
        _ => None,
    }
}

/// An answer of the middle schema: `{ content, type, is_correct }`, all
/// three required.
pub open spec fn quizzle1_answer(doc: JsonTree) -> Option<Quizzle1AnswerModel> {
    match (
        text_member(doc, "content"@),
        text_member(doc, "type"@),
        bool_member(doc, "is_correct"@),
    ) {
        (Some(content), Some(answer_type), Some(is_correct)) => Some(
            Quizzle1AnswerModel { content, answer_type, is_correct },
        ),
        _ => None,
    }
}

/// The answers of a question of the middle schema.
pub open spec fn quizzle1_answers(items: Seq<JsonTree>) -> Option<Seq<Quizzle1AnswerModel>> {
    match_each(items, |item: JsonTree| quizzle1_answer(item))
}

/// A question of the middle schema: `{ title, answers, b64_image: optional }`.
pub open spec fn quizzle1_question(doc: JsonTree) -> Option<Quizzle1QuestionModel> {
    match (
        text_member(doc, "title"@),
        array_member(doc, "answers"@),
        optional_text_member(doc, "b64_image"@),
    ) {
        (Some(title), Some(items), Some(b64_image)) => match quizzle1_answers(items) {
            Some(answers) => Some(Quizzle1QuestionModel { title, answers, b64_image }),
            None => None,
        },
        _ => None,
    }
}

/// The questions of a document of the middle schema.
pub open spec fn quizzle1_questions(items: Seq<JsonTree>) -> Option<Seq<Quizzle1QuestionModel>> {
    match_each(items, |item: JsonTree| quizzle1_question(item))
}

/// A document of the middle schema: `{ title, questions }`.
pub open spec fn quizzle1_quiz(doc: JsonTree) -> Option<Quizzle1QuizModel> {
    match (text_member(doc, "title"@), array_member(doc, "questions"@)) {
        (Some(title), Some(items)) => match quizzle1_questions(items) {
            Some(questions) => Some(Quizzle1QuizModel { title, questions }),
            None => None,
        },
        _ => None,
    }
}

/// The answers of a question of the oldest schema: an array of strings.
pub open spec fn bfsit_answers(items: Seq<JsonTree>) -> Option<Seq<Seq<char>>> {
    match_each(items, |item: JsonTree| text_item(item))
}

/// A question of the oldest schema: `{ title, answers, correctAnswer }`.
pub open spec fn bfsit_question(doc: JsonTree) -> Option<BfsitQuestionModel> {
    match (
        text_member(doc, "title"@),
        array_member(doc, "answers"@),
        index_member(doc, "correctAnswer"@),
    ) {
        (Some(title), Some(items), Some(correct_answer)) => match bfsit_answers(items) {
            Some(answers) => Some(BfsitQuestionModel { title, answers, correct_answer }),
            None => None,
        },
        _ => None,
    }
}

/// The questions of a document of the oldest schema.
pub open spec fn bfsit_questions(items: Seq<JsonTree>) -> Option<Seq<BfsitQuestionModel>> {
    match_each(items, |item: JsonTree| bfsit_question(item))
}

/// The header of the oldest schema: `{ title }`.
pub open spec fn bfsit_info(doc: JsonTree) -> Option<BfsitInfoModel> {
    match text_member(doc, "title"@) {
        Some(title) => Some(BfsitInfoModel { title }),
        None => None,
    }
}

/// A document of the oldest schema: `{ info: { title }, questions }`.
pub open spec fn bfsit_quiz(doc: JsonTree) -> Option<BfsitQuizModel> {
    match (doc.field("info"@), array_member(doc, "questions"@)) {
        (Some(header), Some(items)) => match (bfsit_info(header), bfsit_questions(items)) {
            (Some(info), Some(questions)) => Some(BfsitQuizModel { info, questions }),
            _ => None,
        },
        _ => None,
    }
}

/// Reads a required string member.
fn text_of(doc: &Json, key: &str) -> (r: Option<String>)
    ensures
        r.deep_view() == text_member(doc.tree(), key@),
{
    match doc.get(key) {
        Some(Json::Text(s)) => Some(s.clone()),
        _ => None,
    }
}

/// Reads a required boolean member.
fn bool_of(doc: &Json, key: &str) -> (r: Option<bool>)
    ensures
        r == bool_member(doc.tree(), key@),
{
    match doc.get(key) {
        Some(Json::Bool(b)) => Some(*b),
        _ => None,
    }
}

/// Reads a required member that counts or numbers something.
fn index_of(doc: &Json, key: &str) -> (r: Option<usize>)
    ensures
        match r {
            Some(n) => index_member(doc.tree(), key@) == Some(n as nat),
            None => index_member(doc.tree(), key@) is None,
        },
{
    match doc.get(key) {
        Some(Json::Unsigned(n)) => if *n <= usize::MAX as u64 {
            Some(*n as usize)
        } else {
            None
        },
        _ => None,
    }
}

/// Reads a required array member.
fn items_of<'a>(doc: &'a Json, key: &str) -> (r: Option<&'a Vec<Json>>)
    ensures
        r.deep_view() == array_member(doc.tree(), key@),
{
    match doc.get(key) {
        Some(Json::Array(items)) => {
            assert(items.deep_view() =~= Json::Array(*items).tree()->Array_0);
            Some(items)
        },
        _ => None,
    }
}

/// Reads an optional string member.
fn optional_text_of(doc: &Json, key: &str) -> (r: Option<Option<String>>)
    ensures
        r.deep_view() == optional_text_member(doc.tree(), key@),
{
    match doc.get(key) {
        None => Some(None),
        Some(Json::Null) => Some(None),
        Some(Json::Text(s)) => Some(Some(s.clone())),
        _ => None,
    }
}

/// Reads an optional boolean member.
fn optional_bool_of(doc: &Json, key: &str) -> (r: Option<Option<bool>>)
    ensures
        r == optional_bool_member(doc.tree(), key@),
{
    match doc.get(key) {
        None => Some(None),
        Some(Json::Null) => Some(None),
        Some(Json::Bool(b)) => Some(Some(*b)),
        _ => None,
    }
}

/// Matches one answer against the canonical schema.
fn match_quizzle2_answer(doc: &Json) -> (r: Option<Quizzle2Answer>)
    ensures
        r.deep_view() == canonical_answer(doc.tree()),
{
    let content = match text_of(doc, "content") {
        Some(s) => s,
        None => return None,
    };
    let answer_type = match optional_text_of(doc, "type") {
        Some(s) => s,
        None => return None,
    };
    let is_correct = match optional_bool_of(doc, "is_correct") {
        Some(b) => b,
        None => return None,
    };
    Some(Quizzle2Answer { content, answer_type, is_correct })
}

/// Matches every item of an array against the canonical answer schema.
fn match_quizzle2_answers(items: &Vec<Json>) -> (r: Option<Vec<Quizzle2Answer>>)
    ensures
        r.deep_view() == canonical_answers(items.deep_view()),
{
    let ghost trees = items.deep_view();
    let mut out: Vec<Quizzle2Answer> = Vec::new();
    let mut i: usize = 0;
    while i < items.len()
        invariant
            0 <= i <= items.len(),
            trees == items.deep_view(),
            out@.len() == i,
            forall|k: int|
                0 <= k < i ==> canonical_answer(#[trigger] trees[k]) == Some(out@[k].deep_view()),
        decreases items.len() - i,
    {
        match match_quizzle2_answer(&items[i]) {
            Some(item) => out.push(item),
            None => {
                assert(canonical_answer(trees[i as int]) is None);
                return None;
            },
        }
        i += 1;
    }
    assert(canonical_answers(trees).unwrap() =~= out.deep_view());
    Some(out)
}

/// Matches one question against the canonical schema.
fn match_quizzle2_question(doc: &Json) -> (r: Option<Quizzle2Question>)
    ensures
        r.deep_view() == canonical_question(doc.tree()),
{
    let title = match text_of(doc, "title") {
        Some(s) => s,
        None => return None,
    };
    let question_type = match text_of(doc, "type") {
        Some(s) => s,
        None => return None,
    };
    let items = match items_of(doc, "answers") {
        Some(items) => items,
        None => return None,
    };
    let b64_image = match optional_text_of(doc, "b64_image") {
        Some(s) => s,
        None => return None,
    };
    match match_quizzle2_answers(items) {
        Some(answers) => Some(Quizzle2Question { title, question_type, answers, b64_image }),
        None => None,
    }
}

/// Matches every item of an array against the schema of a canonical question.
fn match_quizzle2_questions(items: &Vec<Json>) -> (r: Option<Vec<Quizzle2Question>>)
    ensures
        r.deep_view() == canonical_questions(items.deep_view()),
{
    let ghost trees = items.deep_view();
    let mut out: Vec<Quizzle2Question> = Vec::new();
    let mut i: usize = 0;
    while i < items.len()
        invariant
            0 <= i <= items.len(),
            trees == items.deep_view(),
            out@.len() == i,
            forall|k: int|
                0 <= k < i ==> canonical_question(#[trigger] trees[k]) == Some(out@[k].deep_view()),
        decreases items.len() - i,
    {
        match match_quizzle2_question(&items[i]) {
            Some(item) => out.push(item),
            None => {
                assert(canonical_question(trees[i as int]) is None);
                return None;
            },
        }
        i += 1;
    }
    assert(canonical_questions(trees).unwrap() =~= out.deep_view());
    Some(out)
}

/// Matches a document against the canonical schema. The result is the
/// document that the schema reads from it, and `None` where any required
/// member is missing or of the wrong kind, or the tag is not the canonical
/// one.
pub fn match_quizzle2(doc: &Json) -> (r: Option<Quizzle2Quiz>)
    ensures
        r.deep_view() == canonical_quiz(doc.tree()),
{
    let quiz_type = match text_of(doc, "__type") {
        Some(s) => s,
        None => return None,
    };
    let title = match text_of(doc, "title") {
        Some(s) => s,
        None => return None,
    };
    let items = match items_of(doc, "questions") {
        Some(items) => items,
        None => return None,
    };
    let tag = "QUIZZLE2".to_owned();
    if !(quiz_type == tag) {
        return None;
    }
    match match_quizzle2_questions(items) {
        Some(questions) => Some(Quizzle2Quiz { quiz_type, title, questions }),
        None => None,
    }
}

/// Matches one answer against the middle schema.
fn match_quizzle1_answer(doc: &Json) -> (r: Option<Quizzle1Answer>)
    ensures
        r.deep_view() == quizzle1_answer(doc.tree()),
{
    let content = match text_of(doc, "content") {
        Some(s) => s,
        None => return None,
    };
    let answer_type = match text_of(doc, "type") {
        Some(s) => s,
        None => return None,
    };
    let is_correct = match bool_of(doc, "is_correct") {
        Some(b) => b,
        None => return None,
    };
    Some(Quizzle1Answer { content, answer_type, is_correct })
}

/// Matches every item of an array against the schema of an answer of the middle schema.
fn match_quizzle1_answers(items: &Vec<Json>) -> (r: Option<Vec<Quizzle1Answer>>)
    ensures
        r.deep_view() == quizzle1_answers(items.deep_view()),
{
    let ghost trees = items.deep_view();
    let mut out: Vec<Quizzle1Answer> = Vec::new();
    let mut i: usize = 0;
    while i < items.len()
        invariant
            0 <= i <= items.len(),
            trees == items.deep_view(),
            out@.len() == i,
            forall|k: int|
                0 <= k < i ==> quizzle1_answer(#[trigger] trees[k]) == Some(out@[k].deep_view()),
        decreases items.len() - i,
    {
        match match_quizzle1_answer(&items[i]) {
            Some(item) => out.push(item),
            None => {
                assert(quizzle1_answer(trees[i as int]) is None);
                return None;
            },
        }
        i += 1;
    }
    assert(quizzle1_answers(trees).unwrap() =~= out.deep_view());
    Some(out)
}

/// Matches one question against the middle schema.
fn match_quizzle1_question(doc: &Json) -> (r: Option<Quizzle1Question>)
    ensures
        r.deep_view() == quizzle1_question(doc.tree()),
{
    let title = match text_of(doc, "title") {
        Some(s) => s,
        None => return None,
    };
    let items = match items_of(doc, "answers") {
        Some(items) => items,
        None => return None,
    };
    let b64_image = match optional_text_of(doc, "b64_image") {
        Some(s) => s,
        None => return None,
    };
    match match_quizzle1_answers(items) {
        Some(answers) => Some(Quizzle1Question { title, answers, b64_image }),
        None => None,
    }
}

/// Matches every item of an array against the schema of a question of the middle schema.
fn match_quizzle1_questions(items: &Vec<Json>) -> (r: Option<Vec<Quizzle1Question>>)
    ensures
        r.deep_view() == quizzle1_questions(items.deep_view()),
{
    let ghost trees = items.deep_view();
    let mut out: Vec<Quizzle1Question> = Vec::new();
    let mut i: usize = 0;
    while i < items.len()
        invariant
            0 <= i <= items.len(),
            trees == items.deep_view(),
            out@.len() == i,
            forall|k: int|
                0 <= k < i ==> quizzle1_question(#[trigger] trees[k]) == Some(out@[k].deep_view()),
        decreases items.len() - i,
    {
        match match_quizzle1_question(&items[i]) {
            Some(item) => out.push(item),
            None => {
                assert(quizzle1_question(trees[i as int]) is None);
                return None;
            },
        }
        i += 1;
    }
    assert(quizzle1_questions(trees).unwrap() =~= out.deep_view());
    Some(out)
}

/// Matches a document against the middle schema.
pub fn match_quizzle1(doc: &Json) -> (r: Option<Quizzle1Quiz>)
    ensures
        r.deep_view() == quizzle1_quiz(doc.tree()),
{
    let title = match text_of(doc, "title") {
        Some(s) => s,
        None => return None,
    };
    let items = match items_of(doc, "questions") {
        Some(items) => items,
        None => return None,
    };
    match match_quizzle1_questions(items) {
        Some(questions) => Some(Quizzle1Quiz { title, questions }),
        None => None,
    }
}

/// Matches one item of an array of strings.
fn match_text_item(doc: &Json) -> (r: Option<String>)
    ensures
        r.deep_view() == text_item(doc.tree()),
{
    match doc {
        Json::Text(s) => Some(s.clone()),
        _ => None,
    }
}

/// Matches every item of an array against the schema of a plain string.
fn match_bfsit_answers(items: &Vec<Json>) -> (r: Option<Vec<String>>)
    ensures
        r.deep_view() == bfsit_answers(items.deep_view()),
{
    let ghost trees = items.deep_view();
    let mut out: Vec<String> = Vec::new();
    let mut i: usize = 0;
    while i < items.len()
        invariant
            0 <= i <= items.len(),
            trees == items.deep_view(),
            out@.len() == i,
            forall|k: int|
                0 <= k < i ==> text_item(#[trigger] trees[k]) == Some(out@[k].deep_view()),
        decreases items.len() - i,
    {
        match match_text_item(&items[i]) {
            Some(item) => out.push(item),
            None => {
                assert(text_item(trees[i as int]) is None);
                return None;
            },
        }
        i += 1;
    }
    assert(bfsit_answers(trees).unwrap() =~= out.deep_view());
    Some(out)
}

/// Matches one question against the oldest schema.
fn match_bfsit_question(doc: &Json) -> (r: Option<BfsitQuestion>)
    ensures
        r.deep_view() == bfsit_question(doc.tree()),
{
    let title = match text_of(doc, "title") {
        Some(s) => s,
        None => return None,
    };
    let items = match items_of(doc, "answers") {
        Some(items) => items,
        None => return None,
    };
    let correct_answer = match index_of(doc, "correctAnswer") {
        Some(n) => n,
        None => return None,
    };
    match match_bfsit_answers(items) {
        Some(answers) => Some(BfsitQuestion { title, answers, correct_answer }),
        None => None,
    }
}

/// Matches every item of an array against the schema of a question of the oldest schema.
fn match_bfsit_questions(items: &Vec<Json>) -> (r: Option<Vec<BfsitQuestion>>)
    ensures
        r.deep_view() == bfsit_questions(items.deep_view()),
{
    let ghost trees = items.deep_view();
    let mut out: Vec<BfsitQuestion> = Vec::new();
    let mut i: usize = 0;
    while i < items.len()
        invariant
            0 <= i <= items.len(),
            trees == items.deep_view(),
            out@.len() == i,
            forall|k: int|
                0 <= k < i ==> bfsit_question(#[trigger] trees[k]) == Some(out@[k].deep_view()),
        decreases items.len() - i,
    {
        match match_bfsit_question(&items[i]) {
            Some(item) => out.push(item),
            None => {
                assert(bfsit_question(trees[i as int]) is None);
                return None;
            },
        }
        i += 1;
    }
    assert(bfsit_questions(trees).unwrap() =~= out.deep_view());
    Some(out)
}

/// Matches the header of the oldest schema.
fn match_bfsit_info(doc: &Json) -> (r: Option<BfsitInfo>)
    ensures
        r.deep_view() == bfsit_info(doc.tree()),
{
    match text_of(doc, "title") {
        Some(title) => Some(BfsitInfo { title }),
        None => None,
    }
}

/// Matches a document against the oldest schema.
pub fn match_bfsit(doc: &Json) -> (r: Option<BfsitQuiz>)
    ensures
        r.deep_view() == bfsit_quiz(doc.tree()),
{
    let header = match doc.get("info") {
        Some(header) => header,
        None => return None,
    };
    let items = match items_of(doc, "questions") {
        Some(items) => items,
        None => return None,
    };
    let info = match match_bfsit_info(header) {
        Some(info) => info,
        None => return None,
    };
    match match_bfsit_questions(items) {
        Some(questions) => Some(BfsitQuiz { info, questions }),
        None => None,
    }
}

} // verus!
