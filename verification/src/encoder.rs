//! From a canonical document to the bytes of its container.
//!
//! The document is laid out as a JSON object whose members stand in the
//! order of the schema, an absent optional member written as no member at
//! all. The text is indented JSON, and the container is always the zlib
//! one, whichever container the document came from.

use crate::container::{encode_container, encoded_container};
use crate::error::EncodeError;
use crate::formats::{
    Quizzle2Answer, Quizzle2AnswerModel, Quizzle2Question, Quizzle2QuestionModel, Quizzle2Quiz,
    Quizzle2QuizModel,
};
use crate::json::{
    distinct_keys, lemma_distinct_push, lemma_lookup_push, lookup, Json, JsonField, JsonTree,
    Member,
};
use crate::json_text::{pretty_json, render_json};
use crate::schema::{
    canonical_answer, canonical_answers, canonical_question, canonical_questions, canonical_quiz,
};
use vstd::prelude::*;

verus! {

/// A member of an object.
pub open spec fn member(key: Seq<char>, value: JsonTree) -> JsonField {
    JsonField { key, value }
}

/// The members of an object with one more at the end, where there is a
/// value to write.
pub open spec fn push_optional(fields: Seq<JsonField>, key: Seq<char>, value: Option<JsonTree>)
    -> Seq<JsonField> {
    match value {
        Some(value) => fields.push(member(key, value)),
        None => fields,
    }
}

/// An optional string as an optional JSON value.
pub open spec fn optional_text(value: Option<Seq<char>>) -> Option<JsonTree> {
    match value {
        Some(text) => Some(JsonTree::Text(text)),
        None => None,
    }
}

/// An optional boolean as an optional JSON value.
pub open spec fn optional_bool(value: Option<bool>) -> Option<JsonTree> {
    match value {
        Some(b) => Some(JsonTree::Bool(b)),
        None => None,
    }
}

/// The JSON object of a canonical answer.
pub open spec fn answer_tree(answer: Quizzle2AnswerModel) -> JsonTree {
    JsonTree::Object(
        push_optional(
            push_optional(
                Seq::empty().push(member("content"@, JsonTree::Text(answer.content))),
                "type"@,
                optional_text(answer.answer_type),
            ),
            "is_correct"@,
            optional_bool(answer.is_correct),
        ),
    )
}

/// The JSON object of a canonical question.
pub open spec fn question_tree(question: Quizzle2QuestionModel) -> JsonTree {
    JsonTree::Object(
        push_optional(
            Seq::empty().push(member("title"@, JsonTree::Text(question.title))).push(
                member("type"@, JsonTree::Text(question.question_type)),
            ).push(
                member(
                    "answers"@,
                    JsonTree::Array(
                        Seq::new(question.answers.len(), |i: int| answer_tree(question.answers[i])),
                    ),
                ),
            ),
            "b64_image"@,
            optional_text(question.b64_image),
        ),
    )
}

/// The JSON object of a canonical document.
pub open spec fn quiz_tree(quiz: Quizzle2QuizModel) -> JsonTree {
    JsonTree::Object(
        Seq::empty().push(member("__type"@, JsonTree::Text(quiz.quiz_type))).push(
            member("title"@, JsonTree::Text(quiz.title)),
        ).push(
            member(
                "questions"@,
                JsonTree::Array(
                    Seq::new(quiz.questions.len(), |i: int| question_tree(quiz.questions[i])),
                ),
            ),
        ),
    )
}

/// The bytes that a canonical document is stored as: indented JSON text in
/// the zlib container.
pub open spec fn encoded_quiz(quiz: Quizzle2QuizModel) -> Result<Seq<u8>, EncodeError> {
    match pretty_json(quiz_tree(quiz)) {
        Some(text) => match encoded_container(text) {
            Some(stream) => Ok(stream),
            None => Err(EncodeError::Compress),
        },
        None => Err(EncodeError::Serialize),
    }
}

/// What `lookup` finds, for every key, after a member is appended.
proof fn lemma_lookup_after_push(fields: Seq<JsonField>, last: JsonField)
    ensures
        forall|key: Seq<char>| #[trigger]
            lookup(fields.push(last), key) == match lookup(fields, key) {
                Some(value) => Some(value),
                None => if last.key == key {
                    Some(last.value)
                } else {
                    None
                },
            },
{
    assert forall|key: Seq<char>| #[trigger]
        lookup(fields.push(last), key) == match lookup(fields, key) {
            Some(value) => Some(value),
            None => if last.key == key {
                Some(last.value)
            } else {
                None
            },
        } by {
        lemma_lookup_push(fields, last, key);
    }
}

/// The names of the members of the canonical schema differ from each other.
proof fn lemma_member_names()
    ensures
        "content"@.len() == 7,
        "type"@.len() == 4,
        "is_correct"@.len() == 10,
        "title"@.len() == 5,
        "answers"@.len() == 7,
        "b64_image"@.len() == 9,
        "__type"@.len() == 6,
        "questions"@.len() == 9,
{
    reveal_strlit("content");
    reveal_strlit("type");
    reveal_strlit("is_correct");
    reveal_strlit("title");
    reveal_strlit("answers");
    reveal_strlit("b64_image");
    reveal_strlit("__type");
    reveal_strlit("questions");
}

/// The object of a canonical answer reads back as that answer, and can be
/// written out.
pub proof fn lemma_answer_tree(answer: Quizzle2AnswerModel)
    ensures
        canonical_answer(answer_tree(answer)) == Some(answer),
        answer_tree(answer).writable(),
{
    lemma_member_names();
    let first = Seq::<JsonField>::empty().push(member("content"@, JsonTree::Text(answer.content)));
    let second = push_optional(first, "type"@, optional_text(answer.answer_type));
    let third = push_optional(second, "is_correct"@, optional_bool(answer.is_correct));
    lemma_lookup_after_push(Seq::empty(), member("content"@, JsonTree::Text(answer.content)));
    lemma_distinct_push(Seq::empty(), member("content"@, JsonTree::Text(answer.content)));
    if let Some(text) = answer.answer_type {
        lemma_lookup_after_push(first, member("type"@, JsonTree::Text(text)));
        lemma_distinct_push(first, member("type"@, JsonTree::Text(text)));
    }
    if let Some(b) = answer.is_correct {
        lemma_lookup_after_push(second, member("is_correct"@, JsonTree::Bool(b)));
        lemma_distinct_push(second, member("is_correct"@, JsonTree::Bool(b)));
    }
    assert(answer_tree(answer) == JsonTree::Object(third));
    assert(distinct_keys(third));
    assert forall|i: int| 0 <= i < third.len() implies (#[trigger] third[i]).value.writable() by {}
}

/// The array of the answers of a question reads back as those answers.
proof fn lemma_answer_trees(answers: Seq<Quizzle2AnswerModel>)
    ensures
        canonical_answers(Seq::new(answers.len(), |i: int| answer_tree(answers[i]))) == Some(
            answers,
        ),
        JsonTree::Array(Seq::new(answers.len(), |i: int| answer_tree(answers[i]))).writable(),
{
    let items = Seq::new(answers.len(), |i: int| answer_tree(answers[i]));
    assert forall|i: int| 0 <= i < items.len() implies canonical_answer(#[trigger] items[i])
        == Some(answers[i]) && items[i].writable() by {
        lemma_answer_tree(answers[i]);
    }
    assert(canonical_answers(items).unwrap() =~= answers);
    let array = JsonTree::Array(items);
    assert forall|i: int| 0 <= i < array->Array_0.len() implies (
    #[trigger] array->Array_0[i]).writable() by {
        assert(array->Array_0[i] == items[i]);
    }
}

/// The object of a canonical question reads back as that question, and can
/// be written out.
pub proof fn lemma_question_tree(question: Quizzle2QuestionModel)
    ensures
        canonical_question(question_tree(question)) == Some(question),
        question_tree(question).writable(),
{
    lemma_member_names();
    lemma_answer_trees(question.answers);
    let title = member("title"@, JsonTree::Text(question.title));
    let kind = member("type"@, JsonTree::Text(question.question_type));
    let answers = member(
        "answers"@,
        JsonTree::Array(
            Seq::new(question.answers.len(), |i: int| answer_tree(question.answers[i])),
        ),
    );
    let first = Seq::<JsonField>::empty().push(title);
    let second = first.push(kind);
    let third = second.push(answers);
    let fourth = push_optional(third, "b64_image"@, optional_text(question.b64_image));
    lemma_lookup_after_push(Seq::empty(), title);
    lemma_distinct_push(Seq::empty(), title);
    lemma_lookup_after_push(first, kind);
    lemma_distinct_push(first, kind);
    lemma_lookup_after_push(second, answers);
    lemma_distinct_push(second, answers);
    if let Some(image) = question.b64_image {
        lemma_lookup_after_push(third, member("b64_image"@, JsonTree::Text(image)));
        lemma_distinct_push(third, member("b64_image"@, JsonTree::Text(image)));
    }
    assert(question_tree(question) == JsonTree::Object(fourth));
    assert(distinct_keys(fourth));
    assert forall|i: int| 0 <= i < fourth.len() implies (
    #[trigger] fourth[i]).value.writable() by {}
}

/// The array of the questions of a document reads back as those questions.
proof fn lemma_question_trees(questions: Seq<Quizzle2QuestionModel>)
    ensures
        canonical_questions(Seq::new(questions.len(), |i: int| question_tree(questions[i])))
            == Some(questions),
        JsonTree::Array(Seq::new(questions.len(), |i: int| question_tree(questions[i]))).writable(),
{
    let items = Seq::new(questions.len(), |i: int| question_tree(questions[i]));
    assert forall|i: int| 0 <= i < items.len() implies canonical_question(#[trigger] items[i])
        == Some(questions[i]) && items[i].writable() by {
        lemma_question_tree(questions[i]);
    }
    assert(canonical_questions(items).unwrap() =~= questions);
    let array = JsonTree::Array(items);
    assert forall|i: int| 0 <= i < array->Array_0.len() implies (
    #[trigger] array->Array_0[i]).writable() by {
        assert(array->Array_0[i] == items[i]);
    }
}

/// The object of a canonical document can be written out, and where the
/// document carries the canonical tag, the object reads back as that
/// document.
pub proof fn lemma_quiz_tree(quiz: Quizzle2QuizModel)
    ensures
        quiz_tree(quiz).writable(),
        quiz.wf() ==> canonical_quiz(quiz_tree(quiz)) == Some(quiz),
{
    lemma_member_names();
    lemma_question_trees(quiz.questions);
    let tag = member("__type"@, JsonTree::Text(quiz.quiz_type));
    let title = member("title"@, JsonTree::Text(quiz.title));
    let questions = member(
        "questions"@,
        JsonTree::Array(Seq::new(quiz.questions.len(), |i: int| question_tree(quiz.questions[i]))),
    );
    let first = Seq::<JsonField>::empty().push(tag);
    let second = first.push(title);
    let third = second.push(questions);
    lemma_lookup_after_push(Seq::empty(), tag);
    lemma_distinct_push(Seq::empty(), tag);
    lemma_lookup_after_push(first, title);
    lemma_distinct_push(first, title);
    lemma_lookup_after_push(second, questions);
    lemma_distinct_push(second, questions);
    assert(quiz_tree(quiz) == JsonTree::Object(third));
    assert(distinct_keys(third));
    assert forall|i: int| 0 <= i < third.len() implies (#[trigger] third[i]).value.writable() by {}
}

/// The members of an object under construction, as the model sees them.
spec fn fields_of(members: Seq<Member>) -> Seq<JsonField> {
    Seq::new(members.len(), |i: int| member(members[i].key@, members[i].value.tree()))
}

/// Appends a member to an object under construction.
fn push_member(members: &mut Vec<Member>, key: &str, value: Json)
    ensures
        fields_of(final(members)@) == fields_of(old(members)@).push(member(key@, value.tree())),
{
    members.push(Member { key: key.to_owned(), value });
    assert(fields_of(members@) =~= fields_of(old(members)@).push(member(key@, value.tree())));
}

/// Closes an object under construction.
fn object_of(members: Vec<Member>) -> (doc: Json)
    ensures
        doc.tree() == JsonTree::Object(fields_of(members@)),
{
    let doc = Json::Object(members);
    assert(doc.tree()->Object_0 =~= fields_of(members@));
    doc
}

/// Closes an array under construction.
fn array_of(items: Vec<Json>) -> (doc: Json)
    ensures
        doc.tree() == JsonTree::Array(Seq::new(items@.len(), |i: int| items@[i].tree())),
{
    let doc = Json::Array(items);
    assert(doc.tree()->Array_0 =~= Seq::new(items@.len(), |i: int| items@[i].tree()));
    doc
}

/// Lays out a canonical answer as a JSON object.
fn answer_to_json(answer: &Quizzle2Answer) -> (doc: Json)
    ensures
        doc.tree() == answer_tree(answer.deep_view()),
{
    let mut members: Vec<Member> = Vec::new();
    assert(fields_of(members@) =~= Seq::empty());
    push_member(&mut members, "content", Json::Text(answer.content.clone()));
    if let Some(text) = &answer.answer_type {
        push_member(&mut members, "type", Json::Text(text.clone()));
    }
    if let Some(b) = answer.is_correct {
        push_member(&mut members, "is_correct", Json::Bool(b));
    }
    object_of(members)
}

/// Lays out a canonical question as a JSON object.
fn question_to_json(question: &Quizzle2Question) -> (doc: Json)
    ensures
        doc.tree() == question_tree(question.deep_view()),
{
    let ghost model = question.deep_view();
    let mut answers: Vec<Json> = Vec::new();
    let mut i: usize = 0;
    while i < question.answers.len()
        invariant
            0 <= i <= question.answers.len(),
            model == question.deep_view(),
            answers@.len() == i,
            forall|k: int|
                0 <= k < i ==> (#[trigger] answers@[k]).tree() == answer_tree(model.answers[k]),
        decreases question.answers.len() - i,
    {
        answers.push(answer_to_json(&question.answers[i]));
        i += 1;
    }
    assert(Seq::new(answers@.len(), |i: int| answers@[i].tree()) =~= Seq::new(
        model.answers.len(),
        |i: int| answer_tree(model.answers[i]),
    ));
    let array = array_of(answers);
    let mut members: Vec<Member> = Vec::new();
    assert(fields_of(members@) =~= Seq::empty());
    push_member(&mut members, "title", Json::Text(question.title.clone()));
    push_member(&mut members, "type", Json::Text(question.question_type.clone()));
    push_member(&mut members, "answers", array);
    if let Some(image) = &question.b64_image {
        push_member(&mut members, "b64_image", Json::Text(image.clone()));
    }
    object_of(members)
}

/// Lays out a canonical document as a JSON object: `__type`, `title` and
/// `questions`, in this order, and within each question and answer the
/// members of the schema in theirs. An optional member without a value is
/// left out.
pub fn quizzle2_to_json(quiz: &Quizzle2Quiz) -> (doc: Json)
    ensures
        doc.tree() == quiz_tree(quiz.deep_view()),
{
    let ghost model = quiz.deep_view();
    let mut questions: Vec<Json> = Vec::new();
    let mut i: usize = 0;
    while i < quiz.questions.len()
        invariant
            0 <= i <= quiz.questions.len(),
            model == quiz.deep_view(),
            questions@.len() == i,
            forall|k: int|
                0 <= k < i ==> (#[trigger] questions@[k]).tree() == question_tree(
                    model.questions[k],
                ),
        decreases quiz.questions.len() - i,
    {
        questions.push(question_to_json(&quiz.questions[i]));
        i += 1;
    }
    assert(Seq::new(questions@.len(), |i: int| questions@[i].tree()) =~= Seq::new(
        model.questions.len(),
        |i: int| question_tree(model.questions[i]),
    ));
    let array = array_of(questions);
    let mut members: Vec<Member> = Vec::new();
    assert(fields_of(members@) =~= Seq::empty());
    push_member(&mut members, "__type", Json::Text(quiz.quiz_type.clone()));
    push_member(&mut members, "title", Json::Text(quiz.title.clone()));
    push_member(&mut members, "questions", array);
    object_of(members)
}

/// Writes a canonical document as indented JSON text.
pub fn quizzle2_to_text(quiz: &Quizzle2Quiz) -> (r: Option<String>)
    ensures
        r.deep_view() == pretty_json(quiz_tree(quiz.deep_view())),
{
    let doc = quizzle2_to_json(quiz);
    proof {
        lemma_quiz_tree(quiz.deep_view());
    }
    render_json(&doc)
}

/// Encodes a canonical document as the bytes of its container. The result
/// is exactly [`encoded_quiz`].
pub fn encode_quizzle2(quiz: &Quizzle2Quiz) -> (r: Result<Vec<u8>, EncodeError>)
    ensures
        match r {
            Ok(stream) => encoded_quiz(quiz.deep_view()) == Ok::<Seq<u8>, EncodeError>(stream@),
            Err(e) => encoded_quiz(quiz.deep_view()) == Err::<Seq<u8>, EncodeError>(e),
        },
{
    let text = match quizzle2_to_text(quiz) {
        Some(text) => text,
        None => return Err(EncodeError::Serialize),
    };
    match encode_container(text.as_str()) {
        Some(stream) => Ok(stream),
        None => Err(EncodeError::Compress),
    }
}

} // verus!
