//! From the bytes of a file to a classified quiz document.
//!
//! A text is tried against the three schemas in a fixed order: canonical
//! first, then the middle schema, then the oldest. The first schema that
//! matches decides; a text that matches none is rejected as a whole.

use crate::container::{decode_container, decoded_container, ContainerKind};
use crate::error::{MigrationError, ParseError};
use crate::formats::{
    BfsitQuiz, BfsitQuizModel, Quizzle1Quiz, Quizzle1QuizModel, Quizzle2Quiz, Quizzle2QuizModel,
};
use crate::json::{Json, JsonTree};
use crate::json_text::{parse_json, parsed_json};
use crate::schema::{
    bfsit_quiz, canonical_quiz, match_bfsit, match_quizzle1, match_quizzle2, quizzle1_quiz,
};
use vstd::prelude::*;
use vstd::utf8::encode_utf8;

verus! {

/// Model of [`QuizFormat`].
pub enum QuizFormatModel {
    Bfsit(BfsitQuizModel),
    Quizzle1(Quizzle1QuizModel),
    Quizzle2(Quizzle2QuizModel),
}

/// A quiz document together with the schema that it was read as.
#[derive(Debug, Clone, PartialEq, Eq)]
pub enum QuizFormat {
    /// The oldest schema.
    Bfsit(BfsitQuiz),
    /// The middle schema.
    Quizzle1(Quizzle1Quiz),
    /// The canonical schema.
    Quizzle2(Quizzle2Quiz),
}

impl DeepView for QuizFormat {
    type V = QuizFormatModel;

    open spec fn deep_view(&self) -> QuizFormatModel {
        match self {
            QuizFormat::Bfsit(quiz) => QuizFormatModel::Bfsit(quiz.deep_view()),
            QuizFormat::Quizzle1(quiz) => QuizFormatModel::Quizzle1(quiz.deep_view()),
            QuizFormat::Quizzle2(quiz) => QuizFormatModel::Quizzle2(quiz.deep_view()),
        }
    }
}

impl QuizFormatModel {
    /// A classified document is well formed when its canonical variant
    /// carries the canonical tag.
    pub open spec fn wf(self) -> bool {
        self matches QuizFormatModel::Quizzle2(quiz) ==> quiz.wf()
    }
}

/// The schema that a JSON document is read as: the first of canonical,
/// middle and oldest that it matches, and `None` when it matches none.
pub open spec fn classified(doc: JsonTree) -> Option<QuizFormatModel> {
    match canonical_quiz(doc) {
        Some(quiz) => Some(QuizFormatModel::Quizzle2(quiz)),
        None => match quizzle1_quiz(doc) {
            Some(quiz) => Some(QuizFormatModel::Quizzle1(quiz)),
            None => match bfsit_quiz(doc) {
                Some(quiz) => Some(QuizFormatModel::Bfsit(quiz)),
                None => None,
            },
        },
    }
}

/// The error for a text that is no known quiz document.
pub open spec fn unknown_format(text: Seq<char>) -> ParseError {
    ParseError::UnknownFormat { length: encode_utf8(text).len() as usize }
}

/// What a text is read as: the classified document of the JSON that it
/// holds. A text that is no JSON, or JSON that matches no schema, is an
/// unknown format.
pub open spec fn parsed_quiz(text: Seq<char>) -> Result<QuizFormatModel, ParseError> {
    match parsed_json(text) {
        Some(doc) => match classified(doc) {
            Some(quiz) => Ok(quiz),
            None => Err(unknown_format(text)),
        },
        None => Err(unknown_format(text)),
    }
}

/// The container that a file extension stands for.
pub open spec fn container_kind_of(extension: Seq<char>) -> Option<ContainerKind> {
    if extension == "quizlet"@ {
        Some(ContainerKind::Base64)
    } else if extension == "quizzle"@ {
        Some(ContainerKind::Zlib)
    } else {
        None
    }
}

/// What the content of a container of a given kind is read as.
pub open spec fn decoded_quiz(content: Seq<u8>, kind: ContainerKind) -> Result<
    QuizFormatModel,
    MigrationError,
> {
    match decoded_container(content, kind) {
        Ok(text) => match parsed_quiz(text) {
            Ok(quiz) => Ok(quiz),
            Err(e) => Err(MigrationError::Parse(e)),
        },
        Err(e) => Err(MigrationError::Decode(e)),
    }
}

/// What the content of a file with a given extension is read as.
pub open spec fn decoded_file(content: Seq<u8>, extension: Seq<char>) -> Result<
    QuizFormatModel,
    MigrationError,
> {
    match container_kind_of(extension) {
        Some(kind) => decoded_quiz(content, kind),
        None => Err(MigrationError::UnsupportedExtension),
    }
}

/// Classifies a JSON document by the fixed order of the schemas.
///
/// The result is exactly [`classified`]: a document that matches the
/// canonical schema is canonical whatever else it matches, and one that
/// matches no schema yields `None`, never a document filled in part.
pub fn classify(doc: &Json) -> (r: Option<QuizFormat>)
    ensures
        r.deep_view() == classified(doc.tree()),
        r matches Some(quiz) ==> quiz.deep_view().wf(),
{
    if let Some(quiz) = match_quizzle2(doc) {
        return Some(QuizFormat::Quizzle2(quiz));
    }
    if let Some(quiz) = match_quizzle1(doc) {
        return Some(QuizFormat::Quizzle1(quiz));
    }
    if let Some(quiz) = match_bfsit(doc) {
        return Some(QuizFormat::Bfsit(quiz));
    }
    None
}

/// Reads a text as a quiz document. The result is exactly [`parsed_quiz`].
pub fn parse_quiz_json(content: &str) -> (r: Result<QuizFormat, ParseError>)
    ensures
        match r {
            Ok(quiz) => parsed_quiz(content@) == Ok::<QuizFormatModel, ParseError>(
                quiz.deep_view(),
            ) && quiz.deep_view().wf(),
            Err(e) => parsed_quiz(content@) == Err::<QuizFormatModel, ParseError>(e),
        },
{
    let classified_doc = match parse_json(content) {
        Some(doc) => classify(&doc),
        None => None,
    };
    match classified_doc {
        Some(quiz) => Ok(quiz),
        None => Err(ParseError::UnknownFormat { length: content.len() }),
    }
}

/// The container that a file extension stands for: `quizlet` for base64
/// text, `quizzle` for a zlib stream, and nothing for any other.
pub fn container_kind_for_extension(extension: &str) -> (r: Option<ContainerKind>)
    ensures
        r == container_kind_of(extension@),
{
    let given = extension.to_owned();
    if given == "quizlet".to_owned() {
        Some(ContainerKind::Base64)
    } else if given == "quizzle".to_owned() {
        Some(ContainerKind::Zlib)
    } else {
        None
    }
}

/// Decodes a container of a given kind and reads the text inside it.
pub fn decode_quiz(content: &[u8], kind: ContainerKind) -> (r: Result<QuizFormat, MigrationError>)
    ensures
        match r {
            Ok(quiz) => decoded_quiz(content@, kind) == Ok::<QuizFormatModel, MigrationError>(
                quiz.deep_view(),
            ) && quiz.deep_view().wf(),
            Err(e) => decoded_quiz(content@, kind) == Err::<QuizFormatModel, MigrationError>(e),
        },
{
    let text = match decode_container(content, kind) {
        Ok(text) => text,
        Err(e) => return Err(MigrationError::Decode(e)),
    };
    match parse_quiz_json(text.as_str()) {
        Ok(quiz) => Ok(quiz),
        Err(e) => Err(MigrationError::Parse(e)),
    }
}

/// Reads the content of a base64 container.
pub fn decode_quizlet_file(content: &[u8]) -> (r: Result<QuizFormat, MigrationError>)
    ensures
        match r {
            Ok(quiz) => decoded_quiz(content@, ContainerKind::Base64) == Ok::<
                QuizFormatModel,
                MigrationError,
            >(quiz.deep_view()) && quiz.deep_view().wf(),
            Err(e) => decoded_quiz(content@, ContainerKind::Base64) == Err::<
                QuizFormatModel,
                MigrationError,
            >(e),
        },
{
    decode_quiz(content, ContainerKind::Base64)
}

/// Reads the content of a zlib container.
pub fn decode_quizzle_file(content: &[u8]) -> (r: Result<QuizFormat, MigrationError>)
    ensures
        match r {
            Ok(quiz) => decoded_quiz(content@, ContainerKind::Zlib) == Ok::<
                QuizFormatModel,
                MigrationError,
            >(quiz.deep_view()) && quiz.deep_view().wf(),
            Err(e) => decoded_quiz(content@, ContainerKind::Zlib) == Err::<
                QuizFormatModel,
                MigrationError,
            >(e),
        },
{
    decode_quiz(content, ContainerKind::Zlib)
}

/// Reads the content of a quiz file, given the extension of its name.
///
/// The extension alone decides the container; an extension that names none
/// is rejected before a byte is looked at.
pub fn decode_quiz_file(content: &[u8], extension: &str) -> (r: Result<QuizFormat, MigrationError>)
    ensures
        match r {
            Ok(quiz) => decoded_file(content@, extension@) == Ok::<QuizFormatModel, MigrationError>(
                quiz.deep_view(),
            ) && quiz.deep_view().wf(),
            Err(e) => decoded_file(content@, extension@) == Err::<QuizFormatModel, MigrationError>(
                e,
            ),
        },
{
    match container_kind_for_extension(extension) {
        Some(ContainerKind::Base64) => decode_quizlet_file(content),
        Some(ContainerKind::Zlib) => decode_quizzle_file(content),
        None => Err(MigrationError::UnsupportedExtension),
    }
}

} // verus!
