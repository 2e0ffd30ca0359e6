use quizzle_migrator::container::{decode_container, ContainerKind};
use quizzle_migrator::decoder::{
    classify, container_kind_for_extension, decode_quiz, decode_quiz_file, decode_quizlet_file,
    decode_quizzle_file, parse_quiz_json, QuizFormat,
};
use quizzle_migrator::encoder::{encode_quizzle2, quizzle2_to_json, quizzle2_to_text};
use quizzle_migrator::error::{MigrationError, ParseError};
use quizzle_migrator::formats::{Quizzle2Answer, Quizzle2Question, Quizzle2Quiz};
use quizzle_migrator::json::{Json, Member};
use quizzle_migrator::container::DecodeError;
use std::io::Write;

fn sample() -> Quizzle2Quiz {
    Quizzle2Quiz {
        quiz_type: "QUIZZLE2".to_string(),
        title: "T".to_string(),
        questions: vec![Quizzle2Question {
            title: "Q".to_string(),
            question_type: "true-false".to_string(),
            answers: vec![
                Quizzle2Answer {
                    content: "yes".to_string(),
                    answer_type: Some("text".to_string()),
                    is_correct: Some(true),
                },
                Quizzle2Answer { content: "no".to_string(), answer_type: None, is_correct: None },
            ],
            b64_image: None,
        }],
    }
}

fn member(key: &str, value: Json) -> Member {
    Member { key: key.to_string(), value }
}

fn text(s: &str) -> Json {
    Json::Text(s.to_string())
}

fn zlib_of(bytes: &[u8]) -> Vec<u8> {
    let mut encoder = flate2::write::ZlibEncoder::new(Vec::new(), flate2::Compression::default());
    encoder.write_all(bytes).unwrap();
    encoder.finish().unwrap()
}

fn base64_of(bytes: &[u8]) -> Vec<u8> {
    base64::Engine::encode(&base64::engine::general_purpose::STANDARD, bytes).into_bytes()
}

const SAMPLE_TEXT: &str = r#"{
  "__type": "QUIZZLE2",
  "title": "T",
  "questions": [
    {
      "title": "Q",
      "type": "true-false",
      "answers": [
        {
          "content": "yes",
          "type": "text",
          "is_correct": true
        },
        {
          "content": "no"
        }
      ]
    }
  ]
}"#;

#[test]
fn canonical_document_is_laid_out_in_the_order_of_the_schema() {
    assert_eq!(
        quizzle2_to_json(&sample()),
        Json::Object(vec![
            member("__type", text("QUIZZLE2")),
            member("title", text("T")),
            member(
                "questions",
                Json::Array(vec![Json::Object(vec![
                    member("title", text("Q")),
                    member("type", text("true-false")),
                    member(
                        "answers",
                        Json::Array(vec![
                            Json::Object(vec![
                                member("content", text("yes")),
                                member("type", text("text")),
                                member("is_correct", Json::Bool(true)),
                            ]),
                            Json::Object(vec![member("content", text("no"))]),
                        ])
                    ),
                ])])
            ),
        ])
    );
}

#[test]
fn image_is_written_last_where_there_is_one() {
    let mut quiz = sample();
    quiz.questions[0].b64_image = Some("aW1hZ2U=".to_string());
    match quizzle2_to_json(&quiz).get("questions") {
        Some(Json::Array(questions)) => match &questions[0] {
            Json::Object(members) => {
                let keys: Vec<&str> = members.iter().map(|m| m.key.as_str()).collect();
                assert_eq!(keys, vec!["title", "type", "answers", "b64_image"]);
                assert_eq!(members[3].value, text("aW1hZ2U="));
            }
            other => panic!("no object: {:?}", other),
        },
        other => panic!("no questions: {:?}", other),
    }
}

#[test]
fn canonical_text_is_indented_json() {
    assert_eq!(quizzle2_to_text(&sample()), Some(SAMPLE_TEXT.to_string()));
}

#[test]
fn canonical_text_of_an_empty_quiz() {
    let quiz = Quizzle2Quiz { quiz_type: "QUIZZLE2".to_string(), title: String::new(), questions: vec![] };
    assert_eq!(
        quizzle2_to_text(&quiz),
        Some("{\n  \"__type\": \"QUIZZLE2\",\n  \"title\": \"\",\n  \"questions\": []\n}".to_string())
    );
}

#[test]
fn canonical_text_escapes_what_json_must_escape() {
    let quiz = Quizzle2Quiz {
        quiz_type: "QUIZZLE2".to_string(),
        title: "a \"quoted\" \\ title\nwith a line and ü".to_string(),
        questions: vec![],
    };
    let text = quizzle2_to_text(&quiz).unwrap();
    assert!(text.contains(r#""title": "a \"quoted\" \\ title\nwith a line and ü""#));
    assert_eq!(parse_quiz_json(&text), Ok(QuizFormat::Quizzle2(quiz)));
}

#[test]
fn canonical_container_is_the_zlib_stream_of_the_text() {
    let stream = encode_quizzle2(&sample()).unwrap();
    assert_eq!(stream, zlib_of(SAMPLE_TEXT.as_bytes()));
    assert_eq!(
        decode_container(&stream, ContainerKind::Zlib),
        Ok(SAMPLE_TEXT.to_string())
    );
}

#[test]
fn canonical_document_reads_back_member_for_member() {
    let quiz = sample();
    let text = quizzle2_to_text(&quiz).unwrap();
    assert_eq!(parse_quiz_json(&text), Ok(QuizFormat::Quizzle2(quiz.clone())));
    assert_eq!(classify(&quizzle2_to_json(&quiz)), Some(QuizFormat::Quizzle2(quiz.clone())));
    let stream = encode_quizzle2(&quiz).unwrap();
    assert_eq!(decode_quizzle_file(&stream), Ok(QuizFormat::Quizzle2(quiz)));
}

#[test]
fn canonical_document_with_every_optional_member_reads_back() {
    let mut quiz = sample();
    quiz.questions[0].b64_image = Some("aW1hZ2U=".to_string());
    quiz.questions[0].answers[1].answer_type = Some("image".to_string());
    quiz.questions[0].answers[1].is_correct = Some(false);
    quiz.questions.push(Quizzle2Question {
        title: "empty".to_string(),
        question_type: "multiple-choice".to_string(),
        answers: vec![],
        b64_image: None,
    });
    let stream = encode_quizzle2(&quiz).unwrap();
    assert_eq!(decode_quizzle_file(&stream), Ok(QuizFormat::Quizzle2(quiz)));
}

#[test]
fn extension_names_the_container() {
    assert_eq!(container_kind_for_extension("quizlet"), Some(ContainerKind::Base64));
    assert_eq!(container_kind_for_extension("quizzle"), Some(ContainerKind::Zlib));
    assert_eq!(container_kind_for_extension("QUIZZLE"), None);
    assert_eq!(container_kind_for_extension("json"), None);
    assert_eq!(container_kind_for_extension(""), None);
    assert_eq!(container_kind_for_extension("quizzle.bak"), None);
}

#[test]
fn file_is_decoded_by_the_container_of_its_extension() {
    let text = r#"{ "title": "T", "questions": [] }"#;
    let quizlet = base64_of(text.as_bytes());
    let quizzle = zlib_of(text.as_bytes());
    let first = decode_quiz_file(&quizlet, "quizlet").unwrap();
    let second = decode_quiz_file(&quizzle, "quizzle").unwrap();
    assert_eq!(first, second);
    assert!(matches!(first, QuizFormat::Quizzle1(_)));
    assert_eq!(decode_quizlet_file(&quizlet), Ok(first.clone()));
    assert_eq!(decode_quiz(&quizzle, ContainerKind::Zlib), Ok(first));
}

#[test]
fn file_with_another_extension_is_not_looked_at() {
    let quizzle = zlib_of(br#"{ "title": "T", "questions": [] }"#);
    assert_eq!(decode_quiz_file(&quizzle, "txt"), Err(MigrationError::UnsupportedExtension));
    assert_eq!(decode_quiz_file(&quizzle, ""), Err(MigrationError::UnsupportedExtension));
}

#[test]
fn each_stage_fails_with_its_own_error() {
    assert_eq!(
        decode_quiz_file(b"%%%", "quizlet"),
        Err(MigrationError::Decode(DecodeError::InvalidBase64))
    );
    assert_eq!(
        decode_quiz_file(b"%%%", "quizzle"),
        Err(MigrationError::Decode(DecodeError::InvalidCompression))
    );
    assert_eq!(
        decode_quiz_file(&[0xff], "quizlet"),
        Err(MigrationError::Decode(DecodeError::InvalidUtf8))
    );
    assert_eq!(
        decode_quiz_file(&base64_of(b"{}"), "quizlet"),
        Err(MigrationError::Parse(ParseError::UnknownFormat { length: 2 }))
    );
    assert_eq!(
        decode_quiz_file(&zlib_of(b"not json"), "quizzle"),
        Err(MigrationError::Parse(ParseError::UnknownFormat { length: 8 }))
    );
}
