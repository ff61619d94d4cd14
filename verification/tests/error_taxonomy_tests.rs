//! Tests of the error taxonomy, the translation policy, the identifier
//! syntax gate, and the record-lifecycle scenarios.
use qa_service::handlers::handlers_inner::translate_identifier_op_error;
use qa_service::handlers::handlers_inner::HandlerError;
use qa_service::handlers::APIError;
use qa_service::models::Answer;
use qa_service::models::DBError;
use qa_service::models::Question;
use qa_service::persistance::answer_dao::classify_answer_insert_error;
use qa_service::persistance::answer_dao::validate_answer_uuid;
use qa_service::persistance::memory::InMemoryStore;
use qa_service::persistance::question_dao::validate_question_uuid;

const FIXED_INTERNAL_MESSAGE: &str = "Something went wrong! Please try again.";

#[test]
fn default_internal_error_carries_fixed_message() {
    match HandlerError::default_internal_error() {
        HandlerError::InternalError(m) => assert_eq!(m, FIXED_INTERNAL_MESSAGE),
        other => panic!("expected InternalError, got {other:?}"),
    }
}

#[test]
fn invalid_uuid_translates_to_bad_request_with_same_message() {
    let result = translate_identifier_op_error(DBError::InvalidUUID("bad id".to_string()));
    assert_eq!(result, HandlerError::BadRequest("bad id".to_string()));
}

#[test]
fn other_error_translates_to_fixed_internal_error() {
    let result = translate_identifier_op_error(DBError::Other(
        "connection reset by peer".to_string(),
    ));
    assert_eq!(
        result,
        HandlerError::InternalError(FIXED_INTERNAL_MESSAGE.to_string())
    );
}

#[test]
fn api_error_from_handler_error_keeps_variant_and_message() {
    let bad = APIError::from(HandlerError::BadRequest("why".to_string()));
    assert_eq!(bad, APIError::BadRequest("why".to_string()));

    let internal = APIError::from(HandlerError::InternalError("oops".to_string()));
    assert_eq!(internal, APIError::InternalError("oops".to_string()));
}

#[test]
fn validate_question_uuid_accepts_all_uuid_forms() {
    let valid = [
        "550e8400-e29b-41d4-a716-446655440000",
        "550E8400-E29B-41D4-A716-446655440000",
        "550e8400e29b41d4a716446655440000",
        "{550e8400-e29b-41d4-a716-446655440000}",
        "urn:uuid:550e8400-e29b-41d4-a716-446655440000",
        "URN:UUID:550e8400-e29b-41d4-a716-446655440000",
    ];
    for u in valid {
        assert!(validate_question_uuid(u).is_ok(), "rejected {u}");
    }
}

#[test]
fn validate_question_uuid_rejects_malformed_strings() {
    let invalid = [
        "",
        "malformed",
        "550e8400-e29b-41d4-a716-44665544000",
        "550e8400-e29b-41d4-a716-4466554400000",
        "550e8400-e29b-41d4-a716_446655440000",
        "550e8400-e29b-41d4-a716-44665544000g",
        "{550e8400-e29b-41d4-a716-446655440000",
        "urn:uuid:550e8400e29b41d4a716446655440000",
    ];
    for u in invalid {
        let result = validate_question_uuid(u);
        match result {
            Err(DBError::InvalidUUID(m)) => {
                assert_eq!(m, format!("Could not parse question UUID: {u}"));
            }
            other => panic!("expected InvalidUUID for {u}, got {other:?}"),
        }
    }
}

#[test]
fn validate_answer_uuid_reports_answer_message() {
    match validate_answer_uuid("malformed") {
        Err(DBError::InvalidUUID(m)) => {
            assert_eq!(m, "Could not parse answer UUID: malformed");
        }
        other => panic!("expected InvalidUUID, got {other:?}"),
    }
}

#[test]
fn classify_answer_insert_error_reclassifies_foreign_key_violation() {
    let e = classify_answer_insert_error(
        Some("23503".to_string()),
        "insert or update violates foreign key constraint".to_string(),
        "550e8400-e29b-41d4-a716-446655440000",
    );
    match e {
        DBError::InvalidUUID(m) => assert_eq!(
            m,
            "Invalid question UUID: 550e8400-e29b-41d4-a716-446655440000"
        ),
        other => panic!("expected InvalidUUID, got {other:?}"),
    }
}

#[test]
fn classify_answer_insert_error_keeps_other_codes_as_other() {
    let e = classify_answer_insert_error(
        Some("23505".to_string()),
        "duplicate key value".to_string(),
        "550e8400-e29b-41d4-a716-446655440000",
    );
    match e {
        DBError::Other(m) => assert_eq!(m, "duplicate key value"),
        other => panic!("expected Other, got {other:?}"),
    }
}

#[test]
fn classify_answer_insert_error_without_code_is_other() {
    let e = classify_answer_insert_error(
        None,
        "connection closed".to_string(),
        "550e8400-e29b-41d4-a716-446655440000",
    );
    match e {
        DBError::Other(m) => assert_eq!(m, "connection closed"),
        other => panic!("expected Other, got {other:?}"),
    }
}

#[test]
fn created_question_is_listed_with_fresh_identifier() {
    let mut store = InMemoryStore::new();
    store
        .create_question(Question {
            title: "t".to_string(),
            description: "d".to_string(),
        })
        .unwrap();

    let listed = store.get_questions().unwrap();
    assert_eq!(listed.len(), 1);
    assert_eq!(listed[0].title, "t");
    assert_eq!(listed[0].description, "d");
    assert!(!listed[0].question_uuid.is_empty());
}

#[test]
fn created_answer_is_listed_under_its_question() {
    let mut store = InMemoryStore::new();
    let question = store
        .create_question(Question {
            title: "t".to_string(),
            description: "d".to_string(),
        })
        .unwrap();

    let answer = store
        .create_answer(Answer {
            question_uuid: question.question_uuid.clone(),
            content: "c".to_string(),
        })
        .unwrap();

    let listed = store.get_answers(question.question_uuid).unwrap();
    assert_eq!(listed.len(), 1);
    assert_eq!(listed[0].answer_uuid, answer.answer_uuid);
    assert_eq!(listed[0].content, "c");
}

#[test]
fn deleted_question_no_longer_listed() {
    let mut store = InMemoryStore::new();
    let question = store
        .create_question(Question {
            title: "t".to_string(),
            description: "d".to_string(),
        })
        .unwrap();
    let uuid = question.question_uuid.clone();

    store.delete_question(uuid.clone()).unwrap();

    let listed = store.get_questions().unwrap();
    assert!(listed.iter().all(|q| q.question_uuid != uuid));
}

#[test]
fn store_assigned_identifier_passes_the_identifier_gate() {
    let mut store = InMemoryStore::new();
    let question = store
        .create_question(Question {
            title: "t".to_string(),
            description: "d".to_string(),
        })
        .unwrap();
    assert!(validate_question_uuid(&question.question_uuid).is_ok());
}

#[test]
fn distinct_creations_get_distinct_identifiers() {
    let mut store = InMemoryStore::new();
    let first = store
        .create_question(Question {
            title: "a".to_string(),
            description: "a".to_string(),
        })
        .unwrap();
    let second = store
        .create_question(Question {
            title: "b".to_string(),
            description: "b".to_string(),
        })
        .unwrap();
    assert_ne!(first.question_uuid, second.question_uuid);
}
