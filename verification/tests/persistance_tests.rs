//! Storage-level tests, run against the in-memory store.
use qa_service::models::Answer;
use qa_service::models::DBError;
use qa_service::models::Question;
use qa_service::persistance::memory::InMemoryStore;

#[test]
fn create_question_should_succeed() {
    let mut store = InMemoryStore::new();

    let result = store
        .create_question(Question {
            title: "test title".to_string(),
            description: "test description".to_string(),
        })
        .map_err(|e| format!("{e:?}"))
        .unwrap();

    if result.title != "test title".to_string()
        || result.description != "test description".to_string()
    {
        panic!("Incorrect title or description");
    }
}

#[test]
fn get_questions_should_succeed() {
    let mut store = InMemoryStore::new();
    let result = store
        .create_question(Question {
            title: "test title".to_string(),
            description: "test description".to_string(),
        })
        .map_err(|e| format!("{e:?}"))
        .unwrap();

    let results = store.get_questions().map_err(|e| format!("{e:?}")).unwrap();

    if results.len() != 1 {
        panic!("incorrect number of results returned.");
    }
    if results.get(0).unwrap().question_uuid != result.question_uuid {
        panic!("Incorrect question returned.");
    }
}

#[test]
fn delete_qeustion_should_fail_with_malformed_uuid() {
    let mut store = InMemoryStore::new();
    let result = store.delete_question("malformed".to_string());

    if result.is_ok() {
        panic!(
            "Expected an error but got the following result: {:?}",
            result.unwrap()
        );
    }

    if let Err(DBError::InvalidUUID(_)) = result {
    } else {
        panic!(
            "Expected an invalid UUID error but got the following error: {:?}",
            result.err()
        );
    }
}

#[test]
fn tests_delete_question_should_succeed() {
    let mut store = InMemoryStore::new();
    let result = store
        .create_question(Question {
            title: "test title".to_string(),
            description: "test description".to_string(),
        })
        .map_err(|e| format!("{e:?}"))
        .unwrap();

    store
        .delete_question(result.question_uuid)
        .map_err(|e| format!("{e:?}"))
        .unwrap();

    let results = store.get_questions().map_err(|e| format!("{e:?}")).unwrap();

    if results.len() != 0 {
        panic!("Qeustion was not deleted");
    }
}

#[test]
fn create_answer_should_fail_with_malformed_uuid() {
    let mut store = InMemoryStore::new();
    let result = store.create_answer(Answer {
        question_uuid: "malformed".to_string(),
        content: "test content".to_string(),
    });

    if result.is_ok() {
        panic!(
            "Expected an error got the following result: {:?}",
            result.unwrap()
        );
    }

    if let Err(DBError::InvalidUUID(_)) = result {
    } else {
        panic!(
            "Expected an invalid UUID error but got the following error: {:?}",
            result.err()
        );
    }
}

#[test]
fn create_answer_should_fail_with_non_existent_uuid() {
    let mut store = InMemoryStore::new();
    let result = store.create_answer(Answer {
        question_uuid: "aaaaaaaa-aaaa-aaaa-aaaa-aaaaaaaaaaaa".to_string(),
        content: "test content".to_string(),
    });

    if result.is_ok() {
        panic!(
            "Expected an error but got the following result: {:?}",
            result.unwrap()
        );
    }

    if let Err(DBError::InvalidUUID(_)) = result {
    } else {
        panic!(
            "Expected an invalid UUID error but got the following error: {:?}",
            result.err()
        );
    }
}

#[test]
fn create_answer_should_succeed() {
    let mut store = InMemoryStore::new();

    let question = store
        .create_question(Question {
            title: "test title".to_string(),
            description: "test description".to_string(),
        })
        .map_err(|e| format!("{e:?}"))
        .unwrap();

    let result = store
        .create_answer(Answer {
            question_uuid: question.question_uuid,
            content: "test content".to_string(),
        })
        .map_err(|e| format!("{e:?}"))
        .unwrap();

    if result.content != "test content".to_string() {
        panic!("Incorrect answer content");
    }
}

#[test]
fn get_answers_should_fail_with_malformd_uuid() {
    let store = InMemoryStore::new();
    let result = store.get_answers("marformed".to_string());

    if result.is_ok() {
        panic!(
            "Expected an error but got the following result: {:?}",
            result.unwrap()
        );
    }

    if let Err(DBError::InvalidUUID(_)) = result {
    } else {
        panic!(
            "Expected an invalid UUID error but got the following error: {:?}",
            result.err()
        );
    }
}

#[test]
fn get_answers_should_succeed() {
    let mut store = InMemoryStore::new();

    let question_detail = store
        .create_question(Question {
            title: "test title".to_string(),
            description: "test description".to_string(),
        })
        .map_err(|e| format!("{e:?}"))
        .unwrap();

    let answer_detail = store
        .create_answer(Answer {
            question_uuid: question_detail.question_uuid.clone(),
            content: "test content".to_string(),
        })
        .map_err(|e| format!("{e:?}"))
        .unwrap();

    let answers = store
        .get_answers(question_detail.question_uuid)
        .map_err(|e| format!("{e:?}"))
        .unwrap();

    if answers.len() != 1 {
        panic!("Incorrect number of results returned.");
    }
    if answers.get(0).unwrap().answer_uuid != answer_detail.answer_uuid {
        panic!("Incorrect answer returned.");
    }
}

#[test]
fn delete_answer_should_fail_with_malformed_uuid() {
    let mut store = InMemoryStore::new();
    let result = store.delete_answer("malformed".to_string());

    if result.is_ok() {
        panic!(
            "Expected an error but got the following result: {:?}",
            result.unwrap()
        );
    }

    if let Err(DBError::InvalidUUID(_)) = result {
    } else {
        panic!(
            "Expected an invalid UUID error but got the following error: {:?}",
            result.err()
        );
    }
}

#[test]
fn delete_answer_should_remove_answer() {
    let mut store = InMemoryStore::new();

    let question_detail = store
        .create_question(Question {
            title: "test title".to_string(),
            description: "test description".to_string(),
        })
        .unwrap();

    let answer_detail = store
        .create_answer(Answer {
            question_uuid: question_detail.question_uuid.clone(),
            content: "test content".to_string(),
        })
        .unwrap();

    store.delete_answer(answer_detail.answer_uuid).unwrap();

    let answers = store.get_answers(question_detail.question_uuid).unwrap();
    assert_eq!(answers.len(), 0);
}

#[test]
fn delete_question_cascades_to_answers() {
    let mut store = InMemoryStore::new();

    let question_detail = store
        .create_question(Question {
            title: "test title".to_string(),
            description: "test description".to_string(),
        })
        .unwrap();

    store
        .create_answer(Answer {
            question_uuid: question_detail.question_uuid.clone(),
            content: "test content".to_string(),
        })
        .unwrap();

    store
        .delete_question(question_detail.question_uuid.clone())
        .unwrap();

    let answers = store.get_answers(question_detail.question_uuid).unwrap();
    assert_eq!(answers.len(), 0);
}
