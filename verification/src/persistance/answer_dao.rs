//! Answer persistence: the capability interface and the storage-level
//! decision rules for answer operations, including the one place where a
//! backend referential-integrity signal is classified.
use vstd::prelude::*;
use crate::identifier::is_uuid;
use crate::identifier::uuid_syntax_ok;
use crate::models::Answer;
use crate::models::AnswerDetail;
use crate::models::DBError;
use vstd::string::StringExecFns;

verus! {

/// Capability interface for storing and retrieving answers. The handler
/// layer sees only this interface; a backing store or a test double stands
/// behind it.
pub trait AnswerDao {
    /// Inserts an answer; fails with `DBError::InvalidUUID` if the
    /// referenced question identifier is malformed or names no existing
    /// question.
    fn create_answer(&self, answer: Answer) -> Result<AnswerDetail, DBError>;

    /// Returns all answers of one question; an empty result is not an
    /// error, and the order is unspecified.
    fn get_answers(&self, question_uuid: String) -> Result<Vec<AnswerDetail>, DBError>;

    /// Deletes the answer the identifier names; fails with
    /// `DBError::InvalidUUID` if the identifier is malformed.
    fn delete_answer(&self, answer_uuid: String) -> Result<(), DBError>;
}

/// The message reported when a caller-supplied answer identifier fails the
/// identifier syntax.
pub open spec fn answer_uuid_parse_error(u: Seq<char>) -> Seq<char> {
    "Could not parse answer UUID: "@ + u
}

/// The message reported when a well-formed question identifier names no
/// existing question.
pub open spec fn invalid_question_reference_error(u: Seq<char>) -> Seq<char> {
    "Invalid question UUID: "@ + u
}

/// Whether a structured backend error code signals a referential-integrity
/// violation: the foreign-key violation code of the backing store.
pub open spec fn signals_foreign_key_violation(code: Option<Seq<char>>) -> bool {
    match code {
        Some(c) => c == "23503"@,
        None => false,
    }
}

/// Storage-level syntax gate for a caller-supplied answer identifier:
/// rejects exactly the strings that fail identifier syntax, as
/// `DBError::InvalidUUID` with a message built from the caller's own input.
pub fn validate_answer_uuid(answer_uuid: &str) -> (r: Result<(), DBError>)
    ensures
        r is Ok <==> is_uuid(answer_uuid@),
        r matches Err(e) ==> (e matches DBError::InvalidUUID(m) && m@ == answer_uuid_parse_error(
            answer_uuid@,
        )),
{
    if uuid_syntax_ok(answer_uuid) {
        Ok(())
    } else {
        let mut message = "Could not parse answer UUID: ".to_owned();
        message.append(answer_uuid);
        Err(DBError::InvalidUUID(message))
    }
}

/// Classifies a failed answer insert, exactly once and from the backend's
/// structured error signal alone: a foreign-key-violation code means the
/// referenced question does not exist, which is the caller's error; any
/// other failure is the backend's.
pub fn classify_answer_insert_error(
    code: Option<String>,
    detail: String,
    question_uuid: &str,
) -> (e: DBError)
    ensures
        signals_foreign_key_violation(code.deep_view()) ==> (e matches DBError::InvalidUUID(m)
            && m@ == invalid_question_reference_error(question_uuid@)),
        !signals_foreign_key_violation(code.deep_view()) ==> (e matches DBError::Other(m)
            && m@ == detail@),
{
    let fk_violation: String = "23503".to_owned();
    match &code {
        Some(c) => {
            if c.eq(&fk_violation) {
                let mut message = "Invalid question UUID: ".to_owned();
                message.append(question_uuid);
                DBError::InvalidUUID(message)
            } else {
                DBError::Other(detail)
            }
        },
        None => DBError::Other(detail),
    }
}

} // verus!
