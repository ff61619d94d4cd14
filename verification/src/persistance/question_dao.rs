//! Question persistence: the capability interface and the storage-level
//! decision rules for question operations.
use vstd::prelude::*;
use crate::identifier::is_uuid;
use crate::identifier::uuid_syntax_ok;
use crate::models::DBError;
use crate::models::Question;
use crate::models::QuestionDetail;
use vstd::string::StringExecFns;

verus! {

/// Capability interface for storing and retrieving questions. The handler
/// layer sees only this interface; a backing store or a test double stands
/// behind it.
pub trait QuestionDao {
    /// Inserts a question; the store assigns identifier and timestamp.
    fn create_question(&self, question: Question) -> Result<QuestionDetail, DBError>;

    /// Returns all question records; the order is unspecified and callers
    /// must treat the result as a set.
    fn get_questions(&self) -> Result<Vec<QuestionDetail>, DBError>;

    /// Deletes the question the identifier names; fails with
    /// `DBError::InvalidUUID` if the identifier is malformed.
    fn delete_question(&self, question_uuid: String) -> Result<(), DBError>;
}

/// The message reported when a caller-supplied question identifier fails
/// the identifier syntax.
pub open spec fn question_uuid_parse_error(u: Seq<char>) -> Seq<char> {
    "Could not parse question UUID: "@ + u
}

/// Storage-level syntax gate for a caller-supplied question identifier:
/// rejects exactly the strings that fail identifier syntax, as
/// `DBError::InvalidUUID` with a message built from the caller's own input.
pub fn validate_question_uuid(question_uuid: &str) -> (r: Result<(), DBError>)
    ensures
        r is Ok <==> is_uuid(question_uuid@),
        r matches Err(e) ==> (e matches DBError::InvalidUUID(m) && m@ == question_uuid_parse_error(
            question_uuid@,
        )),
{
    if uuid_syntax_ok(question_uuid) {
        Ok(())
    } else {
        let mut message = "Could not parse question UUID: ".to_owned();
        message.append(question_uuid);
        Err(DBError::InvalidUUID(message))
    }
}

} // verus!
