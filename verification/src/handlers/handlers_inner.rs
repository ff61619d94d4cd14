//! Handler layer: one function per operation, mediating between a transport
//! layer and a persistence capability, and owning the translation policy
//! from storage-level to service-level errors.
use vstd::prelude::*;
use crate::models::Answer;
use crate::models::AnswerDetail;
use crate::models::AnswerId;
use crate::models::DBError;
use crate::models::Question;
use crate::models::QuestionDetail;
use crate::models::QuestionId;
use crate::identifier::is_uuid;
use crate::persistance::answer_dao::answer_uuid_parse_error;
use crate::persistance::answer_dao::AnswerDao;
use crate::persistance::question_dao::question_uuid_parse_error;
use crate::persistance::question_dao::QuestionDao;

verus! {

/// Service-level failure: exactly two variants, one per class of outcome a
/// transport can report to the caller.
#[derive(Debug, PartialEq)]
pub enum HandlerError {
    /// The caller's own input was bad; the message is built only from that
    /// input and is safe to return verbatim.
    BadRequest(String),
    /// The backend failed; the message is always the one fixed string and
    /// never carries the underlying detail.
    InternalError(String),
}

/// The one fixed message of `HandlerError::InternalError`: the real cause
/// is never part of the returned value.
pub open spec fn default_internal_error_message() -> Seq<char> {
    "Something went wrong! Please try again."@
}

impl HandlerError {
    /// The fixed internal-error value used for every backend failure.
    pub fn default_internal_error() -> (r: Self)
        ensures
            r matches HandlerError::InternalError(m) && m@ == default_internal_error_message(),
    {
        HandlerError::InternalError("Something went wrong! Please try again.".to_owned())
    }
}

/// The translation policy for an operation that took a caller-supplied
/// identifier: an identifier failure surfaces verbatim as a bad request,
/// and any other storage failure is reported as the fixed internal error.
pub open spec fn translates_identifier_op_error(e: DBError, h: HandlerError) -> bool {
    match e {
        DBError::InvalidUUID(m) => h matches HandlerError::BadRequest(b) && b@ == m@,
        DBError::Other(_) => h matches HandlerError::InternalError(i) && i@
            == default_internal_error_message(),
    }
}

/// Translates a storage failure of an operation that took a
/// caller-supplied identifier. The tag alone decides; the backend payload
/// of `DBError::Other` is never consulted and never returned.
pub fn translate_identifier_op_error(e: DBError) -> (h: HandlerError)
    ensures
        translates_identifier_op_error(e, h),
{
    match e {
        DBError::InvalidUUID(message) => HandlerError::BadRequest(message),
        DBError::Other(_) => HandlerError::default_internal_error(),
    }
}

/// Law: a malformed identifier is always the caller's error. When the
/// storage layer's identifier gate rejects a malformed identifier — as its
/// contracts say it must, with `InvalidUUID` and a message built from the
/// caller's own input — the handler translation turns that rejection into
/// `BadRequest` carrying the same message.
pub proof fn lemma_malformed_identifier_becomes_bad_request(
    s: Seq<char>,
    e: DBError,
    h: HandlerError,
)
    requires
        !is_uuid(s),
        e matches DBError::InvalidUUID(m) && (m@ == question_uuid_parse_error(s) || m@
            == answer_uuid_parse_error(s)),
        translates_identifier_op_error(e, h),
    ensures
        h matches HandlerError::BadRequest(b) && (b@ == question_uuid_parse_error(s) || b@
            == answer_uuid_parse_error(s)),
{
}

/// Law: a backend failure is never surfaced. The translation of any
/// `DBError::Other`, whatever payload it carries, is `InternalError` with
/// the one fixed message; the underlying detail is not part of the result.
pub proof fn lemma_backend_failure_hidden(e: DBError, h: HandlerError)
    requires
        e matches DBError::Other(_),
        translates_identifier_op_error(e, h),
    ensures
        h matches HandlerError::InternalError(m) && m@ == default_internal_error_message(),
{
}

/// Creates a question through the given persistence capability. The
/// operation takes no caller-supplied identifier, so no failure can be the
/// caller's: every storage failure — whatever its tag — is reported as the
/// fixed internal error.
pub fn create_question<D: QuestionDao>(question: Question, question_dao: &D) -> (r: Result<
    QuestionDetail,
    HandlerError,
>)
    ensures
        r matches Err(h) ==> (h matches HandlerError::InternalError(m) && m@
            == default_internal_error_message()),
{
    match question_dao.create_question(question) {
        Ok(question) => Ok(question),
        Err(_) => Err(HandlerError::default_internal_error()),
    }
}

/// Lists all questions through the given persistence capability. No
/// caller-supplied identifier is involved, so every storage failure is
/// reported as the fixed internal error.
pub fn get_questions<D: QuestionDao>(question_dao: &D) -> (r: Result<
    Vec<QuestionDetail>,
    HandlerError,
>)
    ensures
        r matches Err(h) ==> (h matches HandlerError::InternalError(m) && m@
            == default_internal_error_message()),
{
    match question_dao.get_questions() {
        Ok(questions) => Ok(questions),
        Err(_) => Err(HandlerError::default_internal_error()),
    }
}

/// Deletes a question through the given persistence capability,
/// translating an identifier failure to a bad request and any other
/// storage failure to the fixed internal error.
pub fn delete_question<D: QuestionDao>(question_id: QuestionId, question_dao: &D) -> (r: Result<
    (),
    HandlerError,
>)
    ensures
        r matches Err(h) ==> (h matches HandlerError::BadRequest(_) || (
        h matches HandlerError::InternalError(m) && m@ == default_internal_error_message())),
{
    match question_dao.delete_question(question_id.question_uuid) {
        Ok(()) => Ok(()),
        Err(e) => Err(translate_identifier_op_error(e)),
    }
}

/// Creates an answer through the given persistence capability, translating
/// an identifier failure — malformed or unresolvable question reference —
/// to a bad request and any other storage failure to the fixed internal
/// error.
pub fn create_answer<D: AnswerDao>(answer: Answer, answer_dao: &D) -> (r: Result<
    AnswerDetail,
    HandlerError,
>)
    ensures
        r matches Err(h) ==> (h matches HandlerError::BadRequest(_) || (
        h matches HandlerError::InternalError(m) && m@ == default_internal_error_message())),
{
    match answer_dao.create_answer(answer) {
        Ok(answer) => Ok(answer),
        Err(e) => Err(translate_identifier_op_error(e)),
    }
}

/// Lists the answers of one question through the given persistence
/// capability, translating an identifier failure to a bad request and any
/// other storage failure to the fixed internal error.
pub fn get_answers<D: AnswerDao>(question_id: QuestionId, answer_dao: &D) -> (r: Result<
    Vec<AnswerDetail>,
    HandlerError,
>)
    ensures
        r matches Err(h) ==> (h matches HandlerError::BadRequest(_) || (
        h matches HandlerError::InternalError(m) && m@ == default_internal_error_message())),
{
    match answer_dao.get_answers(question_id.question_uuid) {
        Ok(answers) => Ok(answers),
        Err(e) => Err(translate_identifier_op_error(e)),
    }
}

/// Deletes an answer through the given persistence capability, translating
/// an identifier failure to a bad request and any other storage failure to
/// the fixed internal error.
pub fn delete_answer<D: AnswerDao>(answer_id: AnswerId, answer_dao: &D) -> (r: Result<
    (),
    HandlerError,
>)
    ensures
        r matches Err(h) ==> (h matches HandlerError::BadRequest(_) || (
        h matches HandlerError::InternalError(m) && m@ == default_internal_error_message())),
{
    match answer_dao.delete_answer(answer_id.answer_uuid) {
        Ok(()) => Ok(()),
        Err(e) => Err(translate_identifier_op_error(e)),
    }
}

} // verus!
