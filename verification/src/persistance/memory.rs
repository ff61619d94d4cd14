//! An in-memory store: a complete, substitutable backing for the two
//! persistence capabilities, with the store-side rules proved rather than
//! trusted — identifier assignment, identifier validation, referential
//! integrity of answers, and cascading question deletion.
use vstd::prelude::*;
use crate::identifier::is_hex_digit;
use crate::identifier::is_hyphenated_uuid;
use crate::identifier::is_uuid;
use crate::models::answer_detail_views;
use crate::models::Answer;
use crate::models::question_detail_views;
use crate::models::AnswerDetail;
use crate::models::AnswerDetailView;
use crate::models::DBError;
use crate::models::Question;
use crate::models::QuestionDetail;
use crate::models::QuestionDetailView;
use crate::persistance::answer_dao::answer_uuid_parse_error;
use crate::persistance::answer_dao::invalid_question_reference_error;
use crate::persistance::answer_dao::validate_answer_uuid;
use crate::persistance::question_dao::question_uuid_parse_error;
use crate::persistance::question_dao::validate_question_uuid;
use vstd::string::StringExecFns;

verus! {

/// The hexadecimal digit character of a value below sixteen.
pub open spec fn hex_digit_char(d: nat) -> char {
    if d == 0 {
        '0'
    } else if d == 1 {
        '1'
    } else if d == 2 {
        '2'
    } else if d == 3 {
        '3'
    } else if d == 4 {
        '4'
    } else if d == 5 {
        '5'
    } else if d == 6 {
        '6'
    } else if d == 7 {
        '7'
    } else if d == 8 {
        '8'
    } else if d == 9 {
        '9'
    } else if d == 10 {
        'a'
    } else if d == 11 {
        'b'
    } else if d == 12 {
        'c'
    } else if d == 13 {
        'd'
    } else if d == 14 {
        'e'
    } else {
        'f'
    }
}

/// The low `len` hexadecimal digits of `n`, most significant first.
pub open spec fn hex_chars(n: nat, len: nat) -> Seq<char>
    decreases len,
{
    if len == 0 {
        Seq::empty()
    } else {
        hex_chars(n / 16, (len - 1) as nat).push(hex_digit_char(n % 16))
    }
}

/// The identifier the store assigns at its `n`-th creation: a hyphenated
/// UUID whose last group carries the creation counter.
pub open spec fn assigned_uuid(n: nat) -> Seq<char> {
    "00000000-0000-4000-8000-"@ + hex_chars(n, 12)
}

/// The creation timestamp the store assigns at its `n`-th creation: a
/// logical tick derived from the creation counter.
pub open spec fn assigned_tick(n: nat) -> Seq<char> {
    hex_chars(n, 12)
}

/// Sixteen to the power `len`: the number of identifiers `len` hexadecimal
/// digits can carry.
pub open spec fn pow16(len: nat) -> nat
    decreases len,
{
    if len == 0 {
        1
    } else {
        16 * pow16((len - 1) as nat)
    }
}

proof fn lemma_hex_digit_char_injective(d1: nat, d2: nat)
    requires
        d1 < 16,
        d2 < 16,
        hex_digit_char(d1) == hex_digit_char(d2),
    ensures
        d1 == d2,
{
}

proof fn lemma_hex_chars_injective(n1: nat, n2: nat, len: nat)
    requires
        n1 < pow16(len),
        n2 < pow16(len),
        hex_chars(n1, len) == hex_chars(n2, len),
    ensures
        n1 == n2,
    decreases len,
{
    if len == 0 {
    } else {
        let prev: nat = (len - 1) as nat;
        let h1 = hex_chars(n1, len);
        let h2 = hex_chars(n2, len);
        let p1 = hex_chars(n1 / 16, prev);
        let p2 = hex_chars(n2 / 16, prev);
        lemma_hex_chars_are_hex_digits(n1 / 16, prev);
        lemma_hex_chars_are_hex_digits(n2 / 16, prev);
        assert(h1[len - 1] == hex_digit_char(n1 % 16));
        assert(h2[len - 1] == hex_digit_char(n2 % 16));
        lemma_hex_digit_char_injective(n1 % 16, n2 % 16);
        assert forall|i: int| 0 <= i < prev implies p1[i] == p2[i] by {
            assert(p1[i] == h1[i]);
            assert(p2[i] == h2[i]);
        }
        assert(p1 =~= p2);
        assert(n1 / 16 < pow16(prev)) by {
            assert(n1 < 16 * pow16(prev));
        }
        assert(n2 / 16 < pow16(prev)) by {
            assert(n2 < 16 * pow16(prev));
        }
        lemma_hex_chars_injective(n1 / 16, n2 / 16, prev);
        assert(n1 == 16 * (n1 / 16) + n1 % 16);
        assert(n2 == 16 * (n2 / 16) + n2 % 16);
    }
}

proof fn lemma_hex_chars_are_hex_digits(n: nat, len: nat)
    ensures
        hex_chars(n, len).len() == len,
        forall|i: int| 0 <= i < len ==> is_hex_digit(#[trigger] hex_chars(n, len)[i]),
    decreases len,
{
    if len > 0 {
        lemma_hex_chars_are_hex_digits(n / 16, (len - 1) as nat);
    }
}

/// Every identifier the store assigns is non-empty and itself a
/// well-formed identifier, so a record's identifier can always be handed
/// back to the store.
pub proof fn lemma_assigned_uuid_well_formed(n: nat)
    ensures
        is_uuid(assigned_uuid(n)),
        assigned_uuid(n).len() == 36,
{
    reveal_strlit("00000000-0000-4000-8000-");
    lemma_hex_chars_are_hex_digits(n, 12);
    let p = "00000000-0000-4000-8000-"@;
    let s = assigned_uuid(n);
    assert(p.len() == 24);
    assert(s.len() == 36);
    assert forall|i: int|
        0 <= i < 36 && i != 8 && i != 13 && i != 18 && i != 23 implies is_hex_digit(s[i]) by {
        if i < 24 {
            assert(s[i] == p[i]);
        } else {
            assert(s[i] == hex_chars(n, 12)[i - 24]);
        }
    }
    assert(is_hyphenated_uuid(s));
}

/// Law: distinct creations are assigned distinct identifiers, for every
/// pair of creation counters that twelve hexadecimal digits can tell
/// apart.
pub proof fn lemma_assigned_uuid_injective(n1: nat, n2: nat)
    requires
        n1 < pow16(12),
        n2 < pow16(12),
        n1 != n2,
    ensures
        assigned_uuid(n1) != assigned_uuid(n2),
{
    reveal_strlit("00000000-0000-4000-8000-");
    lemma_hex_chars_are_hex_digits(n1, 12);
    lemma_hex_chars_are_hex_digits(n2, 12);
    if assigned_uuid(n1) == assigned_uuid(n2) {
        let h1 = hex_chars(n1, 12);
        let h2 = hex_chars(n2, 12);
        assert forall|i: int| 0 <= i < 12 implies h1[i] == h2[i] by {
            assert(h1[i] == assigned_uuid(n1)[24 + i]);
            assert(h2[i] == assigned_uuid(n2)[24 + i]);
        }
        assert(h1 =~= h2);
        lemma_hex_chars_injective(n1, n2, 12);
    }
}

fn hex_digit_str(d: u64) -> (r: &'static str)
    requires
        d < 16,
    ensures
        r@ == seq![hex_digit_char(d as nat)],
{
    proof {
        reveal_strlit("0");
        reveal_strlit("1");
        reveal_strlit("2");
        reveal_strlit("3");
        reveal_strlit("4");
        reveal_strlit("5");
        reveal_strlit("6");
        reveal_strlit("7");
        reveal_strlit("8");
        reveal_strlit("9");
        reveal_strlit("a");
        reveal_strlit("b");
        reveal_strlit("c");
        reveal_strlit("d");
        reveal_strlit("e");
        reveal_strlit("f");
    }
    let r: &'static str = if d == 0 {
        "0"
    } else if d == 1 {
        "1"
    } else if d == 2 {
        "2"
    } else if d == 3 {
        "3"
    } else if d == 4 {
        "4"
    } else if d == 5 {
        "5"
    } else if d == 6 {
        "6"
    } else if d == 7 {
        "7"
    } else if d == 8 {
        "8"
    } else if d == 9 {
        "9"
    } else if d == 10 {
        "a"
    } else if d == 11 {
        "b"
    } else if d == 12 {
        "c"
    } else if d == 13 {
        "d"
    } else if d == 14 {
        "e"
    } else {
        "f"
    };
    proof {
        assert(r@ =~= seq![hex_digit_char(d as nat)]);
    }
    r
}

fn hex_string(n: u64, len: usize) -> (s: String)
    ensures
        s@ == hex_chars(n as nat, len as nat),
    decreases len,
{
    if len == 0 {
        String::new()
    } else {
        let mut s = hex_string(n / 16, len - 1);
        s.append(hex_digit_str(n % 16));
        proof {
            assert(s@ =~= hex_chars(n as nat, len as nat));
        }
        s
    }
}

fn make_uuid(n: u64) -> (s: String)
    ensures
        s@ == assigned_uuid(n as nat),
{
    let mut s = "00000000-0000-4000-8000-".to_owned();
    let digits = hex_string(n, 12);
    s.append(digits.as_str());
    s
}

/// The question records that do not carry the identifier `u`.
pub open spec fn questions_not_named(qs: Seq<QuestionDetailView>, u: Seq<char>) -> Seq<
    QuestionDetailView,
> {
    qs.filter(|q: QuestionDetailView| q.question_uuid != u)
}

/// The answer records that do not reference the question identifier `u`.
pub open spec fn answers_not_for_question(ans: Seq<AnswerDetailView>, u: Seq<char>) -> Seq<
    AnswerDetailView,
> {
    ans.filter(|a: AnswerDetailView| a.question_uuid != u)
}

/// The answer records that reference the question identifier `u`.
pub open spec fn answers_for_question(ans: Seq<AnswerDetailView>, u: Seq<char>) -> Seq<
    AnswerDetailView,
> {
    ans.filter(|a: AnswerDetailView| a.question_uuid == u)
}

/// The answer records that do not carry the answer identifier `u`.
pub open spec fn answers_not_named(ans: Seq<AnswerDetailView>, u: Seq<char>) -> Seq<
    AnswerDetailView,
> {
    ans.filter(|a: AnswerDetailView| a.answer_uuid != u)
}

proof fn lemma_filter_element_is_member<A>(s: Seq<A>, pred: spec_fn(A) -> bool, i: int)
    requires
        0 <= i < s.filter(pred).len(),
    ensures
        exists|j: int| 0 <= j < s.len() && s[j] == #[trigger] s.filter(pred)[i],
    decreases s.len(),
{
    reveal(Seq::filter);
    if s.len() > 0 {
        let f = s.filter(pred);
        let fd = s.drop_last().filter(pred);
        if pred(s.last()) && i == f.len() - 1 {
            assert(s[s.len() - 1] == f[i]);
        } else {
            lemma_filter_element_is_member(s.drop_last(), pred, i);
            let j = choose|j: int| 0 <= j < s.drop_last().len() && s.drop_last()[j] == fd[i];
            assert(s[j] == f[i]);
        }
    }
}

/// Whether some question in `qs` carries the identifier `u`.
pub open spec fn references_some_question(qs: Seq<QuestionDetailView>, u: Seq<char>) -> bool {
    exists|j: int| 0 <= j < qs.len() && (#[trigger] qs[j]).question_uuid == u
}

#[verifier::loop_isolation(false)]
fn questions_without_uuid(v: &Vec<QuestionDetail>, u: &String) -> (out: Vec<QuestionDetail>)
    ensures
        question_detail_views(out@) == questions_not_named(question_detail_views(v@), u@),
{
    let ghost pred = |q: QuestionDetailView| q.question_uuid != u@;
    let mut out: Vec<QuestionDetail> = Vec::new();
    let mut i: usize = 0;
    while i < v.len()
        invariant
            i <= v@.len(),
            question_detail_views(out@) == question_detail_views(v@).subrange(0, i as int).filter(
                pred,
            ),
        decreases v@.len() - i,
    {
        let ghost prev = question_detail_views(out@);
        let keep = !v[i].question_uuid.eq(u);
        if keep {
            out.push(v[i].clone());
        }
        proof {
            let vs = question_detail_views(v@);
            assert(vs.subrange(0, (i + 1) as int) =~= vs.subrange(0, i as int).push(
                vs[i as int],
            ));
            vs.subrange(0, i as int).lemma_filter_push(vs[i as int], pred);
            assert(pred(vs[i as int]) == keep);
            if keep {
                assert(question_detail_views(out@) =~= prev.push(v@[i as int]@));
            }
            assert(question_detail_views(out@) == vs.subrange(0, (i + 1) as int).filter(pred));
        }
        i += 1;
    }
    proof {
        assert(question_detail_views(v@).subrange(0, v@.len() as int) =~= question_detail_views(
            v@,
        ));
    }
    out
}

#[verifier::loop_isolation(false)]
fn answers_without_question(v: &Vec<AnswerDetail>, u: &String) -> (out: Vec<AnswerDetail>)
    ensures
        answer_detail_views(out@) == answers_not_for_question(answer_detail_views(v@), u@),
{
    let ghost pred = |a: AnswerDetailView| a.question_uuid != u@;
    let mut out: Vec<AnswerDetail> = Vec::new();
    let mut i: usize = 0;
    while i < v.len()
        invariant
            i <= v@.len(),
            answer_detail_views(out@) == answer_detail_views(v@).subrange(0, i as int).filter(pred),
        decreases v@.len() - i,
    {
        let ghost prev = answer_detail_views(out@);
        let keep = !v[i].question_uuid.eq(u);
        if keep {
            out.push(v[i].clone());
        }
        proof {
            let vs = answer_detail_views(v@);
            assert(vs.subrange(0, (i + 1) as int) =~= vs.subrange(0, i as int).push(
                vs[i as int],
            ));
            vs.subrange(0, i as int).lemma_filter_push(vs[i as int], pred);
            assert(pred(vs[i as int]) == keep);
            if keep {
                assert(answer_detail_views(out@) =~= prev.push(v@[i as int]@));
            }
            assert(answer_detail_views(out@) == vs.subrange(0, (i + 1) as int).filter(pred));
        }
        i += 1;
    }
    proof {
        assert(answer_detail_views(v@).subrange(0, v@.len() as int) =~= answer_detail_views(v@));
    }
    out
}

#[verifier::loop_isolation(false)]
fn answers_without_uuid(v: &Vec<AnswerDetail>, u: &String) -> (out: Vec<AnswerDetail>)
    ensures
        answer_detail_views(out@) == answers_not_named(answer_detail_views(v@), u@),
{
    let ghost pred = |a: AnswerDetailView| a.answer_uuid != u@;
    let mut out: Vec<AnswerDetail> = Vec::new();
    let mut i: usize = 0;
    while i < v.len()
        invariant
            i <= v@.len(),
            answer_detail_views(out@) == answer_detail_views(v@).subrange(0, i as int).filter(pred),
        decreases v@.len() - i,
    {
        let ghost prev = answer_detail_views(out@);
        let keep = !v[i].answer_uuid.eq(u);
        if keep {
            out.push(v[i].clone());
        }
        proof {
            let vs = answer_detail_views(v@);
            assert(vs.subrange(0, (i + 1) as int) =~= vs.subrange(0, i as int).push(
                vs[i as int],
            ));
            vs.subrange(0, i as int).lemma_filter_push(vs[i as int], pred);
            assert(pred(vs[i as int]) == keep);
            if keep {
                assert(answer_detail_views(out@) =~= prev.push(v@[i as int]@));
            }
            assert(answer_detail_views(out@) == vs.subrange(0, (i + 1) as int).filter(pred));
        }
        i += 1;
    }
    proof {
        assert(answer_detail_views(v@).subrange(0, v@.len() as int) =~= answer_detail_views(v@));
    }
    out
}

#[verifier::loop_isolation(false)]
fn answers_with_question(v: &Vec<AnswerDetail>, u: &String) -> (out: Vec<AnswerDetail>)
    ensures
        answer_detail_views(out@) == answers_for_question(answer_detail_views(v@), u@),
{
    let ghost pred = |a: AnswerDetailView| a.question_uuid == u@;
    let mut out: Vec<AnswerDetail> = Vec::new();
    let mut i: usize = 0;
    while i < v.len()
        invariant
            i <= v@.len(),
            answer_detail_views(out@) == answer_detail_views(v@).subrange(0, i as int).filter(pred),
        decreases v@.len() - i,
    {
        let ghost prev = answer_detail_views(out@);
        let keep = v[i].question_uuid.eq(u);
        if keep {
            out.push(v[i].clone());
        }
        proof {
            let vs = answer_detail_views(v@);
            assert(vs.subrange(0, (i + 1) as int) =~= vs.subrange(0, i as int).push(
                vs[i as int],
            ));
            vs.subrange(0, i as int).lemma_filter_push(vs[i as int], pred);
            assert(pred(vs[i as int]) == keep);
            if keep {
                assert(answer_detail_views(out@) =~= prev.push(v@[i as int]@));
            }
            assert(answer_detail_views(out@) == vs.subrange(0, (i + 1) as int).filter(pred));
        }
        i += 1;
    }
    proof {
        assert(answer_detail_views(v@).subrange(0, v@.len() as int) =~= answer_detail_views(v@));
    }
    out
}

/// Law: a question deletion leaves no trace of the deleted identifier.
/// After deleting the question named `u`, no remaining question record
/// carries `u` and — because the deletion cascades — no remaining answer
/// record references `u`.
pub proof fn lemma_deleted_question_gone(
    qs: Seq<QuestionDetailView>,
    ans: Seq<AnswerDetailView>,
    u: Seq<char>,
)
    ensures
        forall|i: int|
            0 <= i < questions_not_named(qs, u).len() ==> (#[trigger] questions_not_named(
                qs,
                u,
            )[i]).question_uuid != u,
        forall|i: int|
            0 <= i < answers_not_for_question(ans, u).len() ==> (
            #[trigger] answers_not_for_question(ans, u)[i]).question_uuid != u,
{
    let qpred = |q: QuestionDetailView| q.question_uuid != u;
    let apred = |a: AnswerDetailView| a.question_uuid != u;
    assert forall|i: int|
        0 <= i < questions_not_named(qs, u).len() implies (#[trigger] questions_not_named(
        qs,
        u,
    )[i]).question_uuid != u by {
        qs.lemma_filter_pred(qpred, i);
    }
    assert forall|i: int|
        0 <= i < answers_not_for_question(ans, u).len() implies (
    #[trigger] answers_not_for_question(ans, u)[i]).question_uuid != u by {
        ans.lemma_filter_pred(apred, i);
    }
}

/// An in-memory question-and-answer store. Creation assigns identifiers
/// and timestamps from a private counter — callers never fabricate them —
/// and every stored answer references a stored question. Deleting a
/// question cascades to its answers, which is what keeps that referential
/// integrity across deletion.
pub struct InMemoryStore {
    questions: Vec<QuestionDetail>,
    answers: Vec<AnswerDetail>,
    next_id: u64,
}

impl InMemoryStore {
    /// The stored question records, in creation order.
    pub closed spec fn question_records(&self) -> Seq<QuestionDetailView> {
        question_detail_views(self.questions@)
    }

    /// The stored answer records, in creation order.
    pub closed spec fn answer_records(&self) -> Seq<AnswerDetailView> {
        answer_detail_views(self.answers@)
    }

    /// The creation counter the next assigned identifier will carry.
    pub closed spec fn next_counter(&self) -> u64 {
        self.next_id
    }

    /// Referential integrity: every stored answer references some stored
    /// question.
    pub open spec fn wf(&self) -> bool {
        forall|i: int|
            0 <= i < self.answer_records().len() ==> references_some_question(
                self.question_records(),
                (#[trigger] self.answer_records()[i]).question_uuid,
            )
    }

    /// An empty store.
    pub fn new() -> (s: Self)
        ensures
            s.wf(),
            s.question_records() == Seq::<QuestionDetailView>::empty(),
            s.answer_records() == Seq::<AnswerDetailView>::empty(),
            s.next_counter() == 0,
    {
        let s = InMemoryStore { questions: Vec::new(), answers: Vec::new(), next_id: 0 };
        proof {
            assert(s.question_records() =~= Seq::<QuestionDetailView>::empty());
            assert(s.answer_records() =~= Seq::<AnswerDetailView>::empty());
        }
        s
    }

    /// Inserts a question; the store assigns its identifier and timestamp.
    /// No caller input can make this fail, so no failure is ever tagged
    /// `InvalidUUID` here; the one failure left is counter exhaustion,
    /// reported as `Other`.
    pub fn create_question(&mut self, question: Question) -> (r: Result<QuestionDetail, DBError>)
        requires
            self.wf(),
        ensures
            final(self).wf(),
            old(self).next_counter() < u64::MAX ==> (r matches Ok(d)
                && d@.question_uuid == assigned_uuid(old(self).next_counter() as nat)
                && d@.title == question@.title
                && d@.description == question@.description
                && d@.created_at == assigned_tick(old(self).next_counter() as nat)
                && final(self).question_records() == old(self).question_records().push(d@)
                && final(self).answer_records() == old(self).answer_records()
                && final(self).next_counter() == old(self).next_counter() + 1),
            old(self).next_counter() == u64::MAX ==> (r matches Err(e)
                && e matches DBError::Other(_) && *final(self) == *old(self)),
    {
        if self.next_id == u64::MAX {
            return Err(DBError::Other("identifier space exhausted".to_owned()));
        }
        let n = self.next_id;
        let detail = QuestionDetail {
            question_uuid: make_uuid(n),
            title: question.title,
            description: question.description,
            created_at: hex_string(n, 12),
        };
        let stored = detail.clone();
        self.questions.push(stored);
        self.next_id = n + 1;
        proof {
            assert(self.question_records() =~= old(self).question_records().push(detail@));
            assert(self.answer_records() =~= old(self).answer_records());
            assert forall|i: int|
                0 <= i < self.answer_records().len() implies references_some_question(
                self.question_records(),
                (#[trigger] self.answer_records()[i]).question_uuid,
            ) by {
                let u = self.answer_records()[i].question_uuid;
                let j = choose|j: int|
                    0 <= j < old(self).question_records().len() && (#[trigger] old(
                        self,
                    ).question_records()[j]).question_uuid == u;
                assert(self.question_records()[j].question_uuid == u);
            }
        }
        Ok(detail)
    }

    /// Returns copies of all question records.
    pub fn get_questions(&self) -> (r: Result<Vec<QuestionDetail>, DBError>)
        ensures
            r matches Ok(v) && question_detail_views(v@) == self.question_records(),
    {
        let mut out: Vec<QuestionDetail> = Vec::new();
        let mut i: usize = 0;
        while i < self.questions.len()
            invariant
                i <= self.questions@.len(),
                out@.len() == i,
                forall|k: int| 0 <= k < i ==> out@[k] == self.questions@[k],
            decreases self.questions@.len() - i,
        {
            out.push(self.questions[i].clone());
            i += 1;
        }
        proof {
            assert(out@ =~= self.questions@);
        }
        Ok(out)
    }

    /// Deletes the question the identifier names, and — cascading — every
    /// answer that references it. A malformed identifier is rejected as
    /// `InvalidUUID`; a well-formed identifier that names no question
    /// deletes nothing and succeeds silently.
    pub fn delete_question(&mut self, question_uuid: String) -> (r: Result<(), DBError>)
        requires
            self.wf(),
        ensures
            final(self).wf(),
            !is_uuid(question_uuid@) ==> (r matches Err(e) && e matches DBError::InvalidUUID(m)
                && m@ == question_uuid_parse_error(question_uuid@) && *final(self) == *old(self)),
            is_uuid(question_uuid@) ==> (r is Ok && final(self).question_records()
                == questions_not_named(old(self).question_records(), question_uuid@)
                && final(self).answer_records() == answers_not_for_question(
                old(self).answer_records(),
                question_uuid@,
            ) && final(self).next_counter() == old(self).next_counter()),
    {
        match validate_question_uuid(question_uuid.as_str()) {
            Err(e) => Err(e),
            Ok(()) => {
                let kept_questions = questions_without_uuid(&self.questions, &question_uuid);
                let kept_answers = answers_without_question(&self.answers, &question_uuid);
                self.questions = kept_questions;
                self.answers = kept_answers;
                proof {
                    let u = question_uuid@;
                    let qpred = |q: QuestionDetailView| q.question_uuid != u;
                    let apred = |a: AnswerDetailView| a.question_uuid != u;
                    let old_qs = old(self).question_records();
                    let old_ans = old(self).answer_records();
                    assert forall|i: int|
                        0 <= i < self.answer_records().len() implies references_some_question(
                        self.question_records(),
                        (#[trigger] self.answer_records()[i]).question_uuid,
                    ) by {
                        let a = self.answer_records()[i];
                        old_ans.lemma_filter_pred(apred, i);
                        lemma_filter_element_is_member(old_ans, apred, i);
                        let j = choose|j: int| 0 <= j < old_ans.len() && old_ans[j] == a;
                        assert(references_some_question(old_qs, old_ans[j].question_uuid));
                        let k = choose|k: int|
                            0 <= k < old_qs.len() && (#[trigger] old_qs[k]).question_uuid
                                == a.question_uuid;
                        old_qs.lemma_filter_contains(qpred, k);
                        let t = choose|t: int|
                            0 <= t < self.question_records().len() && self.question_records()[t]
                                == old_qs[k];
                        assert((self.question_records()[t]).question_uuid == a.question_uuid);
                    }
                }
                Ok(())
            },
        }
    }

    /// Inserts an answer after the two identifier gates: the referenced
    /// question identifier must be well formed, and must name a stored
    /// question — both failures are the caller's and share the
    /// `InvalidUUID` tag. The store assigns the answer's identifier and
    /// timestamp.
    pub fn create_answer(&mut self, answer: Answer) -> (r: Result<AnswerDetail, DBError>)
        requires
            self.wf(),
        ensures
            final(self).wf(),
            !is_uuid(answer@.question_uuid) ==> (r matches Err(e)
                && e matches DBError::InvalidUUID(m)
                && m@ == answer_uuid_parse_error(answer@.question_uuid)
                && *final(self) == *old(self)),
            is_uuid(answer@.question_uuid) && !references_some_question(
                old(self).question_records(),
                answer@.question_uuid,
            ) ==> (r matches Err(e) && e matches DBError::InvalidUUID(m)
                && m@ == invalid_question_reference_error(answer@.question_uuid)
                && *final(self) == *old(self)),
            is_uuid(answer@.question_uuid) && references_some_question(
                old(self).question_records(),
                answer@.question_uuid,
            ) && old(self).next_counter() < u64::MAX ==> (r matches Ok(d) && d@.answer_uuid
                == assigned_uuid(old(self).next_counter() as nat) && d@.question_uuid
                == answer@.question_uuid && d@.content == answer@.content && d@.created_at
                == assigned_tick(old(self).next_counter() as nat)
                && final(self).answer_records() == old(self).answer_records().push(d@)
                && final(self).question_records() == old(self).question_records()
                && final(self).next_counter() == old(self).next_counter() + 1),
            is_uuid(answer@.question_uuid) && references_some_question(
                old(self).question_records(),
                answer@.question_uuid,
            ) && old(self).next_counter() == u64::MAX ==> (r matches Err(e)
                && e matches DBError::Other(_) && *final(self) == *old(self)),
    {
        match validate_answer_uuid(answer.question_uuid.as_str()) {
            Err(e) => Err(e),
            Ok(()) => {
                let mut found = false;
                let mut i: usize = 0;
                while i < self.questions.len()
                    invariant
                        i <= self.questions@.len(),
                        found ==> references_some_question(
                            self.question_records(),
                            answer.question_uuid@,
                        ),
                        !found ==> forall|j: int|
                            0 <= j < i ==> (#[trigger] self.question_records()[j]).question_uuid
                                != answer.question_uuid@,
                    decreases self.questions@.len() - i,
                {
                    if self.questions[i].question_uuid.eq(&answer.question_uuid) {
                        found = true;
                        proof {
                            assert((self.question_records()[i as int]).question_uuid
                                == answer.question_uuid@);
                        }
                    }
                    i += 1;
                }
                if !found {
                    let mut message = "Invalid question UUID: ".to_owned();
                    message.append(answer.question_uuid.as_str());
                    return Err(DBError::InvalidUUID(message));
                }
                if self.next_id == u64::MAX {
                    return Err(DBError::Other("identifier space exhausted".to_owned()));
                }
                let n = self.next_id;
                let detail = AnswerDetail {
                    answer_uuid: make_uuid(n),
                    question_uuid: answer.question_uuid,
                    content: answer.content,
                    created_at: hex_string(n, 12),
                };
                let stored = detail.clone();
                self.answers.push(stored);
                self.next_id = n + 1;
                proof {
                    assert(self.answer_records() =~= old(self).answer_records().push(detail@));
                    assert(self.question_records() =~= old(self).question_records());
                    assert forall|i2: int|
                        0 <= i2 < self.answer_records().len() implies references_some_question(
                        self.question_records(),
                        (#[trigger] self.answer_records()[i2]).question_uuid,
                    ) by {
                        if i2 < old(self).answer_records().len() {
                            assert(references_some_question(
                                old(self).question_records(),
                                old(self).answer_records()[i2].question_uuid,
                            ));
                        } else {
                            assert(self.answer_records()[i2] == detail@);
                        }
                    }
                }
                Ok(detail)
            },
        }
    }

    /// Returns copies of every answer that references the given question.
    /// A malformed identifier is rejected as `InvalidUUID`; a well-formed
    /// identifier with no matching answers yields the empty result, which
    /// is not an error.
    pub fn get_answers(&self, question_uuid: String) -> (r: Result<Vec<AnswerDetail>, DBError>)
        ensures
            !is_uuid(question_uuid@) ==> (r matches Err(e) && e matches DBError::InvalidUUID(m)
                && m@ == question_uuid_parse_error(question_uuid@)),
            is_uuid(question_uuid@) ==> (r matches Ok(v) && answer_detail_views(v@)
                == answers_for_question(self.answer_records(), question_uuid@)),
    {
        match validate_question_uuid(question_uuid.as_str()) {
            Err(e) => Err(e),
            Ok(()) => Ok(answers_with_question(&self.answers, &question_uuid)),
        }
    }

    /// Deletes the answer the identifier names. A malformed identifier is
    /// rejected as `InvalidUUID`; a well-formed identifier that names no
    /// answer deletes nothing and succeeds silently.
    pub fn delete_answer(&mut self, answer_uuid: String) -> (r: Result<(), DBError>)
        requires
            self.wf(),
        ensures
            final(self).wf(),
            !is_uuid(answer_uuid@) ==> (r matches Err(e) && e matches DBError::InvalidUUID(m)
                && m@ == answer_uuid_parse_error(answer_uuid@) && *final(self) == *old(self)),
            is_uuid(answer_uuid@) ==> (r is Ok && final(self).answer_records()
                == answers_not_named(old(self).answer_records(), answer_uuid@)
                && final(self).question_records() == old(self).question_records()
                && final(self).next_counter() == old(self).next_counter()),
    {
        match validate_answer_uuid(answer_uuid.as_str()) {
            Err(e) => Err(e),
            Ok(()) => {
                let kept_answers = answers_without_uuid(&self.answers, &answer_uuid);
                self.answers = kept_answers;
                proof {
                    let u = answer_uuid@;
                    let apred = |a: AnswerDetailView| a.answer_uuid != u;
                    let old_ans = old(self).answer_records();
                    assert forall|i: int|
                        0 <= i < self.answer_records().len() implies references_some_question(
                        self.question_records(),
                        (#[trigger] self.answer_records()[i]).question_uuid,
                    ) by {
                        let a = self.answer_records()[i];
                        lemma_filter_element_is_member(old_ans, apred, i);
                        let j = choose|j: int| 0 <= j < old_ans.len() && old_ans[j] == a;
                        assert(references_some_question(
                            self.question_records(),
                            old_ans[j].question_uuid,
                        ));
                    }
                }
                Ok(())
            },
        }
    }
}

} // verus!
