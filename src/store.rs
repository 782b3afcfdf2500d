use vstd::prelude::*;
use crate::error::ServiceError;
use crate::pagination::{page, window_end, window_start, Pagination};
use crate::types::{
    Account, AccountId, AccountView, Answer, AnswerId, AnswerView, Question, QuestionId,
    QuestionView,
};

verus! {

/// A stored question together with the account that owns it.
pub struct QuestionRecord {
    pub question: QuestionView,
    pub owner: i32,
}

/// A stored answer together with the account that wrote it.
pub struct AnswerRecord {
    pub answer: AnswerView,
    pub owner: i32,
}

/// The contents of a store: its rows in insertion order, and the ids that
/// the next insertions will receive.
pub struct StoreModel {
    pub questions: Seq<QuestionRecord>,
    pub answers: Seq<AnswerRecord>,
    pub accounts: Seq<AccountView>,
    pub next_question_id: i32,
    pub next_answer_id: i32,
    pub next_account_id: i32,
}

impl StoreModel {
    /// Ids are positive, below the next id to hand out, and increase along
    /// each table; stored questions have a title and content; e-mail
    /// addresses are unique.
    pub open spec fn wf(self) -> bool {
        &&& 1 <= self.next_question_id
        &&& 1 <= self.next_answer_id
        &&& 1 <= self.next_account_id
        &&& forall|i: int|
            0 <= i < self.questions.len() ==> {
                let q = #[trigger] self.questions[i];
                &&& 1 <= q.question.id < self.next_question_id
                &&& q.question.title.len() > 0
                &&& q.question.content.len() > 0
            }
        &&& forall|i: int, j: int|
            0 <= i < j < self.questions.len() ==> #[trigger] self.questions[i].question.id
                < #[trigger] self.questions[j].question.id
        &&& forall|i: int|
            0 <= i < self.answers.len() ==> 1 <= (#[trigger] self.answers[i]).answer.id
                < self.next_answer_id
        &&& forall|i: int, j: int|
            0 <= i < j < self.answers.len() ==> #[trigger] self.answers[i].answer.id
                < #[trigger] self.answers[j].answer.id
        &&& forall|i: int|
            0 <= i < self.accounts.len() ==> ((#[trigger] self.accounts[i]).id is Some && 1
                <= self.accounts[i].id->0 < self.next_account_id)
        &&& forall|i: int, j: int|
            0 <= i < j < self.accounts.len() ==> #[trigger] self.accounts[i].id->0
                < #[trigger] self.accounts[j].id->0
        &&& forall|i: int, j: int|
            0 <= i < self.accounts.len() && 0 <= j < self.accounts.len() && i != j
                ==> #[trigger] self.accounts[i].email != #[trigger] self.accounts[j].email
    }

    /// The stored questions, in stored order.
    pub open spec fn listing(self) -> Seq<QuestionView> {
        self.questions.map_values(|r: QuestionRecord| r.question)
    }

    pub open spec fn has_question(self, id: i32) -> bool {
        exists|i: int| 0 <= i < self.questions.len() && #[trigger] self.questions[i].question.id == id
    }

    pub open spec fn question_index(self, id: i32) -> int {
        choose|i: int| 0 <= i < self.questions.len() && #[trigger] self.questions[i].question.id == id
    }

    /// The owner of question `id`, where it exists.
    pub open spec fn owner_of(self, id: i32) -> i32 {
        self.questions[self.question_index(id)].owner
    }

    pub open spec fn has_email(self, email: Seq<char>) -> bool {
        exists|i: int| 0 <= i < self.accounts.len() && #[trigger] self.accounts[i].email == email
    }

    pub open spec fn account_index(self, email: Seq<char>) -> int {
        choose|i: int| 0 <= i < self.accounts.len() && #[trigger] self.accounts[i].email == email
    }
}

/// What adding a question does: it needs a title and content, and gets the next id.
pub open spec fn add_question_outcome(
    m: StoreModel,
    title: Seq<char>,
    content: Seq<char>,
    tags: Seq<Seq<char>>,
    acting: i32,
) -> (Result<QuestionView, ServiceError>, StoreModel) {
    if title.len() == 0 || content.len() == 0 {
        (Err(ServiceError::MissingParameters), m)
    } else if m.next_question_id == i32::MAX {
        (Err(ServiceError::DatabaseQueryError), m)
    } else {
        let q = QuestionView { id: m.next_question_id, title, content, tags };
        (
            Ok(q),
            StoreModel {
                questions: m.questions.push(QuestionRecord { question: q, owner: acting }),
                next_question_id: (m.next_question_id + 1) as i32,
                ..m
            },
        )
    }
}

/// What updating question `id` on behalf of `acting` does: a missing
/// question is reported before a foreign one, and the owner's update
/// replaces title, content and tags, keeping id and owner.
pub open spec fn update_outcome(m: StoreModel, patch: QuestionView, id: i32, acting: i32) -> (
    Result<QuestionView, ServiceError>,
    StoreModel,
) {
    if !m.has_question(id) {
        (Err(ServiceError::NotFound), m)
    } else if m.owner_of(id) != acting {
        (Err(ServiceError::Forbidden), m)
    } else if patch.title.len() == 0 || patch.content.len() == 0 {
        (Err(ServiceError::MissingParameters), m)
    } else {
        let q = QuestionView { id, title: patch.title, content: patch.content, tags: patch.tags };
        (
            Ok(q),
            StoreModel {
                questions: m.questions.update(
                    m.question_index(id),
                    QuestionRecord { question: q, owner: acting },
                ),
                ..m
            },
        )
    }
}

/// What deleting question `id` on behalf of `acting` does.
pub open spec fn delete_outcome(m: StoreModel, id: i32, acting: i32) -> (
    Result<bool, ServiceError>,
    StoreModel,
) {
    if !m.has_question(id) {
        (Err(ServiceError::NotFound), m)
    } else if m.owner_of(id) != acting {
        (Err(ServiceError::Forbidden), m)
    } else {
        (Ok(true), StoreModel { questions: m.questions.remove(m.question_index(id)), ..m })
    }
}

/// What adding an answer does: the question must exist, the content must
/// not be empty, and the answer gets the next id.
pub open spec fn add_answer_outcome(
    m: StoreModel,
    question_id: i32,
    content: Seq<char>,
    acting: i32,
) -> (Result<AnswerView, ServiceError>, StoreModel) {
    if !m.has_question(question_id) {
        (Err(ServiceError::QuestionNotFound), m)
    } else if content.len() == 0 {
        (Err(ServiceError::MissingParameters), m)
    } else if m.next_answer_id == i32::MAX {
        (Err(ServiceError::DatabaseQueryError), m)
    } else {
        let a = AnswerView { id: m.next_answer_id, content, question_id };
        (
            Ok(a),
            StoreModel {
                answers: m.answers.push(AnswerRecord { answer: a, owner: acting }),
                next_answer_id: (m.next_answer_id + 1) as i32,
                ..m
            },
        )
    }
}

/// What adding an account does: the e-mail must be new.
pub open spec fn add_account_outcome(m: StoreModel, email: Seq<char>, password: Seq<char>) -> (
    Result<bool, ServiceError>,
    StoreModel,
) {
    if m.has_email(email) {
        (Err(ServiceError::DuplicateEmail), m)
    } else if m.next_account_id == i32::MAX {
        (Err(ServiceError::DatabaseQueryError), m)
    } else {
        (
            Ok(true),
            StoreModel {
                accounts: m.accounts.push(
                    AccountView { id: Some(m.next_account_id), email, password },
                ),
                next_account_id: (m.next_account_id + 1) as i32,
                ..m
            },
        )
    }
}

pub open spec fn question_result(r: Result<Question, ServiceError>) -> Result<QuestionView, ServiceError> {
    match r {
        Ok(q) => Ok(q@),
        Err(e) => Err(e),
    }
}

pub open spec fn answer_result(r: Result<Answer, ServiceError>) -> Result<AnswerView, ServiceError> {
    match r {
        Ok(a) => Ok(a@),
        Err(e) => Err(e),
    }
}

pub open spec fn question_views(v: Seq<Question>) -> Seq<QuestionView> {
    v.map_values(|q: Question| q@)
}

struct QuestionRow {
    question: Question,
    owner: AccountId,
}

impl View for QuestionRow {
    type V = QuestionRecord;

    closed spec fn view(&self) -> QuestionRecord {
        QuestionRecord { question: self.question@, owner: self.owner.0 }
    }
}

struct AnswerRow {
    answer: Answer,
    owner: AccountId,
}

impl View for AnswerRow {
    type V = AnswerRecord;

    closed spec fn view(&self) -> AnswerRecord {
        AnswerRecord { answer: self.answer@, owner: self.owner.0 }
    }
}

/// The questions, answers and accounts of the service.
pub struct Store {
    questions: Vec<QuestionRow>,
    answers: Vec<AnswerRow>,
    accounts: Vec<Account>,
    next_question_id: i32,
    next_answer_id: i32,
    next_account_id: i32,
}

impl View for Store {
    type V = StoreModel;

    closed spec fn view(&self) -> StoreModel {
        StoreModel {
            questions: self.questions@.map_values(|r: QuestionRow| r@),
            answers: self.answers@.map_values(|r: AnswerRow| r@),
            accounts: self.accounts@.map_values(|a: Account| a@),
            next_question_id: self.next_question_id,
            next_answer_id: self.next_answer_id,
            next_account_id: self.next_account_id,
        }
    }
}

impl Store {
    pub open spec fn wf(&self) -> bool {
        self@.wf()
    }

    /// An empty store.
    pub fn new() -> (r: Store)
        ensures
            r.wf(),
            r@.questions.len() == 0,
            r@.answers.len() == 0,
            r@.accounts.len() == 0,
            r@.next_question_id == 1,
            r@.next_answer_id == 1,
            r@.next_account_id == 1,
    {
        let r = Store {
            questions: Vec::new(),
            answers: Vec::new(),
            accounts: Vec::new(),
            next_question_id: 1,
            next_answer_id: 1,
            next_account_id: 1,
        };
        proof {
            assert(r@.questions =~= Seq::<QuestionRecord>::empty());
            assert(r@.answers =~= Seq::<AnswerRecord>::empty());
            assert(r@.accounts =~= Seq::<AccountView>::empty());
        }
        r
    }

    /// The position of question `id`, where it is stored.
    fn find_question(&self, id: i32) -> (r: Option<usize>)
        requires
            self.wf(),
        ensures
            match r {
                Some(i) => self@.has_question(id) && i == self@.question_index(id) && i
                    < self.questions@.len(),
                None => !self@.has_question(id),
            },
    {
        let mut i: usize = 0;
        while i < self.questions.len()
            invariant
                self.wf(),
                i <= self.questions@.len(),
                self@.questions.len() == self.questions@.len(),
                forall|j: int| 0 <= j < i ==> #[trigger] self@.questions[j].question.id != id,
            decreases self.questions.len() - i,
        {
            proof {
                assert(self@.questions[i as int] == self.questions@[i as int]@);
            }
            if self.questions[i].question.id.0 == id {
                proof {
                    let m = self@;
                    assert(m.questions[i as int].question.id == id);
                    let k = m.question_index(id);
                    assert(m.questions[k].question.id == id);
                    if k < i {
                        assert(m.questions[k].question.id < m.questions[i as int].question.id);
                    } else if k > i {
                        assert(m.questions[i as int].question.id < m.questions[k].question.id);
                    }
                }
                return Some(i);
            }
            i += 1;
        }
        None
    }

    /// The stored questions that the window selects, in stored order. The
    /// `Result` is kept for the callers of a fallible store; this one
    /// always answers.
    pub fn get_questions(&self, limit: Option<u32>, offset: u32) -> (r: Result<
        Vec<Question>,
        ServiceError,
    >)
        requires
            self.wf(),
        ensures
            r is Ok,
            question_views(r->Ok_0@) == page(self@.listing(), Pagination { limit, offset }),
    {
        let len = self.questions.len();
        let start: usize = if offset as usize >= len {
            len
        } else {
            offset as usize
        };
        let end: usize = match limit {
            None => len,
            Some(l) => if l as usize >= len - start {
                len
            } else {
                start + l as usize
            },
        };
        proof {
            let p = Pagination { limit, offset };
            assert(self@.listing().len() == len);
            assert(start == window_start(len as nat, p));
            assert(end == window_end(len as nat, p));
        }
        let mut out: Vec<Question> = Vec::new();
        let mut i: usize = start;
        while i < end
            invariant
                start <= i <= end <= len,
                len == self.questions@.len(),
                self@.questions.len() == len,
                out@.len() == i - start,
                forall|j: int| 0 <= j < out@.len() ==> (#[trigger] out@[j])@ == self@.listing()[start + j],
            decreases end - i,
        {
            let q = self.questions[i].question.copy();
            proof {
                assert(self@.listing()[i as int] == self.questions@[i as int].question@);
            }
            out.push(q);
            i += 1;
        }
        proof {
            assert(question_views(out@) =~= page(self@.listing(), Pagination { limit, offset }));
        }
        Ok(out)
    }

    /// The question stored under `id`.
    pub fn get_question(&self, id: i32) -> (r: Result<Question, ServiceError>)
        requires
            self.wf(),
        ensures
            !self@.has_question(id) ==> r == Err::<Question, ServiceError>(ServiceError::NotFound),
            self@.has_question(id) ==> r is Ok && r->Ok_0@ == self@.questions[self@.question_index(
                id,
            )].question,
    {
        match self.find_question(id) {
            Some(i) => {
                proof {
                    assert(self@.questions[i as int] == self.questions@[i as int]@);
                }
                Ok(self.questions[i].question.copy())
            },
            None => Err(ServiceError::NotFound),
        }
    }

    /// Whether question `question_id` exists and is owned by `account_id`.
    pub fn is_question_owner(&self, question_id: i32, account_id: &AccountId) -> (r: Result<
        bool,
        ServiceError,
    >)
        requires
            self.wf(),
        ensures
            r == Ok::<bool, ServiceError>(
                self@.has_question(question_id) && self@.owner_of(question_id) == account_id.0,
            ),
    {
        match self.find_question(question_id) {
            Some(i) => {
                proof {
                    assert(self@.questions[i as int] == self.questions@[i as int]@);
                }
                Ok(self.questions[i].owner.0 == account_id.0)
            },
            None => Ok(false),
        }
    }

    /// Stores a new question owned by `account_id` under the next id.
    pub fn add_question(
        &mut self,
        title: String,
        content: String,
        tags: Vec<String>,
        account_id: AccountId,
    ) -> (r: Result<Question, ServiceError>)
        requires
            old(self).wf(),
        ensures
            final(self).wf(),
            (question_result(r), final(self)@) == add_question_outcome(
                old(self)@,
                title@,
                content@,
                crate::types::strings_view(tags@),
                account_id.0,
            ),
    {
        if title.as_str().is_empty() || content.as_str().is_empty() {
            return Err(ServiceError::MissingParameters);
        }
        if self.next_question_id == i32::MAX {
            return Err(ServiceError::DatabaseQueryError);
        }
        let id = self.next_question_id;
        let question = Question { id: QuestionId(id), title, content, tags };
        let stored = question.copy();
        self.questions.push(QuestionRow { question: stored, owner: account_id });
        self.next_question_id = id + 1;
        proof {
            let rec = QuestionRecord { question: question@, owner: account_id.0 };
            assert(self@.questions =~= old(self)@.questions.push(rec));
        }
        Ok(question)
    }

    /// Replaces title, content and tags of question `id`, for its owner only.
    pub fn update_question(&mut self, question: Question, id: i32, account_id: AccountId) -> (r:
        Result<Question, ServiceError>)
        requires
            old(self).wf(),
        ensures
            final(self).wf(),
            (question_result(r), final(self)@) == update_outcome(
                old(self)@,
                question@,
                id,
                account_id.0,
            ),
    {
        let i = match self.find_question(id) {
            None => return Err(ServiceError::NotFound),
            Some(i) => i,
        };
        proof {
            assert(self@.questions[i as int] == self.questions@[i as int]@);
        }
        if self.questions[i].owner.0 != account_id.0 {
            return Err(ServiceError::Forbidden);
        }
        if question.title.as_str().is_empty() || question.content.as_str().is_empty() {
            return Err(ServiceError::MissingParameters);
        }
        let updated = Question {
            id: QuestionId(id),
            title: question.title,
            content: question.content,
            tags: question.tags,
        };
        let stored = updated.copy();
        self.questions.set(i, QuestionRow { question: stored, owner: account_id });
        proof {
            let rec = QuestionRecord { question: updated@, owner: account_id.0 };
            assert(self@.questions =~= old(self)@.questions.update(i as int, rec));
        }
        Ok(updated)
    }

    /// Removes question `id`, for its owner only.
    pub fn delete_question(&mut self, id: i32, account_id: AccountId) -> (r: Result<bool, ServiceError>)
        requires
            old(self).wf(),
        ensures
            final(self).wf(),
            (r, final(self)@) == delete_outcome(old(self)@, id, account_id.0),
    {
        let i = match self.find_question(id) {
            None => return Err(ServiceError::NotFound),
            Some(i) => i,
        };
        proof {
            assert(self@.questions[i as int] == self.questions@[i as int]@);
        }
        if self.questions[i].owner.0 != account_id.0 {
            return Err(ServiceError::Forbidden);
        }
        self.questions.remove(i);
        proof {
            assert(self@.questions =~= old(self)@.questions.remove(i as int));
        }
        Ok(true)
    }

    /// Stores an answer by `account_id` to an existing question.
    pub fn add_answer(&mut self, question_id: QuestionId, content: String, account_id: AccountId) -> (r:
        Result<Answer, ServiceError>)
        requires
            old(self).wf(),
        ensures
            final(self).wf(),
            (answer_result(r), final(self)@) == add_answer_outcome(
                old(self)@,
                question_id.0,
                content@,
                account_id.0,
            ),
    {
        if self.find_question(question_id.0).is_none() {
            return Err(ServiceError::QuestionNotFound);
        }
        if content.as_str().is_empty() {
            return Err(ServiceError::MissingParameters);
        }
        if self.next_answer_id == i32::MAX {
            return Err(ServiceError::DatabaseQueryError);
        }
        let id = self.next_answer_id;
        let answer = Answer { id: AnswerId(id), content, question_id };
        let stored = answer.copy();
        self.answers.push(AnswerRow { answer: stored, owner: account_id });
        self.next_answer_id = id + 1;
        proof {
            let rec = AnswerRecord { answer: answer@, owner: account_id.0 };
            assert(self@.answers =~= old(self)@.answers.push(rec));
        }
        Ok(answer)
    }

    /// The position of the account with this e-mail address, where there is one.
    fn find_account(&self, email: &String) -> (r: Option<usize>)
        requires
            self.wf(),
        ensures
            match r {
                Some(i) => self@.has_email(email@) && i == self@.account_index(email@) && i
                    < self.accounts@.len(),
                None => !self@.has_email(email@),
            },
    {
        let mut i: usize = 0;
        while i < self.accounts.len()
            invariant
                self.wf(),
                i <= self.accounts@.len(),
                self@.accounts.len() == self.accounts@.len(),
                forall|j: int| 0 <= j < i ==> #[trigger] self@.accounts[j].email != email@,
            decreases self.accounts.len() - i,
        {
            proof {
                assert(self@.accounts[i as int] == self.accounts@[i as int]@);
            }
            if self.accounts[i].email == *email {
                proof {
                    let m = self@;
                    assert(m.accounts[i as int].email == email@);
                    let k = m.account_index(email@);
                    assert(m.accounts[k].email == email@);
                }
                return Some(i);
            }
            i += 1;
        }
        None
    }

    /// Stores a new account under the next id; `password` is stored as given.
    pub fn add_account(&mut self, email: String, password: String) -> (r: Result<bool, ServiceError>)
        requires
            old(self).wf(),
        ensures
            final(self).wf(),
            (r, final(self)@) == add_account_outcome(old(self)@, email@, password@),
    {
        if self.find_account(&email).is_some() {
            return Err(ServiceError::DuplicateEmail);
        }
        if self.next_account_id == i32::MAX {
            return Err(ServiceError::DatabaseQueryError);
        }
        let id = self.next_account_id;
        let account = Account { id: Some(AccountId(id)), email, password };
        self.accounts.push(account);
        self.next_account_id = id + 1;
        proof {
            let v = AccountView { id: Some(id), email: email@, password: password@ };
            let m0 = old(self)@;
            assert(self@.accounts =~= m0.accounts.push(v));
            assert forall|j: int| 0 <= j < m0.accounts.len() implies #[trigger] m0.accounts[j].email
                != email@ by {
                if m0.accounts[j].email == email@ {
                    assert(m0.has_email(email@));
                }
            }
            let m1 = self@;
            assert(m1.questions == m0.questions);
            assert(m1.answers == m0.answers);
        }
        Ok(true)
    }

    /// The account with this e-mail address.
    pub fn get_account(&self, email: String) -> (r: Result<Account, ServiceError>)
        requires
            self.wf(),
        ensures
            !self@.has_email(email@) ==> r == Err::<Account, ServiceError>(ServiceError::NotFound),
            self@.has_email(email@) ==> r is Ok && r->Ok_0@ == self@.accounts[self@.account_index(
                email@,
            )],
    {
        match self.find_account(&email) {
            None => Err(ServiceError::NotFound),
            Some(i) => {
                proof {
                    assert(self@.accounts[i as int] == self.accounts@[i as int]@);
                }
                Ok(self.accounts[i].copy())
            },
        }
    }

    /// Whether question `id` is stored.
    pub fn get_question_exists(&self, id: i32) -> (r: bool)
        requires
            self.wf(),
        ensures
            r == self@.has_question(id),
    {
        self.find_question(id).is_some()
    }

    /// Whether an account with this e-mail address is stored.
    pub fn has_email(&self, email: &String) -> (r: bool)
        requires
            self.wf(),
        ensures
            r == self@.has_email(email@),
    {
        self.find_account(email).is_some()
    }
}

/// Listing with no limit from offset 0 gives every stored question, in
/// stored order.
pub proof fn lemma_unbounded_listing_is_whole(m: StoreModel)
    ensures
        page(m.listing(), Pagination { limit: None, offset: 0 }) == m.listing(),
{
    assert(page(m.listing(), Pagination { limit: None, offset: 0 }) =~= m.listing());
}

/// Listing from an offset at or past the end gives nothing, whatever the limit.
pub proof fn lemma_offset_past_end_is_empty(m: StoreModel, limit: Option<u32>, offset: u32)
    requires
        offset >= m.listing().len(),
    ensures
        page(m.listing(), Pagination { limit, offset }) == Seq::<QuestionView>::empty(),
{
    assert(page(m.listing(), Pagination { limit, offset }) =~= Seq::<QuestionView>::empty());
}

/// An update with a title and content succeeds exactly for the owner of
/// the question; any other account is refused, and a missing question is
/// reported as missing.
pub proof fn lemma_update_needs_owner(m: StoreModel, patch: QuestionView, id: i32, acting: i32)
    requires
        patch.title.len() > 0,
        patch.content.len() > 0,
    ensures
        !m.has_question(id) ==> update_outcome(m, patch, id, acting).0 == Err::<
            QuestionView,
            ServiceError,
        >(ServiceError::NotFound),
        m.has_question(id) ==> (update_outcome(m, patch, id, acting).0 is Ok <==> acting
            == m.owner_of(id)),
        m.has_question(id) && acting != m.owner_of(id) ==> update_outcome(m, patch, id, acting).0
            == Err::<QuestionView, ServiceError>(ServiceError::Forbidden),
{
}

/// Deleting a question twice: the first deletion succeeds, the second
/// finds nothing.
pub proof fn lemma_delete_twice(m: StoreModel, id: i32, acting: i32)
    requires
        m.wf(),
        m.has_question(id),
        m.owner_of(id) == acting,
    ensures
        delete_outcome(m, id, acting).0 == Ok::<bool, ServiceError>(true),
        delete_outcome(delete_outcome(m, id, acting).1, id, acting).0 == Err::<bool, ServiceError>(
            ServiceError::NotFound,
        ),
{
    let k = m.question_index(id);
    let m1 = delete_outcome(m, id, acting).1;
    assert(m1.questions == m.questions.remove(k));
    if m1.has_question(id) {
        let j = choose|j: int| 0 <= j < m1.questions.len() && #[trigger] m1.questions[j].question.id == id;
        if j < k {
            assert(m.questions[j].question.id < m.questions[k].question.id);
        } else {
            assert(m.questions[k].question.id < m.questions[j + 1].question.id);
        }
    }
}

/// An answer to a missing question is refused and changes nothing.
pub proof fn lemma_answer_to_missing_question(
    m: StoreModel,
    question_id: i32,
    content: Seq<char>,
    acting: i32,
)
    requires
        !m.has_question(question_id),
    ensures
        add_answer_outcome(m, question_id, content, acting) == (
            Err::<AnswerView, ServiceError>(ServiceError::QuestionNotFound),
            m,
        ),
{
}

} // verus!
