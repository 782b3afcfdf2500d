use vstd::prelude::*;
use crate::error::ServiceError;
use crate::pagination::{parse_u32, spec_parse_u32};

verus! {

/// The id of a stored question.
#[derive(Debug, Clone, Copy, PartialEq, Eq, Hash, Structural)]
pub struct QuestionId(pub i32);

/// The id of a stored answer.
#[derive(Debug, Clone, Copy, PartialEq, Eq, Hash, Structural)]
pub struct AnswerId(pub i32);

/// The id of a stored account.
#[derive(Debug, Clone, Copy, PartialEq, Eq, Hash, Structural)]
pub struct AccountId(pub i32);

/// The view of a list of strings: the characters of each.
pub open spec fn strings_view(v: Seq<String>) -> Seq<Seq<char>> {
    v.map_values(|s: String| s@)
}

/// A copy of a list of strings.
pub fn copy_strings(v: &Vec<String>) -> (r: Vec<String>)
    ensures
        strings_view(r@) == strings_view(v@),
{
    let mut r: Vec<String> = Vec::new();
    let mut i: usize = 0;
    while i < v.len()
        invariant
            i <= v.len(),
            r@.len() == i,
            forall|j: int| 0 <= j < i ==> (#[trigger] r@[j])@ == v@[j]@,
        decreases v.len() - i,
    {
        r.push(v[i].clone());
        i += 1;
    }
    proof {
        assert(strings_view(r@) =~= strings_view(v@));
    }
    r
}

pub struct QuestionView {
    pub id: i32,
    pub title: Seq<char>,
    pub content: Seq<char>,
    pub tags: Seq<Seq<char>>,
}

/// A question as it is stored and listed.
#[derive(Debug, Clone, PartialEq, Eq)]
pub struct Question {
    pub id: QuestionId,
    pub title: String,
    pub content: String,
    pub tags: Vec<String>,
}

impl View for Question {
    type V = QuestionView;

    open spec fn view(&self) -> QuestionView {
        QuestionView {
            id: self.id.0,
            title: self.title@,
            content: self.content@,
            tags: strings_view(self.tags@),
        }
    }
}

impl Question {
    pub fn new(id: QuestionId, title: String, content: String, tags: Vec<String>) -> (r: Self)
        ensures
            r.id == id,
            r.title == title,
            r.content == content,
            r.tags == tags,
    {
        Question { id, title, content, tags }
    }

    /// A copy with the same view.
    pub fn copy(&self) -> (r: Self)
        ensures
            r@ == self@,
    {
        Question {
            id: self.id,
            title: self.title.clone(),
            content: self.content.clone(),
            tags: copy_strings(&self.tags),
        }
    }
}

/// The fields of a question that its author supplies.
#[derive(Debug, Clone, PartialEq, Eq)]
pub struct NewQuestion {
    pub title: String,
    pub content: String,
    pub tags: Vec<String>,
}

pub struct AnswerView {
    pub id: i32,
    pub content: Seq<char>,
    pub question_id: i32,
}

/// An answer to a question.
#[derive(Debug, Clone, PartialEq, Eq)]
pub struct Answer {
    pub id: AnswerId,
    pub content: String,
    pub question_id: QuestionId,
}

impl View for Answer {
    type V = AnswerView;

    open spec fn view(&self) -> AnswerView {
        AnswerView { id: self.id.0, content: self.content@, question_id: self.question_id.0 }
    }
}

impl Answer {
    pub fn copy(&self) -> (r: Self)
        ensures
            r@ == self@,
    {
        Answer { id: self.id, content: self.content.clone(), question_id: self.question_id }
    }
}

/// The fields of an answer that its author supplies.
#[derive(Debug, Clone, PartialEq, Eq)]
pub struct NewAnswer {
    pub content: String,
    pub question_id: QuestionId,
}

/// An answer as a submitted form carries it: the question id still as text.
#[derive(Debug, Clone, PartialEq, Eq)]
pub struct AddAnswer {
    pub content: String,
    pub question_id: String,
}

/// The question id that a text names, or why it names none.
pub open spec fn spec_question_id(s: Seq<char>) -> Result<QuestionId, ServiceError> {
    if s.len() == 0 {
        Err(ServiceError::MissingParameters)
    } else {
        match spec_parse_u32(s) {
            Some(n) => if n <= i32::MAX {
                Ok(QuestionId(n as i32))
            } else {
                Err(ServiceError::ParseError)
            },
            None => Err(ServiceError::ParseError),
        }
    }
}

impl QuestionId {
    /// Reads a question id from its decimal text.
    pub fn from_str(id: &str) -> (r: Result<QuestionId, ServiceError>)
        ensures
            r == spec_question_id(id@),
    {
        if id.is_empty() {
            return Err(ServiceError::MissingParameters);
        }
        match parse_u32(id) {
            Some(n) => if n <= i32::MAX as u32 {
                Ok(QuestionId(n as i32))
            } else {
                Err(ServiceError::ParseError)
            },
            None => Err(ServiceError::ParseError),
        }
    }
}

impl AddAnswer {
    /// The answer this form describes, its question id read from text.
    pub fn parse(&self) -> (r: Result<NewAnswer, ServiceError>)
        ensures
            match spec_question_id(self.question_id@) {
                Ok(q) => r is Ok && r->Ok_0.question_id == q && r->Ok_0.content@ == self.content@,
                Err(e) => r == Err::<NewAnswer, ServiceError>(e),
            },
    {
        match QuestionId::from_str(self.question_id.as_str()) {
            Ok(question_id) => Ok(NewAnswer { content: self.content.clone(), question_id }),
            Err(e) => Err(e),
        }
    }
}

pub struct AccountView {
    pub id: Option<i32>,
    pub email: Seq<char>,
    pub password: Seq<char>,
}

/// An account; `password` holds the password hash once stored.
#[derive(Debug, Clone, PartialEq, Eq)]
pub struct Account {
    pub id: Option<AccountId>,
    pub email: String,
    pub password: String,
}

impl View for Account {
    type V = AccountView;

    open spec fn view(&self) -> AccountView {
        AccountView {
            id: match self.id {
                Some(a) => Some(a.0),
                None => None,
            },
            email: self.email@,
            password: self.password@,
        }
    }
}

impl Account {
    pub fn copy(&self) -> (r: Self)
        ensures
            r@ == self@,
    {
        Account { id: self.id, email: self.email.clone(), password: self.password.clone() }
    }
}

/// A verified bearer token: whose it is and when it is valid, as Unix seconds.
#[derive(Debug, Clone, Copy, PartialEq, Eq, Structural)]
pub struct Session {
    pub exp: i64,
    pub account_id: AccountId,
    pub nbf: i64,
}

} // verus!
