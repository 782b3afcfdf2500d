use vstd::prelude::*;
use crate::auth::{issued_for, argon2_encoded, argon2_matches, argon2_verify_ok, hash_password, issue_token, verify_password};
use crate::error::ServiceError;
use crate::pagination::{extract_pagination, opt_view, page, spec_extract_pagination};
use crate::policy::{both_clean, spec_both_clean};
use crate::store::{
    add_account_outcome, add_answer_outcome, add_question_outcome, answer_result,
    delete_outcome, question_result, question_views, update_outcome, Store, StoreModel,
};
use crate::text::{decimal, push_decimal};
use crate::types::{
    strings_view, Account, AccountId, Answer, NewAnswer, NewQuestion, Question, QuestionView,
    Session,
};

verus! {

/// The ownership check of a change to question `id` by `acting`: a missing
/// question is reported before a foreign one.
pub open spec fn spec_authorize_change(m: StoreModel, id: i32, acting: i32) -> Result<(), ServiceError> {
    if !m.has_question(id) {
        Err(ServiceError::NotFound)
    } else if m.owner_of(id) != acting {
        Err(ServiceError::Forbidden)
    } else {
        Ok(())
    }
}

/// A question with its title and content replaced by checked text.
pub open spec fn with_checked_text(q: QuestionView, title: Seq<char>, content: Seq<char>) -> QuestionView {
    QuestionView { title, content, ..q }
}

/// The listing that the raw `limit` and `offset` query parameters ask for.
pub fn get_questions(store: &Store, limit: Option<String>, offset: Option<String>) -> (r: Result<
    Vec<Question>,
    ServiceError,
>)
    requires
        store.wf(),
    ensures
        match spec_extract_pagination(opt_view(limit), opt_view(offset)) {
            Ok(p) => r is Ok && question_views(r->Ok_0@) == page(store@.listing(), p),
            Err(e) => r == Err::<Vec<Question>, ServiceError>(e),
        },
{
    match extract_pagination(limit, offset) {
        Ok(p) => store.get_questions(p.limit, p.offset),
        Err(e) => Err(e),
    }
}

/// Whether the session's account may change question `id`. Run before the
/// content checks, so that no text of a refused change is sent out.
pub fn authorize_change(store: &Store, id: i32, session: &Session) -> (r: Result<(), ServiceError>)
    requires
        store.wf(),
    ensures
        r == spec_authorize_change(store@, id, session.account_id.0),
{
    if !store.get_question_exists(id) {
        return Err(ServiceError::NotFound);
    }
    match store.is_question_owner(id, &session.account_id) {
        Ok(true) => Ok(()),
        Ok(false) => Err(ServiceError::Forbidden),
        Err(e) => Err(e),
    }
}

/// Updates question `id` for the session's account, with the outcomes of
/// the content checks of its title and content.
pub fn update_question(
    store: &mut Store,
    id: i32,
    session: &Session,
    question: Question,
    title_check: Result<String, ServiceError>,
    content_check: Result<String, ServiceError>,
) -> (r: Result<Question, ServiceError>)
    requires
        old(store).wf(),
    ensures
        final(store).wf(),
        spec_authorize_change(old(store)@, id, session.account_id.0) is Err ==> r
            == Err::<Question, ServiceError>(
            spec_authorize_change(old(store)@, id, session.account_id.0)->Err_0,
        ) && final(store)@ == old(store)@,
        spec_authorize_change(old(store)@, id, session.account_id.0) is Ok ==> match spec_both_clean(
            title_check,
            content_check,
        ) {
            Err(e) => r == Err::<Question, ServiceError>(e) && final(store)@ == old(store)@,
            Ok((t, c)) => (question_result(r), final(store)@) == update_outcome(
                old(store)@,
                with_checked_text(question@, t@, c@),
                id,
                session.account_id.0,
            ),
        },
{
    match authorize_change(store, id, session) {
        Err(e) => return Err(e),
        Ok(()) => {},
    }
    let (title, content) = match both_clean(title_check, content_check) {
        Err(e) => return Err(e),
        Ok(pair) => pair,
    };
    let patched = Question { id: question.id, title, content, tags: question.tags };
    store.update_question(patched, id, session.account_id)
}

/// Deletes question `id` for the session's account.
pub fn delete_question(store: &mut Store, id: i32, session: &Session) -> (r: Result<
    String,
    ServiceError,
>)
    requires
        old(store).wf(),
    ensures
        final(store).wf(),
        final(store)@ == delete_outcome(old(store)@, id, session.account_id.0).1,
        match delete_outcome(old(store)@, id, session.account_id.0).0 {
            Ok(_) => r is Ok && r->Ok_0@ == "Question "@ + decimal(id as nat) + " deleted"@,
            Err(e) => r == Err::<String, ServiceError>(e),
        },
{
    match store.delete_question(id, session.account_id) {
        Ok(_) => {
            proof {
                assert(old(store)@.has_question(id));
                let m = old(store)@;
                assert(m.questions[m.question_index(id)].question.id == id);
            }
            let mut msg = String::from_str("Question ");
            push_decimal(&mut msg, id as u32);
            msg.append(" deleted");
            Ok(msg)
        },
        Err(e) => Err(e),
    }
}

/// Adds a question owned by the session's account, with the outcomes of
/// the content checks of its title and content.
pub fn add_question(
    store: &mut Store,
    session: &Session,
    new_question: NewQuestion,
    title_check: Result<String, ServiceError>,
    content_check: Result<String, ServiceError>,
) -> (r: Result<Question, ServiceError>)
    requires
        old(store).wf(),
    ensures
        final(store).wf(),
        match spec_both_clean(title_check, content_check) {
            Err(e) => r == Err::<Question, ServiceError>(e) && final(store)@ == old(store)@,
            Ok((t, c)) => (question_result(r), final(store)@) == add_question_outcome(
                old(store)@,
                t@,
                c@,
                strings_view(new_question.tags@),
                session.account_id.0,
            ),
        },
{
    let (title, content) = match both_clean(title_check, content_check) {
        Err(e) => return Err(e),
        Ok(pair) => pair,
    };
    store.add_question(title, content, new_question.tags, session.account_id)
}

/// Adds an answer by the session's account, with the outcome of the
/// content check of its text. A missing question is reported first.
pub fn add_answer(
    store: &mut Store,
    session: &Session,
    new_answer: NewAnswer,
    content_check: Result<String, ServiceError>,
) -> (r: Result<Answer, ServiceError>)
    requires
        old(store).wf(),
    ensures
        final(store).wf(),
        !old(store)@.has_question(new_answer.question_id.0) ==> r == Err::<
            Answer,
            ServiceError,
        >(ServiceError::QuestionNotFound) && final(store)@ == old(store)@,
        old(store)@.has_question(new_answer.question_id.0) ==> match content_check {
            Err(e) => r == Err::<Answer, ServiceError>(e) && final(store)@ == old(store)@,
            Ok(c) => (answer_result(r), final(store)@) == add_answer_outcome(
                old(store)@,
                new_answer.question_id.0,
                c@,
                session.account_id.0,
            ),
        },
{
    if !store.get_question_exists(new_answer.question_id.0) {
        return Err(ServiceError::QuestionNotFound);
    }
    let content = match content_check {
        Err(e) => return Err(e),
        Ok(c) => c,
    };
    store.add_answer(new_answer.question_id, content, session.account_id)
}

/// The UTF-8 bytes of a text.
pub open spec fn utf8(s: Seq<char>) -> Seq<u8> {
    vstd::utf8::encode_utf8(s)
}

/// Registers an account: the e-mail must be new, and the password is
/// stored as a salted Argon2 hash.
pub fn register(store: &mut Store, account: Account) -> (r: Result<String, ServiceError>)
    requires
        old(store).wf(),
    ensures
        final(store).wf(),
        (r == Err::<String, ServiceError>(ServiceError::DuplicateEmail)) == old(store)@.has_email(
            account.email@,
        ),
        !old(store)@.has_email(account.email@) && old(store)@.next_account_id < i32::MAX && utf8(
            account.password@,
        ).len() <= u32::MAX ==> r is Ok,
        r is Err ==> final(store)@ == old(store)@,
        r is Err ==> r->Err_0 == ServiceError::DuplicateEmail || r->Err_0
            == ServiceError::ArgonLibraryError || r->Err_0 == ServiceError::DatabaseQueryError,
        r is Ok ==> r->Ok_0@ == "Account added"@ && exists|salt: Seq<u8>|
            salt.len() == 32 && (Ok::<bool, ServiceError>(true), final(store)@)
                == #[trigger] add_account_outcome(
                old(store)@,
                account.email@,
                argon2_encoded(utf8(account.password@), salt),
            ),
        r is Ok ==> argon2_verify_ok(final(store)@.accounts.last().password, utf8(account.password@))
            && argon2_matches(final(store)@.accounts.last().password, utf8(account.password@)),
{
    if store.has_email(&account.email) {
        return Err(ServiceError::DuplicateEmail);
    }
    let bytes = account.password.as_str().as_bytes();
    let hashed = match hash_password(bytes) {
        Ok(h) => h,
        Err(e) => return Err(e),
    };
    let ghost pre = store@;
    let r = register_hashed(store, account.email, hashed);
    proof {
        if r is Ok {
            let salt = choose|salt: Seq<u8>|
                salt.len() == 32 && hashed@ == #[trigger] argon2_encoded(bytes@, salt);
            assert(add_account_outcome(pre, account.email@, argon2_encoded(utf8(account.password@), salt)).1 == store@);
        }
    }
    r
}

/// Stores an account whose password `hash_password` has already hashed, so
/// that the hashing need not hold the store; the e-mail must be new.
pub fn register_hashed(store: &mut Store, email: String, hashed: String) -> (r: Result<
    String,
    ServiceError,
>)
    requires
        old(store).wf(),
    ensures
        final(store).wf(),
        final(store)@ == add_account_outcome(old(store)@, email@, hashed@).1,
        match add_account_outcome(old(store)@, email@, hashed@).0 {
            Ok(_) => r is Ok && r->Ok_0@ == "Account added"@,
            Err(e) => r == Err::<String, ServiceError>(e),
        },
{
    match store.add_account(email, hashed) {
        Ok(_) => Ok(String::from_str("Account added")),
        Err(e) => Err(e),
    }
}

/// The outcome of a login attempt from the account found by e-mail, if
/// any, and the password check against its hash: a missing account and a
/// wrong password give the same failure.
pub open spec fn spec_credentials_outcome(
    account: Option<AccountId>,
    password_check: Result<bool, ServiceError>,
) -> Result<AccountId, ServiceError> {
    match account {
        None => Err(ServiceError::WrongCredentials),
        Some(id) => match password_check {
            Ok(true) => Ok(id),
            Ok(false) => Err(ServiceError::WrongCredentials),
            Err(e) => Err(e),
        },
    }
}

/// Decides a login attempt.
pub fn credentials_outcome(account: Option<AccountId>, password_check: Result<bool, ServiceError>) -> (r:
    Result<AccountId, ServiceError>)
    ensures
        r == spec_credentials_outcome(account, password_check),
{
    match account {
        None => Err(ServiceError::WrongCredentials),
        Some(id) => match password_check {
            Ok(true) => Ok(id),
            Ok(false) => Err(ServiceError::WrongCredentials),
            Err(e) => Err(e),
        },
    }
}

/// A login attempt with a wrong password and one with an unknown e-mail
/// fail alike.
pub proof fn lemma_credentials_indistinguishable(account: AccountId)
    ensures
        spec_credentials_outcome(None, Ok(false)) == spec_credentials_outcome(Some(account), Ok(false)),
        spec_credentials_outcome(None, Ok(true)) == Err::<AccountId, ServiceError>(
            ServiceError::WrongCredentials,
        ),
        spec_credentials_outcome(Some(account), Ok(false)) == Err::<AccountId, ServiceError>(
            ServiceError::WrongCredentials,
        ),
{
}

/// The account that an e-mail and password identify.
pub fn authenticate(store: &Store, email: String, password: String) -> (r: Result<
    AccountId,
    ServiceError,
>)
    requires
        store.wf(),
    ensures
        !store@.has_email(email@) ==> r == Err::<AccountId, ServiceError>(
            ServiceError::WrongCredentials,
        ),
        store@.has_email(email@) ==> {
            let a = store@.accounts[store@.account_index(email@)];
            let w = utf8(password@);
            &&& !argon2_verify_ok(a.password, w) ==> r == Err::<AccountId, ServiceError>(
                ServiceError::ArgonLibraryError,
            )
            &&& argon2_verify_ok(a.password, w) && argon2_matches(a.password, w) ==> r == Ok::<
                AccountId,
                ServiceError,
            >(AccountId(a.id->0))
            &&& argon2_verify_ok(a.password, w) && !argon2_matches(a.password, w) ==> r == Err::<
                AccountId,
                ServiceError,
            >(ServiceError::WrongCredentials)
        },
{
    match store.get_account(email) {
        Err(_) => credentials_outcome(None, Ok(false)),
        Ok(account) => {
            let check = verify_password(account.password.as_str(), password.as_str().as_bytes());
            let id = match account.id {
                Some(id) => id,
                None => return Err(ServiceError::WrongCredentials),
            };
            credentials_outcome(Some(id), check)
        },
    }
}

/// Logs in: a session token for the account that the e-mail and password
/// identify, issued with `key`.
pub fn login(store: &Store, credentials: Account, key: &[u8]) -> (r: Result<String, ServiceError>)
    requires
        store.wf(),
    ensures
        ({
            let m = store@;
            let p = m.accounts[m.account_index(credentials.email@)].password;
            let w = utf8(credentials.password@);
            &&& (r == Err::<String, ServiceError>(ServiceError::WrongCredentials)) == (!m.has_email(
                credentials.email@,
            ) || (argon2_verify_ok(p, w) && !argon2_matches(p, w)))
            &&& (r == Err::<String, ServiceError>(ServiceError::ArgonLibraryError)) == (m.has_email(
                credentials.email@,
            ) && !argon2_verify_ok(p, w))
            &&& m.has_email(credentials.email@) && argon2_verify_ok(p, w) && argon2_matches(p, w) ==> r is Ok
                || r == Err::<String, ServiceError>(ServiceError::TokenIssueError)
        }),
        r is Ok ==> store@.has_email(credentials.email@) && issued_for(
            r->Ok_0@,
            key@,
            store@.accounts[store@.account_index(credentials.email@)].id->0,
        ),
        r is Err ==> r->Err_0 == ServiceError::WrongCredentials || r->Err_0
            == ServiceError::ArgonLibraryError || r->Err_0 == ServiceError::TokenIssueError,
{
    match authenticate(store, credentials.email, credentials.password) {
        Ok(id) => issue_token(id, key),
        Err(e) => Err(e),
    }
}

} // verus!
