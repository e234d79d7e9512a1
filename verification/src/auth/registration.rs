//! Registration: what makes a password and an e-mail address acceptable,
//! and the handling of a request to register.

use vstd::prelude::*;
use vstd::string::StrSliceExecFns;
use vstd::utf8::{encode_utf8, is_ascii_chars};
use crate::auth::hashing::{new_password_hash, password_check, PasswordCheck};
use crate::flow::{run, Flow};
use crate::http::{HttpError, HttpReply};
use crate::model::User;
use crate::store::protocol::{Answer, Statement};
use crate::store::semantics::StoreState;
use crate::text::{lemma_position, occurrences, position, scan};

verus! {

// What a user is told of a weak password, one constant for each flaw.

pub const TEXT_PASSWORD_TOO_SHORT: &'static str =
    "This password is too short. It has to be at least 8 characters long.";

pub const TEXT_PASSWORD_NO_DIGIT: &'static str = "Password has to contain at least one digit.";

pub const TEXT_PASSWORD_NO_UPPERCASE: &'static str =
    "Password has to contain at least one uppercase letter.";

pub const TEXT_PASSWORD_NO_LOWERCASE: &'static str =
    "Password has to contain at least one lowercase letter.";

pub const TEXT_PASSWORD_NO_SYMBOL: &'static str =
    "Password has to contain at least one special symbol.";

/// The first thing that is wrong with a password.
#[derive(Debug, Clone, Copy, PartialEq, Eq, Structural)]
pub enum PasswordFlaw {
    TooShort,
    NoDigit,
    NoUppercase,
    NoLowercase,
    NoSymbol,
}

impl PasswordFlaw {
    /// The sentence that tells the user what to change.
    pub open spec fn text_of(self) -> &'static str {
        match self {
            PasswordFlaw::TooShort => TEXT_PASSWORD_TOO_SHORT,
            PasswordFlaw::NoDigit => TEXT_PASSWORD_NO_DIGIT,
            PasswordFlaw::NoUppercase => TEXT_PASSWORD_NO_UPPERCASE,
            PasswordFlaw::NoLowercase => TEXT_PASSWORD_NO_LOWERCASE,
            PasswordFlaw::NoSymbol => TEXT_PASSWORD_NO_SYMBOL,
        }
    }

    /// The sentence that tells the user what to change.
    pub fn text(&self) -> (sentence: &'static str)
        ensures
            sentence == self.text_of(),
    {
        match self {
            PasswordFlaw::TooShort => TEXT_PASSWORD_TOO_SHORT,
            PasswordFlaw::NoDigit => TEXT_PASSWORD_NO_DIGIT,
            PasswordFlaw::NoUppercase => TEXT_PASSWORD_NO_UPPERCASE,
            PasswordFlaw::NoLowercase => TEXT_PASSWORD_NO_LOWERCASE,
            PasswordFlaw::NoSymbol => TEXT_PASSWORD_NO_SYMBOL,
        }
    }
}

/// The least length of a password, in bytes of its UTF-8 form.
pub const MIN_PASSWORD_BYTES: usize = 8;

/// The least length of an e-mail address.
pub const MIN_EMAIL_CHARS: usize = 6;

/// The least length of the part of an e-mail address after the `@`.
pub const MIN_DOMAIN_CHARS: usize = 4;

/// The least length of the part of a domain after its dot.
pub const MIN_TOP_LEVEL_CHARS: usize = 2;

/// Whether Unicode classes the character as numeric (`Nd`, `Nl` or `No`):
/// what `char::is_numeric` returns.
pub uninterp spec fn unicode_numeric(c: char) -> bool;

/// Whether the character has the Unicode property `Uppercase`: what
/// `char::is_uppercase` returns.
pub uninterp spec fn unicode_uppercase(c: char) -> bool;

/// Whether the character has the Unicode property `Lowercase`: what
/// `char::is_lowercase` returns.
pub uninterp spec fn unicode_lowercase(c: char) -> bool;

/// Whether the character has the Unicode property `Alphabetic`: what
/// `char::is_alphabetic` returns.
pub uninterp spec fn unicode_alphabetic(c: char) -> bool;

/// `char::is_numeric` of the standard library: whether Unicode classes the
/// character as numeric. The answer depends on the character alone.
pub assume_specification[ char::is_numeric ](c: char) -> (yes: bool)
    ensures
        yes == unicode_numeric(c),
;

/// `char::is_uppercase` of the standard library: whether the character has
/// the Unicode property `Uppercase`. The answer depends on the character
/// alone.
pub assume_specification[ char::is_uppercase ](c: char) -> (yes: bool)
    ensures
        yes == unicode_uppercase(c),
;

/// `char::is_lowercase` of the standard library: whether the character has
/// the Unicode property `Lowercase`. The answer depends on the character
/// alone.
pub assume_specification[ char::is_lowercase ](c: char) -> (yes: bool)
    ensures
        yes == unicode_lowercase(c),
;

/// `char::is_alphabetic` of the standard library: whether the character
/// has the Unicode property `Alphabetic`. The answer depends on the
/// character alone.
pub assume_specification[ char::is_alphabetic ](c: char) -> (yes: bool)
    ensures
        yes == unicode_alphabetic(c),
;

/// Whether one of the first `n` characters is numeric.
pub open spec fn some_numeric(s: Seq<char>, n: int) -> bool {
    exists|i: int| 0 <= i < n && i < s.len() && unicode_numeric(#[trigger] s[i])
}

/// Whether one of the first `n` characters is an uppercase letter.
pub open spec fn some_uppercase(s: Seq<char>, n: int) -> bool {
    exists|i: int| 0 <= i < n && i < s.len() && unicode_uppercase(#[trigger] s[i])
}

/// Whether one of the first `n` characters is a lowercase letter.
pub open spec fn some_lowercase(s: Seq<char>, n: int) -> bool {
    exists|i: int| 0 <= i < n && i < s.len() && unicode_lowercase(#[trigger] s[i])
}

/// Whether a character is neither a letter nor numeric.
pub open spec fn is_symbol(c: char) -> bool {
    !unicode_alphabetic(c) && !unicode_numeric(c)
}

/// Whether one of the first `n` characters is a symbol.
pub open spec fn some_symbol(s: Seq<char>, n: int) -> bool {
    exists|i: int| 0 <= i < n && i < s.len() && is_symbol(#[trigger] s[i])
}

/// The first thing that is wrong with a password, in the order in which a
/// user is told: its length, then a missing digit, a missing uppercase
/// letter, a missing lowercase letter, a missing symbol.
pub open spec fn password_flaw(p: Seq<char>) -> Option<PasswordFlaw> {
    if encode_utf8(p).len() < MIN_PASSWORD_BYTES {
        Some(PasswordFlaw::TooShort)
    } else if !some_numeric(p, p.len() as int) {
        Some(PasswordFlaw::NoDigit)
    } else if !some_uppercase(p, p.len() as int) {
        Some(PasswordFlaw::NoUppercase)
    } else if !some_lowercase(p, p.len() as int) {
        Some(PasswordFlaw::NoLowercase)
    } else if !some_symbol(p, p.len() as int) {
        Some(PasswordFlaw::NoSymbol)
    } else {
        None
    }
}

/// Finds the first thing that is wrong with a password.
pub fn find_password_flaw(password: &str) -> (flaw: Option<PasswordFlaw>)
    ensures
        flaw == password_flaw(password@),
{
    if password.as_bytes().len() < MIN_PASSWORD_BYTES {
        return Some(PasswordFlaw::TooShort);
    }
    let len = password.unicode_len();
    let mut numbers = false;
    let mut uppercase = false;
    let mut lowercase = false;
    let mut symbol = false;
    let mut i: usize = 0;
    for c in it: password.chars()
        invariant
            i == it.index(),
            it.seq() == password@,
            len == password@.len(),
            numbers == some_numeric(password@, i as int),
            uppercase == some_uppercase(password@, i as int),
            lowercase == some_lowercase(password@, i as int),
            symbol == some_symbol(password@, i as int),
    {
        assert(password@[i as int] == c);
        if c.is_numeric() {
            numbers = true;
        }
        if c.is_uppercase() {
            uppercase = true;
        }
        if c.is_lowercase() {
            lowercase = true;
        }
        if !c.is_alphabetic() && !c.is_numeric() {
            symbol = true;
        }
        i += 1;
    }
    if !numbers {
        Some(PasswordFlaw::NoDigit)
    } else if !uppercase {
        Some(PasswordFlaw::NoUppercase)
    } else if !lowercase {
        Some(PasswordFlaw::NoLowercase)
    } else if !symbol {
        Some(PasswordFlaw::NoSymbol)
    } else {
        None
    }
}

/// The part of an e-mail address after its first `@`.
pub open spec fn domain_of(e: Seq<char>) -> Seq<char> {
    match position(e, '@') {
        Some(at) => e.subrange(at + 1, e.len() as int),
        None => Seq::empty(),
    }
}

/// What an e-mail address must look like: six characters or more, all of
/// them ASCII; exactly one `@`; after it a domain of four characters or
/// more with exactly one dot, something before the dot and two characters
/// or more after it.
pub open spec fn email_is_valid(e: Seq<char>) -> bool {
    let domain = domain_of(e);
    &&& e.len() >= MIN_EMAIL_CHARS
    &&& is_ascii_chars(e)
    &&& occurrences(e, '@') == 1
    &&& domain.len() >= MIN_DOMAIN_CHARS
    &&& occurrences(domain, '.') == 1
    &&& position(domain, '.') matches Some(dot)
    &&& dot > 0
    &&& domain.len() - dot - 1 >= MIN_TOP_LEVEL_CHARS
}

/// Checks the form of an e-mail address.
pub fn check_email(email: &str) -> (valid: bool)
    ensures
        valid == email_is_valid(email@),
{
    let len = email.unicode_len();
    if len < MIN_EMAIL_CHARS || !email.is_ascii() {
        return false;
    }
    let (ats, at) = scan(email, '@');
    proof {
        lemma_position(email@, '@');
    }
    if ats != 1 {
        return false;
    }
    let at = match at {
        Some(at) => at,
        None => {
            return false;
        },
    };
    let domain = email.substring_char(at + 1, len);
    let domain_len = len - at - 1;
    if domain_len < MIN_DOMAIN_CHARS {
        return false;
    }
    let (dots, dot) = scan(domain, '.');
    proof {
        lemma_position(domain@, '.');
    }
    if dots != 1 {
        return false;
    }
    match dot {
        Some(dot) => dot > 0 && domain_len - dot - 1 >= MIN_TOP_LEVEL_CHARS,
        None => false,
    }
}

/// The two checks that registration makes of what a user typed.
pub trait Validity {
    /// The text that is checked.
    spec fn text(&self) -> Seq<char>;

    /// Whether the text will do as a password; if not, the sentence that
    /// says what to change.
    fn is_valid_password(&self) -> (verdict: Result<(), String>)
        ensures
            match password_flaw(self.text()) {
                None => verdict is Ok,
                Some(flaw) => verdict matches Err(sentence) && sentence@ == flaw.text_of()@,
            },
    ;

    /// Whether the text has the form of an e-mail address.
    fn is_valid_email(&self) -> (valid: bool)
        ensures
            valid == email_is_valid(self.text()),
    ;
}

impl Validity for String {
    open spec fn text(&self) -> Seq<char> {
        self@
    }

    fn is_valid_password(&self) -> (verdict: Result<(), String>) {
        match find_password_flaw(self.as_str()) {
            None => Ok(()),
            Some(flaw) => Err(flaw.text().to_owned()),
        }
    }

    fn is_valid_email(&self) -> (valid: bool) {
        check_email(self.as_str())
    }
}

// ---- the request to register ------------------------------------------------

/// The least length of a user name, in bytes of its UTF-8 form.
pub const MIN_USERNAME_BYTES: usize = 3;

/// The body of a request to register.
#[derive(Debug)]
pub struct RegisterUser {
    pub username: String,
    pub password: String,
    pub email: String,
}

/// The first thing that is wrong with a request to register: the length
/// of the user name, then the form of the e-mail address, then the
/// password.
pub open spec fn registration_flaw(payload: RegisterUser) -> Option<HttpError> {
    if encode_utf8(payload.username@).len() < MIN_USERNAME_BYTES {
        Some(HttpError::UsernameTooShort)
    } else if !email_is_valid(payload.email@) {
        Some(HttpError::InvalidEmail)
    } else {
        match password_flaw(payload.password@) {
            Some(flaw) => Some(HttpError::WeakPassword(flaw)),
            None => None,
        }
    }
}

/// Finds the first thing that is wrong with a request to register.
pub fn check_registration(payload: &RegisterUser) -> (flaw: Option<HttpError>)
    ensures
        flaw == registration_flaw(*payload),
{
    if payload.username.as_str().as_bytes().len() < MIN_USERNAME_BYTES {
        Some(HttpError::UsernameTooShort)
    } else if !check_email(payload.email.as_str()) {
        Some(HttpError::InvalidEmail)
    } else {
        match find_password_flaw(payload.password.as_str()) {
            Some(flaw) => Some(HttpError::WeakPassword(flaw)),
            None => None,
        }
    }
}

/// The one statement of a registration.
#[derive(Debug)]
pub enum RegisterFlow {
    Insert { username: String, email: String, password_hash: String },
    Finished(HttpReply),
}

impl Flow for RegisterFlow {
    type Outcome = HttpReply;

    open spec fn pending(&self) -> Option<Statement> {
        match *self {
            RegisterFlow::Insert { username, email, password_hash } => Some(
                Statement::InsertUser { username, email, password: password_hash },
            ),
            RegisterFlow::Finished(_) => None,
        }
    }

    open spec fn after(self, answer: Answer) -> Self {
        match self {
            RegisterFlow::Insert { .. } => match answer {
                Answer::Done => RegisterFlow::Finished(HttpReply::Created),
                Answer::UniqueViolation => RegisterFlow::Finished(
                    HttpReply::Refused(HttpError::UserExists),
                ),
                _ => RegisterFlow::Finished(HttpReply::Refused(HttpError::RegisterFailed)),
            },
            RegisterFlow::Finished(reply) => RegisterFlow::Finished(reply),
        }
    }

    open spec fn outcome(self) -> HttpReply {
        match self {
            RegisterFlow::Finished(reply) => reply,
            _ => HttpReply::Refused(HttpError::RegisterFailed),
        }
    }

    open spec fn steps_left(&self) -> nat {
        match *self {
            RegisterFlow::Insert { .. } => 1,
            RegisterFlow::Finished(_) => 0,
        }
    }

    proof fn lemma_progress(self, answer: Answer) {
    }

    fn request(&self) -> (statement: Option<Statement>) {
        match self {
            RegisterFlow::Insert { username, email, password_hash } => Some(
                Statement::InsertUser {
                    username: username.clone(),
                    email: email.clone(),
                    password: password_hash.clone(),
                },
            ),
            RegisterFlow::Finished(_) => None,
        }
    }

    fn resume(self, answer: Answer) -> (next: Self) {
        match self {
            RegisterFlow::Insert { .. } => match answer {
                Answer::Done => RegisterFlow::Finished(HttpReply::Created),
                Answer::UniqueViolation => RegisterFlow::Finished(
                    HttpReply::Refused(HttpError::UserExists),
                ),
                _ => RegisterFlow::Finished(HttpReply::Refused(HttpError::RegisterFailed)),
            },
            RegisterFlow::Finished(reply) => RegisterFlow::Finished(reply),
        }
    }

    fn finish(self) -> (outcome: HttpReply) {
        match self {
            RegisterFlow::Finished(reply) => reply,
            _ => HttpReply::Refused(HttpError::RegisterFailed),
        }
    }
}

/// Where a registration stands once the request has passed its checks and
/// the password has been sent to be hashed: without a hash it ends with a
/// bare 500.
pub open spec fn registration_start(
    username: String,
    email: String,
    password_hash: Option<String>,
) -> RegisterFlow {
    match password_hash {
        Some(password_hash) => RegisterFlow::Insert { username, email, password_hash },
        None => RegisterFlow::Finished(HttpReply::Refused(HttpError::Internal)),
    }
}

/// Goes on with a registration whose request has passed its checks.
pub fn registration(username: String, email: String, password_hash: Option<String>) -> (flow:
    RegisterFlow)
    ensures
        flow == registration_start(username, email, password_hash),
{
    match password_hash {
        Some(password_hash) => RegisterFlow::Insert { username, email, password_hash },
        None => RegisterFlow::Finished(HttpReply::Refused(HttpError::Internal)),
    }
}

/// Whether a text is a hash of a password, or no hash came about.
pub open spec fn hashes(password_hash: Option<String>, password: Seq<char>) -> bool {
    password_hash matches Some(hash) ==> password_check(password, hash@) == PasswordCheck::Matches
}

/// Starts the handling of a request to register: a request with a flaw
/// is refused for its first flaw; otherwise the password is hashed and the
/// registration goes on with whatever the hashing gave.
pub fn register(payload: RegisterUser) -> (flow: RegisterFlow)
    ensures
        match registration_flaw(payload) {
            Some(flaw) => flow == RegisterFlow::Finished(HttpReply::Refused(flaw)),
            None => exists|password_hash: Option<String>| #[trigger]
                hashes(password_hash, payload.password@) && flow == registration_start(
                    payload.username,
                    payload.email,
                    password_hash,
                ),
        },
{
    match check_registration(&payload) {
        Some(flaw) => RegisterFlow::Finished(HttpReply::Refused(flaw)),
        None => {
            let password_hash = new_password_hash(payload.password.as_str());
            assert(hashes(password_hash, payload.password@));
            registration(payload.username, payload.email, password_hash)
        },
    }
}

/// The user row that a registration writes.
pub open spec fn new_user(
    store: StoreState,
    username: String,
    email: String,
    password_hash: String,
) -> User {
    User { id: store.next_id, username, password: password_hash, email }
}

/// Against a store with no outage ahead, a registration that has its hash
/// writes the one user row exactly when neither the name nor the address
/// is taken and an id is left; a taken name or address is refused as a
/// conflict, and whenever nothing is written the store is left exactly as
/// it was.
pub proof fn law_register(
    store: StoreState,
    username: String,
    email: String,
    password_hash: String,
)
    requires
        store.budget is None,
    ensures
        ({
            let (end, flow) = run(store, RegisterFlow::Insert { username, email, password_hash });
            let t = store.tables;
            if t.has_username(username@) || t.has_email(email@) {
                end == store && flow.outcome() == HttpReply::Refused(HttpError::UserExists)
            } else if store.next_id == u128::MAX {
                end == store && flow.outcome() == HttpReply::Refused(HttpError::RegisterFailed)
            } else {
                &&& flow.outcome() == HttpReply::Created
                &&& end == store.with_new_row(
                    t.with_user(new_user(store, username, email, password_hash)),
                )
            }
        }),
{
    reveal_with_fuel(run, 2);
}

/// Whatever the store does, a registration writes at most the one user
/// row, and writes it exactly when it answers `Created`.
pub proof fn law_register_all_or_nothing(
    store: StoreState,
    username: String,
    email: String,
    password_hash: String,
)
    ensures
        ({
            let (end, flow) = run(store, RegisterFlow::Insert { username, email, password_hash });
            &&& end.saved == store.saved
            &&& if flow.outcome() == HttpReply::Created {
                &&& end.tables == store.tables.with_user(
                    new_user(store, username, email, password_hash),
                )
                &&& end.next_id == store.next_id + 1
            } else {
                end.tables == store.tables && end.next_id == store.next_id
            }
        }),
{
    reveal_with_fuel(run, 2);
}

} // verus!
