//! Accounts, the inputs that create and change them, and the shape rules
//! for usernames and passwords.

use vstd::prelude::*;
use vstd::string::StrSliceExecFns;
use vstd::string::StringExecFns;

verus! {

/// An account as the store holds it.
#[derive(Debug)]
pub struct User {
    pub id: i32,
    pub name: String,
    pub username: String,
    /// The password hash. It never leaves the service.
    pub password: String,
    pub email: String,
    pub gender: bool,
    pub create_at: String,
    pub update_at: String,
}

/// The mathematical value of a [`User`].
pub struct UserView {
    pub id: int,
    pub name: Seq<char>,
    pub username: Seq<char>,
    pub password: Seq<char>,
    pub email: Seq<char>,
    pub gender: bool,
    pub create_at: Seq<char>,
    pub update_at: Seq<char>,
}

impl View for User {
    type V = UserView;

    open spec fn view(&self) -> UserView {
        UserView {
            id: self.id as int,
            name: self.name@,
            username: self.username@,
            password: self.password@,
            email: self.email@,
            gender: self.gender,
            create_at: self.create_at@,
            update_at: self.update_at@,
        }
    }
}

impl Clone for User {
    fn clone(&self) -> (copy: User)
        ensures
            copy@ == self@,
    {
        User {
            id: self.id,
            name: self.name.clone(),
            username: self.username.clone(),
            password: self.password.clone(),
            email: self.email.clone(),
            gender: self.gender,
            create_at: self.create_at.clone(),
            update_at: self.update_at.clone(),
        }
    }
}

/// What a caller sends to register an account.
#[derive(Debug)]
pub struct CreateDto {
    pub name: String,
    pub username: String,
    pub password: String,
    pub email: String,
    pub gender: Option<bool>,
}

/// What a caller sends to log in.
#[derive(Debug)]
pub struct LoginDto {
    pub username: String,
    pub password: String,
}

/// What a caller sends to change a profile. A field that is `None` stays as
/// it is.
#[derive(Debug)]
pub struct UpdateInfoDto {
    pub name: Option<String>,
    pub username: Option<String>,
    pub email: Option<String>,
    pub gender: Option<bool>,
}

/// Why a username or a password was refused.
#[derive(Debug, Clone, Copy, PartialEq, Eq, Structural)]
pub enum CredentialError {
    /// The username is shorter than 3 or longer than 50 bytes.
    UsernameLength,
    /// The username holds a character other than `a`-`z`, `0`-`9` and `_`.
    UsernamePattern,
    /// The password is shorter than 8 or longer than 512 bytes.
    PasswordLength,
    /// The password lacks a lowercase letter, an uppercase letter or a digit.
    PasswordWeak,
}

impl CredentialError {
    /// The message that names this fault to the caller.
    pub open spec fn code_text(self) -> Seq<char> {
        match self {
            CredentialError::UsernameLength => "min=3, max=50"@,
            CredentialError::UsernamePattern => "Username must match ([a-z0-9_]+)"@,
            CredentialError::PasswordLength => "min=8 && max=512"@,
            CredentialError::PasswordWeak => "password is too weak"@,
        }
    }

    /// The message that names this fault to the caller.
    pub fn code(&self) -> (text: &'static str)
        ensures
            text@ == self.code_text(),
    {
        match self {
            CredentialError::UsernameLength => "min=3, max=50",
            CredentialError::UsernamePattern => "Username must match ([a-z0-9_]+)",
            CredentialError::PasswordLength => "min=8 && max=512",
            CredentialError::PasswordWeak => "password is too weak",
        }
    }
}

/// The number of bytes that a text takes in UTF-8.
pub open spec fn byte_len(s: Seq<char>) -> nat {
    vstd::utf8::encode_utf8(s).len()
}

/// A character that a username may hold.
pub open spec fn is_username_char(c: char) -> bool {
    ('a' <= c && c <= 'z') || ('0' <= c && c <= '9') || c == '_'
}

/// Every character of the text may stand in a username.
pub open spec fn username_alphabet(s: Seq<char>) -> bool {
    forall|i: int| 0 <= i < s.len() ==> is_username_char(#[trigger] s[i])
}

/// What the username rule says of a text.
pub open spec fn username_verdict(s: Seq<char>) -> Result<(), CredentialError> {
    if byte_len(s) < 3 || byte_len(s) > 50 {
        Err(CredentialError::UsernameLength)
    } else if !username_alphabet(s) {
        Err(CredentialError::UsernamePattern)
    } else {
        Ok(())
    }
}

/// The text holds a lowercase letter `a`-`z`.
pub open spec fn has_lowercase(s: Seq<char>) -> bool {
    exists|i: int| 0 <= i < s.len() && 'a' <= #[trigger] s[i] && s[i] <= 'z'
}

/// The text holds an uppercase letter `A`-`Z`.
pub open spec fn has_uppercase(s: Seq<char>) -> bool {
    exists|i: int| 0 <= i < s.len() && 'A' <= #[trigger] s[i] && s[i] <= 'Z'
}

/// The text holds a digit `0`-`9`.
pub open spec fn has_digit(s: Seq<char>) -> bool {
    exists|i: int| 0 <= i < s.len() && '0' <= #[trigger] s[i] && s[i] <= '9'
}

/// What the password rule says of a text.
pub open spec fn password_verdict(s: Seq<char>) -> Result<(), CredentialError> {
    if byte_len(s) < 8 || byte_len(s) > 512 {
        Err(CredentialError::PasswordLength)
    } else if !has_lowercase(s) || !has_uppercase(s) || !has_digit(s) {
        Err(CredentialError::PasswordWeak)
    } else {
        Ok(())
    }
}

/// Checks a username: 3 to 50 bytes, each of them `a`-`z`, `0`-`9` or `_`.
pub fn username_validate(username: &str) -> (r: Result<(), CredentialError>)
    ensures
        r == username_verdict(username@),
{
    let n: usize = username.as_bytes().len();
    if n < 3 || n > 50 {
        return Err(CredentialError::UsernameLength);
    }
    let mut all_fit: bool = true;
    for c in it: username.chars()
        invariant
            it.seq() == username@,
            all_fit <==> (forall|i: int|
                0 <= i < it.index() ==> is_username_char(#[trigger] username@[i])),
    {
        if !(('a' <= c && c <= 'z') || ('0' <= c && c <= '9') || c == '_') {
            all_fit = false;
        }
    }
    if all_fit {
        Ok(())
    } else {
        Err(CredentialError::UsernamePattern)
    }
}

/// Checks a password: 8 to 512 bytes, with at least one lowercase letter,
/// one uppercase letter and one digit among them.
pub fn password_validate(password: &str) -> (r: Result<(), CredentialError>)
    ensures
        r == password_verdict(password@),
{
    let n: usize = password.as_bytes().len();
    if n < 8 || n > 512 {
        return Err(CredentialError::PasswordLength);
    }
    let mut lower: bool = false;
    let mut upper: bool = false;
    let mut digit: bool = false;
    for c in it: password.chars()
        invariant
            it.seq() == password@,
            lower <==> has_lowercase(password@.take(it.index())),
            upper <==> has_uppercase(password@.take(it.index())),
            digit <==> has_digit(password@.take(it.index())),
    {
        proof {
            let k = it.index();
            lemma_classes_step(password@, k);
        }
        if 'a' <= c && c <= 'z' {
            lower = true;
        }
        if 'A' <= c && c <= 'Z' {
            upper = true;
        }
        if '0' <= c && c <= '9' {
            digit = true;
        }
    }
    assert(password@.take(password@.len() as int) == password@);
    if lower && upper && digit {
        Ok(())
    } else {
        Err(CredentialError::PasswordWeak)
    }
}

/// How the three character classes of a prefix grow with one more character.
proof fn lemma_classes_step(s: Seq<char>, k: int)
    requires
        0 <= k < s.len(),
    ensures
        has_lowercase(s.take(k + 1)) <==> has_lowercase(s.take(k)) || ('a' <= s[k] && s[k] <= 'z'),
        has_uppercase(s.take(k + 1)) <==> has_uppercase(s.take(k)) || ('A' <= s[k] && s[k] <= 'Z'),
        has_digit(s.take(k + 1)) <==> has_digit(s.take(k)) || ('0' <= s[k] && s[k] <= '9'),
{
    let a = s.take(k);
    let b = s.take(k + 1);
    assert(b[k] == s[k]);
    assert(forall|i: int| 0 <= i < k ==> a[i] == b[i]);
    if has_lowercase(a) {
        let i = choose|i: int| 0 <= i < a.len() && 'a' <= #[trigger] a[i] && a[i] <= 'z';
        assert('a' <= b[i] && b[i] <= 'z');
    }
    if has_uppercase(a) {
        let i = choose|i: int| 0 <= i < a.len() && 'A' <= #[trigger] a[i] && a[i] <= 'Z';
        assert('A' <= b[i] && b[i] <= 'Z');
    }
    if has_digit(a) {
        let i = choose|i: int| 0 <= i < a.len() && '0' <= #[trigger] a[i] && a[i] <= '9';
        assert('0' <= b[i] && b[i] <= '9');
    }
    if has_lowercase(b) {
        let i = choose|i: int| 0 <= i < b.len() && 'a' <= #[trigger] b[i] && b[i] <= 'z';
        assert(i < k ==> 'a' <= a[i] && a[i] <= 'z');
    }
    if has_uppercase(b) {
        let i = choose|i: int| 0 <= i < b.len() && 'A' <= #[trigger] b[i] && b[i] <= 'Z';
        assert(i < k ==> 'A' <= a[i] && a[i] <= 'Z');
    }
    if has_digit(b) {
        let i = choose|i: int| 0 <= i < b.len() && '0' <= #[trigger] b[i] && b[i] <= '9';
        assert(i < k ==> '0' <= a[i] && a[i] <= '9');
    }
}

/// Whether a text is an e-mail address by the rules of HTML forms: what the
/// e-mail check of the crate `validator` answers for it.
pub uninterp spec fn is_email(s: Seq<char>) -> bool;

/// Calls `validate_email`, a method of the trait `ValidateEmail` of the
/// crate `validator`, on the text. The answer depends on the text alone; the
/// contract gives it a name and says nothing more of it.
#[verifier::external_body]
fn email_is_valid(email: &str) -> (ok: bool)
    ensures
        ok == is_email(email@),
{
    validator::ValidateEmail::validate_email(&email)
}

/// A display name has 2 to 100 characters.
pub open spec fn name_ok(s: Seq<char>) -> bool {
    2 <= s.len() <= 100
}

/// An e-mail field has 5 to 100 characters.
pub open spec fn email_length_ok(s: Seq<char>) -> bool {
    5 <= s.len() <= 100
}

/// An e-mail field has 5 to 100 characters and is an e-mail address.
/// `is_address` says whether it is one.
pub open spec fn email_ok(s: Seq<char>, is_address: bool) -> bool {
    email_length_ok(s) && is_address
}

/// What is reported of an e-mail field that is refused.
pub open spec fn email_fault(s: Seq<char>, is_address: bool) -> Seq<char> {
    if !email_length_ok(s) && !is_address {
        "min=5, max=100, Validation error: email"@
    } else if !email_length_ok(s) {
        "min=5, max=100"@
    } else {
        "Validation error: email"@
    }
}

/// A report with one more line, `field: what`. Lines are parted by a newline.
pub open spec fn add_fault(report: Seq<char>, field: Seq<char>, what: Seq<char>) -> Seq<char> {
    if report.len() == 0 {
        field + ": "@ + what
    } else {
        report + "\n"@ + field + ": "@ + what
    }
}

/// The report after the name has been looked at.
pub open spec fn report_name(report: Seq<char>, name: Seq<char>) -> Seq<char> {
    if name_ok(name) {
        report
    } else {
        add_fault(report, "name"@, "min=2, max=100"@)
    }
}

/// The report after the username has been looked at.
pub open spec fn report_username(report: Seq<char>, username: Seq<char>) -> Seq<char> {
    match username_verdict(username) {
        Ok(_) => report,
        Err(e) => add_fault(report, "username"@, e.code_text()),
    }
}

/// The report after the password has been looked at.
pub open spec fn report_password(report: Seq<char>, password: Seq<char>) -> Seq<char> {
    match password_verdict(password) {
        Ok(_) => report,
        Err(e) => add_fault(report, "password"@, e.code_text()),
    }
}

/// The report after the e-mail address has been looked at.
pub open spec fn report_email(report: Seq<char>, email: Seq<char>, is_address: bool) -> Seq<
    char,
> {
    if email_ok(email, is_address) {
        report
    } else {
        add_fault(report, "email"@, email_fault(email, is_address))
    }
}

/// Appends the line `field: what` to a report.
fn push_fault(report: &mut String, field: &str, what: &str)
    ensures
        final(report)@ == add_fault(old(report)@, field@, what@),
{
    if !report.as_str().is_empty() {
        report.append("\n");
    }
    report.append(field);
    report.append(": ");
    report.append(what);
}

/// Looks at a display name and adds to the report what is wrong with it.
fn check_name(report: &mut String, name: &str) -> (ok: bool)
    ensures
        ok == name_ok(name@),
        final(report)@ == report_name(old(report)@, name@),
{
    let n: usize = name.unicode_len();
    if 2 <= n && n <= 100 {
        true
    } else {
        push_fault(report, "name", "min=2, max=100");
        false
    }
}

/// Looks at a username and adds to the report what is wrong with it.
fn check_username(report: &mut String, username: &str) -> (ok: bool)
    ensures
        ok == (username_verdict(username@) is Ok),
        final(report)@ == report_username(old(report)@, username@),
{
    match username_validate(username) {
        Ok(_) => true,
        Err(e) => {
            push_fault(report, "username", e.code());
            false
        },
    }
}

/// Looks at a password and adds to the report what is wrong with it.
fn check_password(report: &mut String, password: &str) -> (ok: bool)
    ensures
        ok == (password_verdict(password@) is Ok),
        final(report)@ == report_password(old(report)@, password@),
{
    match password_validate(password) {
        Ok(_) => true,
        Err(e) => {
            push_fault(report, "password", e.code());
            false
        },
    }
}

/// Looks at an e-mail field, given whether it is an e-mail address, and adds
/// to the report what is wrong with it.
fn check_email(report: &mut String, email: &str, shape_ok: bool) -> (ok: bool)
    ensures
        ok == email_ok(email@, shape_ok),
        final(report)@ == report_email(old(report)@, email@, shape_ok),
{
    let n: usize = email.unicode_len();
    let length_ok = 5 <= n && n <= 100;
    if length_ok && shape_ok {
        true
    } else {
        if !length_ok && !shape_ok {
            push_fault(report, "email", "min=5, max=100, Validation error: email");
        } else if !length_ok {
            push_fault(report, "email", "min=5, max=100");
        } else {
            push_fault(report, "email", "Validation error: email");
        }
        false
    }
}

impl CreateDto {
    /// Every field has the shape that registration asks for, given whether
    /// the e-mail field is an e-mail address.
    pub open spec fn valid_with(&self, is_address: bool) -> bool {
        &&& name_ok(self.name@)
        &&& username_verdict(self.username@) is Ok
        &&& password_verdict(self.password@) is Ok
        &&& email_ok(self.email@, is_address)
    }

    /// One line for each field that is refused, in the order name, username,
    /// password, email, given whether the e-mail field is an e-mail address.
    pub open spec fn faults_with(&self, is_address: bool) -> Seq<char> {
        report_email(
            report_password(
                report_username(report_name(Seq::empty(), self.name@), self.username@),
                self.password@,
            ),
            self.email@,
            is_address,
        )
    }

    /// Every field has the shape that registration asks for.
    pub open spec fn valid(&self) -> bool {
        self.valid_with(is_email(self.email@))
    }

    /// One line for each field that is refused, in the order name, username,
    /// password, email.
    pub open spec fn faults(&self) -> Seq<char> {
        self.faults_with(is_email(self.email@))
    }

    /// Checks every field, given whether the e-mail field is an e-mail
    /// address, and reports all that are refused.
    pub fn validate_with(&self, is_address: bool) -> (r: Result<(), String>)
        ensures
            r is Ok <==> self.valid_with(is_address),
            r matches Err(report) ==> report@ == self.faults_with(is_address),
    {
        let mut report = String::new();
        let name_fine = check_name(&mut report, self.name.as_str());
        let username_fine = check_username(&mut report, self.username.as_str());
        let password_fine = check_password(&mut report, self.password.as_str());
        let email_fine = check_email(&mut report, self.email.as_str(), is_address);
        if name_fine && username_fine && password_fine && email_fine {
            Ok(())
        } else {
            Err(report)
        }
    }

    /// Checks every field and reports all that are refused.
    pub fn validate(&self) -> (r: Result<(), String>)
        ensures
            r is Ok <==> self.valid(),
            r matches Err(report) ==> report@ == self.faults(),
    {
        self.validate_with(email_is_valid(self.email.as_str()))
    }
}

impl LoginDto {
    /// Both credentials have the shape that the rules ask for.
    pub open spec fn valid(&self) -> bool {
        &&& username_verdict(self.username@) is Ok
        &&& password_verdict(self.password@) is Ok
    }

    /// One line for each credential that is refused, the username first.
    pub open spec fn faults(&self) -> Seq<char> {
        report_password(report_username(Seq::empty(), self.username@), self.password@)
    }

    /// Checks the shape of both credentials and reports all that are refused.
    pub fn validate(&self) -> (r: Result<(), String>)
        ensures
            r is Ok <==> self.valid(),
            r matches Err(report) ==> report@ == self.faults(),
    {
        let mut report = String::new();
        let username_fine = check_username(&mut report, self.username.as_str());
        let password_fine = check_password(&mut report, self.password.as_str());
        if username_fine && password_fine {
            Ok(())
        } else {
            Err(report)
        }
    }
}

impl UpdateInfoDto {
    /// Every field that is given has the shape that registration asks for,
    /// given whether the e-mail field is an e-mail address.
    pub open spec fn valid_with(&self, is_address: bool) -> bool {
        &&& self.name matches Some(name) ==> name_ok(name@)
        &&& self.username matches Some(username) ==> username_verdict(username@) is Ok
        &&& self.email matches Some(email) ==> email_ok(email@, is_address)
    }

    /// One line for each given field that is refused, in the order name,
    /// username, email, given whether the e-mail field is an e-mail address.
    pub open spec fn faults_with(&self, is_address: bool) -> Seq<char> {
        let after_name = match self.name {
            Some(name) => report_name(Seq::empty(), name@),
            None => Seq::empty(),
        };
        let after_username = match self.username {
            Some(username) => report_username(after_name, username@),
            None => after_name,
        };
        match self.email {
            Some(email) => report_email(after_username, email@, is_address),
            None => after_username,
        }
    }

    /// Whether the e-mail field, where it is given, is an e-mail address.
    pub open spec fn email_is_address(&self) -> bool {
        match self.email {
            Some(email) => is_email(email@),
            None => true,
        }
    }

    /// Every field that is given has the shape that registration asks for.
    pub open spec fn valid(&self) -> bool {
        self.valid_with(self.email_is_address())
    }

    /// One line for each given field that is refused, in the order name,
    /// username, email.
    pub open spec fn faults(&self) -> Seq<char> {
        self.faults_with(self.email_is_address())
    }

    /// No field is given, so the change asks for nothing.
    pub open spec fn gives_nothing(&self) -> bool {
        self.name is None && self.username is None && self.email is None && self.gender is None
    }

    /// Whether no field is given, so that the change asks for nothing.
    pub fn is_empty(&self) -> (empty: bool)
        ensures
            empty == self.gives_nothing(),
    {
        self.name.is_none() && self.username.is_none() && self.email.is_none()
            && self.gender.is_none()
    }

    /// Checks every given field, given whether the e-mail field is an e-mail
    /// address, and reports all that are refused.
    pub fn validate_with(&self, is_address: bool) -> (r: Result<(), String>)
        ensures
            r is Ok <==> self.valid_with(is_address),
            r matches Err(report) ==> report@ == self.faults_with(is_address),
    {
        let mut report = String::new();
        let name_fine = match &self.name {
            Some(name) => check_name(&mut report, name.as_str()),
            None => true,
        };
        let username_fine = match &self.username {
            Some(username) => check_username(&mut report, username.as_str()),
            None => true,
        };
        let email_fine = match &self.email {
            Some(email) => check_email(&mut report, email.as_str(), is_address),
            None => true,
        };
        if name_fine && username_fine && email_fine {
            Ok(())
        } else {
            Err(report)
        }
    }

    /// Checks every given field and reports all that are refused.
    pub fn validate(&self) -> (r: Result<(), String>)
        ensures
            r is Ok <==> self.valid(),
            r matches Err(report) ==> report@ == self.faults(),
    {
        let is_address = match &self.email {
            Some(email) => email_is_valid(email.as_str()),
            None => true,
        };
        self.validate_with(is_address)
    }
}

/// A text takes at least one byte for each of its characters.
pub proof fn lemma_byte_len_at_least_chars(s: Seq<char>)
    ensures
        byte_len(s) >= s.len(),
    decreases s.len(),
{
    if s.len() > 0 {
        lemma_byte_len_at_least_chars(s.drop_first());
    }
}

/// A text whose characters all may stand in a username takes one byte for
/// each of them.
pub proof fn lemma_username_alphabet_bytes(s: Seq<char>)
    requires
        username_alphabet(s),
    ensures
        byte_len(s) == s.len(),
{
    assert(vstd::utf8::is_ascii_chars(s));
    vstd::utf8::is_ascii_chars_encode_utf8(s);
}

/// The username rule accepts exactly the texts of 3 to 50 characters that are
/// all drawn from `a`-`z`, `0`-`9` and `_`.
pub proof fn lemma_username_accepted_iff(s: Seq<char>)
    ensures
        username_verdict(s) is Ok <==> 3 <= s.len() <= 50 && username_alphabet(s),
{
    if username_alphabet(s) {
        lemma_username_alphabet_bytes(s);
    }
}

/// The password rule accepts every text of 8 to 512 bytes that holds a
/// lowercase letter, an uppercase letter and a digit, and refuses every text
/// that lacks one of the three, whatever its length. A text of at least 8
/// characters has at least 8 bytes.
pub proof fn lemma_password_accepted_iff(s: Seq<char>)
    ensures
        password_verdict(s) is Ok <==> 8 <= byte_len(s) <= 512 && has_lowercase(s)
            && has_uppercase(s) && has_digit(s),
        !has_lowercase(s) || !has_uppercase(s) || !has_digit(s) ==> password_verdict(s) is Err,
        s.len() >= 8 && byte_len(s) <= 512 && has_lowercase(s) && has_uppercase(s) && has_digit(
            s,
        ) ==> password_verdict(s) is Ok,
{
    lemma_byte_len_at_least_chars(s);
}

/// Of a text in ASCII the password rule counts the characters: it accepts
/// exactly the texts of 8 to 512 characters that hold a lowercase letter, an
/// uppercase letter and a digit.
pub proof fn lemma_password_accepted_iff_ascii(s: Seq<char>)
    requires
        vstd::utf8::is_ascii_chars(s),
    ensures
        byte_len(s) == s.len(),
        password_verdict(s) is Ok <==> 8 <= s.len() <= 512 && has_lowercase(s) && has_uppercase(
            s,
        ) && has_digit(s),
{
    vstd::utf8::is_ascii_chars_encode_utf8(s);
}

} // verus!
