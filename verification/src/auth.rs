//! Logging in: who is asked for, what PAM is told and what its answer means.
use vstd::prelude::*;

use crate::text;

verus! {

/// The PAM service that logs users in.
pub const PAM_SERVICE: &'static str = "system-auth";

/// What came of a login.
#[derive(Debug)]
pub enum AuthResult {
    /// The password is right.
    Success,
    /// The login was refused, for the reason given.
    Failure(String),
}

/// Why PAM refused a login.
#[derive(Debug)]
pub struct PamFailure {
    /// What PAM says of its error code, if anything.
    pub message: Option<String>,
    /// The error as it prints.
    pub description: String,
}

/// What the password database says of the user that runs the locker.
#[derive(Debug)]
pub enum PasswdLookup {
    /// It could not be read.
    Unreadable,
    /// It does not list the user.
    Missing,
    /// It lists the user under this name.
    Found(String),
}

/// Why the name of the user is not known.
#[derive(Debug, Clone, Copy, PartialEq, Eq, Structural)]
pub enum UsernameError {
    /// The password database could not be read.
    Unreadable,
    /// The password database does not list the user.
    Missing,
}

/// A reply to PAM that cannot be given, since it holds the character NUL.
#[derive(Debug, Clone, Copy, PartialEq, Eq, Structural)]
pub struct ConvError;

/// The first of two texts that is there and not empty.
pub open spec fn first_set(user: Option<String>, logname: Option<String>) -> Option<Seq<char>> {
    if user is Some && user->0@.len() > 0 {
        Some(user->0@)
    } else if logname is Some && logname->0@.len() > 0 {
        Some(logname->0@)
    } else {
        None
    }
}

/// The name that the environment gives the user: `USER`, or `LOGNAME` where that
/// is unset or empty. `None` says that the password database has to be asked.
pub fn env_username(user: Option<String>, logname: Option<String>) -> (res: Option<String>)
    ensures
        res is Some <==> first_set(user, logname) is Some,
        res matches Some(name) ==> first_set(user, logname) == Some(name@),
{
    if let Some(name) = user {
        if !name.as_str().is_empty() {
            return Some(name);
        }
    }
    if let Some(name) = logname {
        if !name.as_str().is_empty() {
            return Some(name);
        }
    }
    None
}

/// The name that the password database gives the user.
pub fn passwd_username(lookup: PasswdLookup) -> (res: Result<String, UsernameError>)
    ensures
        match lookup {
            PasswdLookup::Unreadable => res == Err::<String, _>(UsernameError::Unreadable),
            PasswdLookup::Missing => res == Err::<String, _>(UsernameError::Missing),
            PasswdLookup::Found(name) => res is Ok && res->Ok_0@ == name@,
        },
{
    match lookup {
        PasswdLookup::Unreadable => Err(UsernameError::Unreadable),
        PasswdLookup::Missing => Err(UsernameError::Missing),
        PasswdLookup::Found(name) => Ok(name),
    }
}

/// What is said in a conversation with PAM.
#[verifier::ext_equal]
pub struct ConvView {
    pub username: Seq<char>,
    pub password: Seq<char>,
    pub messages: Seq<Seq<char>>,
}

/// A conversation with PAM, which asks for the name and the password of the user
/// and leaves messages.
pub struct PasswordConv {
    username: String,
    password: String,
    messages: Vec<String>,
}

impl View for PasswordConv {
    type V = ConvView;

    closed spec fn view(&self) -> ConvView {
        ConvView {
            username: self.username@,
            password: self.password@,
            messages: text::texts(self.messages@),
        }
    }
}

/// The messages once PAM has left `msg`: text that is not UTF-8 is dropped.
pub open spec fn with_message(messages: Seq<Seq<char>>, msg: Seq<u8>) -> Seq<Seq<char>> {
    if vstd::utf8::valid_utf8(msg) {
        messages.push(vstd::utf8::decode_utf8(msg))
    } else {
        messages
    }
}

/// A text as a reply to PAM: one with a NUL in it cannot be sent.
fn reply(s: &String) -> (res: Result<&str, ConvError>)
    ensures
        res is Err <==> s@.contains('\0'),
        res matches Ok(r) ==> r@ == s@,
{
    if text::contains_nul(s.as_str()) {
        Err(ConvError)
    } else {
        Ok(s.as_str())
    }
}

impl PasswordConv {
    /// A conversation in which nothing has been said yet.
    pub fn new(username: String, password: &str) -> (res: Self)
        ensures
            res@ == (ConvView {
                username: username@,
                password: password@,
                messages: Seq::empty(),
            }),
    {
        let res = PasswordConv { username, password: password.to_owned(), messages: Vec::new() };
        assert(res@.messages =~= Seq::empty());
        res
    }

    /// The reply to a question whose answer may be shown: the user's name.
    pub fn prompt_echo_on(&self) -> (res: Result<&str, ConvError>)
        ensures
            res is Err <==> self@.username.contains('\0'),
            res matches Ok(r) ==> r@ == self@.username,
    {
        reply(&self.username)
    }

    /// The reply to a question whose answer stays hidden: the password.
    pub fn prompt_echo_off(&self) -> (res: Result<&str, ConvError>)
        ensures
            res is Err <==> self@.password.contains('\0'),
            res matches Ok(r) ==> r@ == self@.password,
    {
        reply(&self.password)
    }

    /// Takes note of an information that PAM gives.
    pub fn text_info(&mut self, msg: &[u8])
        ensures
            final(self)@ == (ConvView {
                messages: with_message(old(self)@.messages, msg@),
                ..old(self)@
            }),
    {
        self.push_message(msg);
    }

    /// Takes note of an error that PAM reports.
    pub fn error_msg(&mut self, msg: &[u8])
        ensures
            final(self)@ == (ConvView {
                messages: with_message(old(self)@.messages, msg@),
                ..old(self)@
            }),
    {
        self.push_message(msg);
    }

    fn push_message(&mut self, msg: &[u8])
        ensures
            final(self)@ == (ConvView {
                messages: with_message(old(self)@.messages, msg@),
                ..old(self)@
            }),
    {
        if let Ok(text) = core::str::from_utf8(msg) {
            proof {
                vstd::utf8::encode_utf8_decode_utf8(text@);
            }
            self.messages.push(text.to_owned());
            assert(self@.messages =~= old(self)@.messages.push(text@));
        }
    }
}

/// The reason that a refused login shows: what PAM said in the conversation,
/// else what it says of its error code, else the error itself. A text of white
/// space only counts as nothing said.
pub open spec fn failure_message(
    conv: Seq<char>,
    pam: Seq<char>,
    description: Seq<char>,
) -> Seq<char> {
    if !text::blank(conv) {
        conv
    } else if !text::blank(pam) {
        pam
    } else {
        description
    }
}

/// What PAM says of an error code, and nothing where it says nothing.
pub open spec fn pam_message(failure: PamFailure) -> Seq<char> {
    match failure.message {
        Some(m) => m@,
        None => Seq::empty(),
    }
}

/// Picks the reason to show from the three texts, given which of the first two
/// are blank.
pub fn select_message(
    conv: String,
    conv_blank: bool,
    pam: String,
    pam_blank: bool,
    description: String,
) -> (res: String)
    ensures
        res@ == (if !conv_blank {
            conv@
        } else if !pam_blank {
            pam@
        } else {
            description@
        }),
{
    if !conv_blank {
        conv
    } else if !pam_blank {
        pam
    } else {
        description
    }
}

/// Judges a login by PAM's answer and by what PAM said in the conversation.
pub fn authenticate(answer: Result<(), PamFailure>, conv: &PasswordConv) -> (res: AuthResult)
    ensures
        res is Success <==> answer is Ok,
        answer matches Err(failure) ==> res is Failure && res->Failure_0@ == failure_message(
            text::joined(conv@.messages, seq![' ']),
            pam_message(failure),
            failure.description@,
        ),
{
    match answer {
        Ok(()) => AuthResult::Success,
        Err(failure) => {
            let pam_message = match failure.message {
                Some(m) => m,
                None => String::new(),
            };
            proof {
                reveal_strlit(" ");
                assert(" "@ =~= seq![' ']);
            }
            let conv_msg = text::join(&conv.messages, " ");
            let conv_blank = text::is_blank(conv_msg.as_str());
            let pam_blank = text::is_blank(pam_message.as_str());
            AuthResult::Failure(
                select_message(conv_msg, conv_blank, pam_message, pam_blank, failure.description),
            )
        },
    }
}

} // verus!
