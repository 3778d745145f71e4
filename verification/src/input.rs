//! The password prompt: what has been typed and what the user is shown of it.
use vstd::prelude::*;

use crate::keysyms;
use crate::text;

verus! {

/// What the prompt looks like.
#[derive(Debug, Clone, Copy, PartialEq, Eq, Structural)]
pub enum LockState {
    /// Nothing has been typed.
    Idle,
    /// Something has been typed.
    Typing,
    /// The last login was refused.
    Error,
}

/// Whether a message stands below the prompt.
#[derive(Debug, Clone, Copy, PartialEq, Eq, Structural)]
pub enum AuthFeedback {
    /// No message.
    Nothing,
    /// The reason why the last login was refused.
    Message,
}

/// What a pressed key asks for.
#[derive(Debug, Clone, Copy, PartialEq, Eq, Structural)]
pub enum Key {
    /// Log in with what has been typed.
    Submit,
    /// Take the last character back.
    Erase,
    /// Take everything back, leaving no trace of it in memory.
    Wipe,
    /// Take everything back.
    Clear,
    /// Type a character.
    Type(char),
    /// Nothing.
    Ignore,
}

/// What follows from a pressed key.
#[derive(Debug, Clone, Copy, PartialEq, Eq, Structural)]
pub enum KeyOutcome {
    /// The login is to be tried.
    Submit,
    /// The prompt has changed and is to be drawn again.
    Redraw,
    /// Nothing has changed.
    Ignore,
}

/// The contents of a prompt.
#[verifier::ext_equal]
pub struct InputView {
    pub password: Seq<char>,
    pub state: LockState,
    pub feedback: AuthFeedback,
    pub message: Option<Seq<char>>,
}

/// What the key of `keysym` asks for while `modifiers` are held. Enter, the
/// erasing keys and Escape come before Ctrl+Alt+U, which comes before the
/// printable characters.
pub open spec fn key_meaning(keysym: u32, modifiers: u16) -> Key {
    if keysym == keysyms::KEY_ENTER || keysym == keysyms::KEY_KP_ENTER {
        Key::Submit
    } else if keysym == keysyms::KEY_BACKSPACE || keysym == keysyms::KEY_DELETE {
        Key::Erase
    } else if keysym == keysyms::KEY_ESCAPE {
        Key::Wipe
    } else if keysyms::ctrl_alt_key(modifiers, keysym, keysyms::KEY_U) {
        Key::Clear
    } else if keysyms::printable_ascii(keysym) {
        Key::Type(keysym as char)
    } else {
        Key::Ignore
    }
}

/// What follows from a key: only a key that asks for nothing is passed over.
pub open spec fn key_outcome(key: Key) -> KeyOutcome {
    match key {
        Key::Submit => KeyOutcome::Submit,
        Key::Ignore => KeyOutcome::Ignore,
        _ => KeyOutcome::Redraw,
    }
}

/// Whether a character can be typed.
pub open spec fn typeable(c: char) -> bool {
    ' ' <= c <= '~'
}

/// The look of a prompt that holds `password` and that no refusal precedes.
pub open spec fn prompt(password: Seq<char>) -> InputView {
    InputView {
        password,
        state: if password.len() == 0 {
            LockState::Idle
        } else {
            LockState::Typing
        },
        feedback: AuthFeedback::Nothing,
        message: None,
    }
}

impl InputView {
    /// The prompt once a key has been pressed. Every key that edits the password
    /// takes the last refusal off the screen; Enter and unknown keys edit nothing.
    pub open spec fn after_key(self, key: Key) -> InputView {
        match key {
            Key::Submit | Key::Ignore => self,
            Key::Erase => prompt(
                if self.password.len() == 0 {
                    self.password
                } else {
                    self.password.drop_last()
                },
            ),
            Key::Wipe | Key::Clear => prompt(Seq::empty()),
            Key::Type(c) => prompt(self.password.push(c)),
        }
    }

    /// The prompt once keys have been pressed one after the other.
    pub open spec fn after_keys(self, keys: Seq<Key>) -> InputView
        decreases keys.len(),
    {
        if keys.len() == 0 {
            self
        } else {
            self.after_keys(keys.drop_last()).after_key(keys.last())
        }
    }

    /// The prompt once its password has been taken out to log in with.
    pub open spec fn submitted(self) -> InputView {
        InputView { password: Seq::empty(), ..self }
    }

    /// The prompt once a login was refused for the reason `message`.
    pub open spec fn refused(self, message: Seq<char>) -> InputView {
        InputView {
            password: self.password,
            state: LockState::Error,
            feedback: AuthFeedback::Message,
            message: Some(message),
        }
    }

    /// A message stands below the prompt exactly while it shows a refusal, and
    /// only characters that can be typed are in the password.
    pub open spec fn sound(self) -> bool {
        &&& forall|i: int| 0 <= i < self.password.len() ==> typeable(#[trigger] self.password[i])
        &&& self.feedback is Message <==> self.state is Error
        &&& self.message is Some <==> self.state is Error
    }

    /// Besides, the prompt shows typing exactly while it holds something.
    pub open spec fn settled(self) -> bool {
        &&& self.sound()
        &&& self.state is Typing <==> self.password.len() > 0
    }
}

/// The password prompt.
pub struct Input {
    password_buf: String,
    state: LockState,
    auth_feedback: AuthFeedback,
    auth_message: Option<String>,
}

impl View for Input {
    type V = InputView;

    closed spec fn view(&self) -> InputView {
        InputView {
            password: self.password_buf@,
            state: self.state,
            feedback: self.auth_feedback,
            message: match self.auth_message {
                Some(m) => Some(m@),
                None => None,
            },
        }
    }
}

/// Finds out what a pressed key asks for.
pub fn classify_key(keysym: u32, modifiers: u16) -> (res: Key)
    ensures
        res == key_meaning(keysym, modifiers),
{
    match keysym {
        keysyms::KEY_ENTER | keysyms::KEY_KP_ENTER => Key::Submit,
        keysyms::KEY_BACKSPACE | keysyms::KEY_DELETE => Key::Erase,
        keysyms::KEY_ESCAPE => Key::Wipe,
        _ => {
            if keysyms::is_ctrl_alt_key(modifiers, keysym, keysyms::KEY_U) {
                Key::Clear
            } else if keysyms::is_printable_ascii(keysym) {
                match char::from_u32(keysym) {
                    Some(ch) => Key::Type(ch),
                    None => Key::Ignore,
                }
            } else {
                Key::Ignore
            }
        },
    }
}

impl Input {
    /// An empty prompt.
    pub fn new() -> (res: Self)
        ensures
            res@ == prompt(Seq::empty()),
    {
        Input {
            password_buf: String::new(),
            state: LockState::Idle,
            auth_feedback: AuthFeedback::Nothing,
            auth_message: None,
        }
    }

    /// Takes the message below the prompt away.
    fn clear_feedback(&mut self)
        ensures
            final(self)@ == (InputView {
                feedback: AuthFeedback::Nothing,
                message: None,
                ..old(self)@
            }),
    {
        self.auth_feedback = AuthFeedback::Nothing;
        self.auth_message = None;
    }

    /// Changes the look of the prompt.
    fn set_state(&mut self, state: LockState)
        ensures
            final(self)@ == (InputView { state, ..old(self)@ }),
    {
        self.state = state;
    }

    /// Handles a pressed key, once its symbol is known.
    pub fn handle_key_press(&mut self, keysym: u32, modifiers: u16) -> (res: KeyOutcome)
        ensures
            res == key_outcome(key_meaning(keysym, modifiers)),
            final(self)@ == old(self)@.after_key(key_meaning(keysym, modifiers)),
    {
        match classify_key(keysym, modifiers) {
            Key::Submit => KeyOutcome::Submit,
            Key::Erase => {
                let _ = self.password_buf.pop();
                self.clear_feedback();
                let new_state = if self.password_buf.as_str().is_empty() {
                    LockState::Idle
                } else {
                    LockState::Typing
                };
                self.set_state(new_state);
                KeyOutcome::Redraw
            },
            Key::Wipe => {
                text::wipe(&mut self.password_buf);
                self.clear_feedback();
                self.set_state(LockState::Idle);
                KeyOutcome::Redraw
            },
            Key::Clear => {
                self.password_buf.clear();
                self.clear_feedback();
                self.set_state(LockState::Idle);
                KeyOutcome::Redraw
            },
            Key::Type(ch) => {
                self.password_buf.push(ch);
                self.clear_feedback();
                self.set_state(LockState::Typing);
                KeyOutcome::Redraw
            },
            Key::Ignore => KeyOutcome::Ignore,
        }
    }

    /// Takes the password out to log in with it, wiping it from the prompt.
    pub fn submit(&mut self) -> (res: String)
        ensures
            res@ == old(self)@.password,
            final(self)@ == old(self)@.submitted(),
    {
        let password = self.password_buf.clone();
        text::wipe(&mut self.password_buf);
        password
    }

    /// Shows why a login was refused.
    pub fn refuse(&mut self, message: String)
        ensures
            final(self)@ == old(self)@.refused(message@),
    {
        self.auth_feedback = AuthFeedback::Message;
        self.auth_message = Some(message);
        self.set_state(LockState::Error);
    }

    /// What the prompt looks like.
    pub fn state(&self) -> (res: LockState)
        ensures
            res == self@.state,
    {
        self.state
    }

    /// Whether a message stands below the prompt.
    pub fn auth_feedback(&self) -> (res: AuthFeedback)
        ensures
            res == self@.feedback,
    {
        self.auth_feedback
    }

    /// The message below the prompt.
    pub fn auth_message(&self) -> (res: Option<&str>)
        ensures
            res matches Some(m) ==> self@.message == Some(m@),
            res is None ==> self@.message is None,
    {
        match &self.auth_message {
            Some(m) => Some(m.as_str()),
            None => None,
        }
    }

    /// The length of the password in bytes.
    pub fn password_len(&self) -> (res: usize)
        ensures
            res == vstd::utf8::encode_utf8(self@.password).len(),
    {
        self.password_buf.as_str().as_bytes().len()
    }
}

} // verus!
