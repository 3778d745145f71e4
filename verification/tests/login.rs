use x11lock::auth::{
    authenticate, env_username, passwd_username, select_message, AuthResult, ConvError,
    PamFailure, PasswdLookup, PasswordConv, UsernameError, PAM_SERVICE,
};
use x11lock::text::{contains_nul, is_blank, join};

fn some(s: &str) -> Option<String> {
    Some(s.to_string())
}

fn failure(message: Option<&str>, description: &str) -> Result<(), PamFailure> {
    Err(PamFailure {
        message: message.map(|m| m.to_string()),
        description: description.to_string(),
    })
}

fn reason(result: AuthResult) -> String {
    match result {
        AuthResult::Failure(message) => message,
        AuthResult::Success => panic!("login succeeded"),
    }
}

fn conversation(messages: &[&[u8]]) -> PasswordConv {
    let mut conv = PasswordConv::new("alice".to_string(), "secret");
    for message in messages {
        conv.text_info(message);
    }
    conv
}

#[test]
fn service_is_system_auth() {
    assert_eq!(PAM_SERVICE, "system-auth");
}

#[test]
fn user_comes_before_logname() {
    assert_eq!(env_username(some("alice"), some("bob")), some("alice"));
    assert_eq!(env_username(some(""), some("bob")), some("bob"));
    assert_eq!(env_username(None, some("bob")), some("bob"));
    assert_eq!(env_username(some("alice"), None), some("alice"));
    assert_eq!(env_username(some(""), some("")), None);
    assert_eq!(env_username(None, None), None);
}

#[test]
fn password_database_names_the_user() {
    assert_eq!(passwd_username(PasswdLookup::Found("carol".to_string())), Ok("carol".to_string()));
    assert_eq!(passwd_username(PasswdLookup::Missing), Err(UsernameError::Missing));
    assert_eq!(passwd_username(PasswdLookup::Unreadable), Err(UsernameError::Unreadable));
}

#[test]
fn prompts_are_answered() {
    let conv = conversation(&[]);
    assert_eq!(conv.prompt_echo_on(), Ok("alice"));
    assert_eq!(conv.prompt_echo_off(), Ok("secret"));
}

#[test]
fn nul_cannot_be_sent() {
    let conv = PasswordConv::new("al\0ice".to_string(), "sec\0ret");
    assert_eq!(conv.prompt_echo_on(), Err(ConvError));
    assert_eq!(conv.prompt_echo_off(), Err(ConvError));
    assert!(contains_nul("\0"));
    assert!(contains_nul("a\0"));
    assert!(!contains_nul("a0"));
    assert!(!contains_nul(""));
}

#[test]
fn granted_login_succeeds() {
    assert!(matches!(authenticate(Ok(()), &conversation(&[b"hello"])), AuthResult::Success));
}

#[test]
fn conversation_message_comes_first() {
    let mut conv = conversation(&[b"one"]);
    conv.error_msg(b"two");
    assert_eq!(reason(authenticate(failure(Some("pam"), "error"), &conv)), "one two");
}

#[test]
fn pam_message_comes_second() {
    let conv = conversation(&[]);
    assert_eq!(reason(authenticate(failure(Some("pam"), "error"), &conv)), "pam");
    let blank = conversation(&[b"", b" \t", b"\xc2\xa0"]);
    assert_eq!(reason(authenticate(failure(Some(" pam "), "error"), &blank)), " pam ");
}

#[test]
fn error_comes_last() {
    let conv = conversation(&[b"  "]);
    assert_eq!(reason(authenticate(failure(None, "error"), &conv)), "error");
    assert_eq!(reason(authenticate(failure(Some("\n"), "error"), &conv)), "error");
    assert_eq!(reason(authenticate(failure(Some(""), ""), &conv)), "");
}

#[test]
fn messages_that_are_not_utf8_are_dropped() {
    let conv = conversation(&[b"\xff\xfe", "gr\u{fc}n".as_bytes(), b"\xc3"]);
    assert_eq!(reason(authenticate(failure(Some("pam"), "error"), &conv)), "gr\u{fc}n");
}

#[test]
fn message_is_selected_by_blankness() {
    let pick = |conv_blank: bool, pam_blank: bool| {
        select_message("c".to_string(), conv_blank, "p".to_string(), pam_blank, "d".to_string())
    };
    assert_eq!(pick(false, false), "c");
    assert_eq!(pick(false, true), "c");
    assert_eq!(pick(true, false), "p");
    assert_eq!(pick(true, true), "d");
}

#[test]
fn blank_agrees_with_trim() {
    for text in ["", " ", "\t\r\n", "a", " a ", "\u{a0}\u{3000}", "\u{200b}", "\u{2003}x"] {
        assert_eq!(is_blank(text), text.trim().is_empty());
    }
    assert!(is_blank(" \u{a0}"));
    assert!(!is_blank(" ."));
}

#[test]
fn white_space_is_what_unicode_says() {
    let listed = |c: char| {
        matches!(
            c,
            '\u{9}'..='\u{d}'
                | '\u{20}'
                | '\u{85}'
                | '\u{a0}'
                | '\u{1680}'
                | '\u{2000}'..='\u{200a}'
                | '\u{2028}'..='\u{2029}'
                | '\u{202f}'
                | '\u{205f}'
                | '\u{3000}'
        )
    };
    let mut buf = [0u8; 4];
    for c in '\0'..=char::MAX {
        assert_eq!(is_blank(c.encode_utf8(&mut buf)), listed(c));
    }
}

#[test]
fn join_puts_the_separator_between() {
    let list = |parts: &[&str]| parts.iter().map(|p| p.to_string()).collect::<Vec<String>>();
    assert_eq!(join(&list(&[]), " "), "");
    assert_eq!(join(&list(&["a"]), " "), "a");
    assert_eq!(join(&list(&["a", "", "b"]), " "), "a  b");
    assert_eq!(join(&list(&["", ""]), ", "), ", ");
}
