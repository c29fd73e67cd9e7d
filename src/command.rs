//! The checks a terminal command passes before it is run: a command that is
//! not blank, free of shell operators, with well-formed environment names.

use vstd::prelude::*;

verus! {

/// Unicode's White_Space property: its 25 code points.
pub open spec fn unicode_whitespace(c: char) -> bool {
    ('\u{9}' <= c <= '\u{d}') || c == ' ' || c == '\u{85}' || c == '\u{a0}' || c == '\u{1680}'
        || ('\u{2000}' <= c <= '\u{200a}') || c == '\u{2028}' || c == '\u{2029}' || c == '\u{202f}'
        || c == '\u{205f}' || c == '\u{3000}'
}

/// Unicode's Alphabetic or Numeric property.
pub uninterp spec fn unicode_alphanumeric(c: char) -> bool;

/// Whether the character has Unicode's White_Space property.
fn is_whitespace(c: char) -> (r: bool)
    ensures
        r == unicode_whitespace(c),
{
    ('\u{9}' <= c && c <= '\u{d}') || c == ' ' || c == '\u{85}' || c == '\u{a0}' || c == '\u{1680}'
        || ('\u{2000}' <= c && c <= '\u{200a}') || c == '\u{2028}' || c == '\u{2029}' || c
        == '\u{202f}' || c == '\u{205f}' || c == '\u{3000}'
}

/// Relies on char::is_alphanumeric: whether the character is alphabetic or
/// numeric in Unicode's sense, which depends on the character alone.
#[verifier::external_body]
fn is_alphanumeric(c: char) -> (r: bool)
    ensures
        r == unicode_alphanumeric(c),
{
    c.is_alphanumeric()
}

/// The characters that would let a shell chain or redirect commands.
pub open spec fn is_shell_operator(c: char) -> bool {
    c == '|' || c == ';' || c == '&' || c == '>' || c == '<' || c == '`' || c == '$' || c == '('
        || c == ')'
}

/// A command made of white space only, or of nothing.
pub open spec fn is_blank(s: Seq<char>) -> bool {
    forall|i: int| 0 <= i < s.len() ==> unicode_whitespace(#[trigger] s[i])
}

pub open spec fn has_shell_operator(s: Seq<char>) -> bool {
    exists|i: int| 0 <= i < s.len() && is_shell_operator(#[trigger] s[i])
}

/// An environment name of letters, digits and `_` only.
pub open spec fn is_env_name(s: Seq<char>) -> bool {
    forall|i: int| 0 <= i < s.len() ==> unicode_alphanumeric(#[trigger] s[i]) || s[i] == '_'
}

/// Why a command is refused.
#[derive(Debug, Clone, PartialEq, Eq)]
pub enum CommandRejection {
    Empty,
    DangerousCharacters,
    InvalidEnvName(String),
}

impl CommandRejection {
    /// The message shown for this refusal.
    pub fn message(&self) -> (r: String)
        ensures
            self is Empty ==> r@ == "Command cannot be empty"@,
            self is DangerousCharacters ==> r@ == "Command contains potentially dangerous characters. RuneBook executes commands directly without shell interpretation for security."@,
            self matches CommandRejection::InvalidEnvName(k) ==> r@ == "Invalid environment variable name: "@ + k@,
    {
        match self {
            CommandRejection::Empty => "Command cannot be empty".to_string(),
            CommandRejection::DangerousCharacters => "Command contains potentially dangerous characters. RuneBook executes commands directly without shell interpretation for security.".to_string(),
            CommandRejection::InvalidEnvName(k) => {
                let mut m = "Invalid environment variable name: ".to_string();
                m.append(k.as_str());
                m
            },
        }
    }
}

fn blank(s: &str) -> (r: bool)
    ensures
        r == is_blank(s@),
{
    let n = s.unicode_len();
    let mut i: usize = 0;
    while i < n
        invariant
            n == s@.len(),
            i <= n,
            forall|k: int| 0 <= k < i ==> unicode_whitespace(#[trigger] s@[k]),
        decreases n - i,
    {
        if !is_whitespace(s.get_char(i)) {
            return false;
        }
        i = i + 1;
    }
    true
}

fn shell_operator_in(s: &str) -> (r: bool)
    ensures
        r == has_shell_operator(s@),
{
    let n = s.unicode_len();
    let mut i: usize = 0;
    while i < n
        invariant
            n == s@.len(),
            i <= n,
            forall|k: int| 0 <= k < i ==> !is_shell_operator(#[trigger] s@[k]),
        decreases n - i,
    {
        let c = s.get_char(i);
        if c == '|' || c == ';' || c == '&' || c == '>' || c == '<' || c == '`' || c == '$' || c
            == '(' || c == ')' {
            return true;
        }
        i = i + 1;
    }
    false
}

fn env_name(s: &str) -> (r: bool)
    ensures
        r == is_env_name(s@),
{
    let n = s.unicode_len();
    let mut i: usize = 0;
    while i < n
        invariant
            n == s@.len(),
            i <= n,
            forall|k: int| 0 <= k < i ==> unicode_alphanumeric(#[trigger] s@[k]) || s@[k] == '_',
        decreases n - i,
    {
        let c = s.get_char(i);
        if !(is_alphanumeric(c) || c == '_') {
            return false;
        }
        i = i + 1;
    }
    true
}

/// Checks a command and the names of its environment variables, in this
/// order: a blank command, then a shell operator in it, then the first name
/// that is not made of letters, digits and `_`.
pub fn validate_command(command: &str, env_names: &Vec<String>) -> (r: Result<(), CommandRejection>)
    ensures
        is_blank(command@) ==> r == Err::<(), CommandRejection>(CommandRejection::Empty),
        !is_blank(command@) && has_shell_operator(command@) ==> r == Err::<(), CommandRejection>(
            CommandRejection::DangerousCharacters,
        ),
        !is_blank(command@) && !has_shell_operator(command@) ==> match r {
            Ok(()) => forall|k: int| 0 <= k < env_names@.len() ==> is_env_name(#[trigger] env_names@[k]@),
            Err(CommandRejection::InvalidEnvName(name)) => exists|k: int|
                0 <= k < env_names@.len() && env_names@[k] == name && !is_env_name(name@) && forall|j: int|
                    0 <= j < k ==> is_env_name(#[trigger] env_names@[j]@),
            Err(_) => false,
        },
{
    if blank(command) {
        return Err(CommandRejection::Empty);
    }
    if shell_operator_in(command) {
        return Err(CommandRejection::DangerousCharacters);
    }
    let mut i: usize = 0;
    while i < env_names.len()
        invariant
            !is_blank(command@),
            !has_shell_operator(command@),
            i <= env_names@.len(),
            forall|j: int| 0 <= j < i ==> is_env_name(#[trigger] env_names@[j]@),
        decreases env_names@.len() - i,
    {
        if !env_name(env_names[i].as_str()) {
            return Err(CommandRejection::InvalidEnvName(env_names[i].clone()));
        }
        i = i + 1;
    }
    Ok(())
}

} // verus!
