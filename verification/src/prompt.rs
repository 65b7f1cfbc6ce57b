//! What the prompts accept and what their answers mean.
use vstd::prelude::*;

use crate::kind::IdentityKind;
use crate::text::same;
use crate::validator::{email_address, is_valid_email};

verus! {

pub const MORE_OPTIONS_LABEL: &'static str = "More options...";

/// What came of a text prompt that also leads to other options.
#[derive(Debug, PartialEq, Eq)]
pub enum TextPromptResult {
    Submitted(String),
    MoreOptions,
}

/// A question mark asks for the other options.
pub fn text_prompt_result(answer: String) -> (r: TextPromptResult)
    ensures
        r == (if answer@ == "?"@ {
            TextPromptResult::MoreOptions
        } else {
            TextPromptResult::Submitted(answer)
        }),
{
    if same(&answer, "?") {
        TextPromptResult::MoreOptions
    } else {
        TextPromptResult::Submitted(answer)
    }
}

/// A question mark is accepted whatever the prompt accepts otherwise.
pub fn accepts_or_asks_for_options(input: &str, accepted: bool) -> (r: bool)
    ensures
        r == (input@ == "?"@ || accepted),
{
    same(input, "?") || accepted
}

/// Whether the address prompt with other options accepts the input.
pub fn email_prompt_accepts(input: &str) -> (r: bool)
    ensures
        r == (input@ == "?"@ || (input@.len() > 0 && email_address(input@))),
{
    accepts_or_asks_for_options(input, !input.is_empty() && is_valid_email(input))
}

/// Whether the code prompt with other options accepts the input: a code has six characters.
pub fn code_prompt_accepts(input: &str) -> (r: bool)
    ensures
        r == (input@ == "?"@ || input@.len() == 6),
{
    accepts_or_asks_for_options(input, input.unicode_len() == 6)
}

/// Where the cursor of the kind prompt starts.
pub fn kind_cursor(selected: Option<IdentityKind>) -> (r: usize)
    ensures
        r == (if selected == Some(IdentityKind::Secondary) {
            1usize
        } else {
            0usize
        }),
{
    match selected {
        Some(IdentityKind::Secondary) => 1,
        _ => 0,
    }
}

/// Why a prompt gave no answer.
#[derive(Debug, PartialEq, Eq)]
pub enum PromptFailure {
    /// The prompt itself failed; the message says why.
    Prompt { message: String },
    /// There is no terminal; the hint names the argument that gives the answer.
    NotInteractive { hint: String },
}

impl PromptFailure {
    pub open spec fn words(self) -> Seq<char> {
        match self {
            PromptFailure::Prompt { message } => message@,
            PromptFailure::NotInteractive { hint } => "non-interactive terminal, use "@ + hint@
                + " to provide input"@,
        }
    }

    pub fn to_text(&self) -> (r: String)
        ensures
            r@ == self.words(),
    {
        match self {
            PromptFailure::Prompt { message } => message.clone(),
            PromptFailure::NotInteractive { hint } => {
                let mut r = "non-interactive terminal, use ".to_owned();
                r.append(hint);
                r.append(" to provide input");
                r
            },
        }
    }
}

/// What went wrong at a prompt.
#[derive(Debug, PartialEq, Eq)]
pub enum PromptFault {
    /// There is no terminal to ask at.
    NotTty,
    Other { message: String },
}

/// An answer that only a terminal can give, unless the hinted argument gives it.
pub fn require_interactive<T>(answer: Result<T, PromptFault>, hint: &str) -> (r: Result<
    T,
    PromptFailure,
>)
    ensures
        match answer {
            Ok(value) => r == Ok::<T, PromptFailure>(value),
            Err(PromptFault::NotTty) => r matches Err(PromptFailure::NotInteractive { hint: told })
                && told@ == hint@,
            Err(PromptFault::Other { message }) => r == Err::<T, PromptFailure>(
                PromptFailure::Prompt { message },
            ),
        },
{
    match answer {
        Ok(value) => Ok(value),
        Err(PromptFault::NotTty) => Err(PromptFailure::NotInteractive { hint: hint.to_owned() }),
        Err(PromptFault::Other { message }) => Err(PromptFailure::Prompt { message }),
    }
}

} // verus!
