//! The offer to make a saved identity the default.
use vstd::prelude::*;

use crate::text::same;

verus! {

#[derive(Debug, PartialEq, Eq)]
pub struct DefaultSuggestion {
    pub question: String,
    pub help: String,
    /// The answer that is proposed.
    pub default: bool,
}

/// A suggestion with its texts as sequences.
pub ghost struct SuggestionView {
    pub question: Seq<char>,
    pub help: Seq<char>,
    pub default: bool,
}

impl View for DefaultSuggestion {
    type V = SuggestionView;

    open spec fn view(&self) -> SuggestionView {
        SuggestionView { question: self.question@, help: self.help@, default: self.default }
    }
}

pub open spec fn suggestion_view(suggestion: Option<DefaultSuggestion>) -> Option<SuggestionView> {
    match suggestion {
        Some(suggestion) => Some(suggestion@),
        None => None,
    }
}

/// Another default is only offered where the name is not the default already, and only
/// proposed where there is none.
pub open spec fn suggested(saved: Seq<char>, current: Option<Seq<char>>) -> Option<
    SuggestionView,
> {
    let question = "Set this name("@ + saved + ") as default?"@;
    match current {
        None => Some(SuggestionView { question, help: "current: none"@, default: true }),
        Some(current) => if current == saved {
            None
        } else {
            Some(SuggestionView { question, help: "current: "@ + current, default: false })
        },
    }
}

pub fn suggest_default_change(saved_name: &str, current_default: Option<&str>) -> (r: Option<
    DefaultSuggestion,
>)
    ensures
        suggestion_view(r) == suggested(
            saved_name@,
            match current_default {
                Some(current) => Some(current@),
                None => None,
            },
        ),
{
    let mut question = "Set this name(".to_owned();
    question.append(saved_name);
    question.append(") as default?");
    match current_default {
        None => Some(
            DefaultSuggestion { question, help: "current: none".to_owned(), default: true },
        ),
        Some(current) => {
            if same(current, saved_name) {
                return None;
            }
            let mut help = "current: ".to_owned();
            help.append(current);
            Some(DefaultSuggestion { question, help, default: false })
        },
    }
}

/// What is asked after an identity was saved; nothing without a terminal.
pub fn run_lifecycle_epilogue(
    saved_name: &str,
    current_default: Option<&str>,
    interactive: bool,
) -> (r: Option<DefaultSuggestion>)
    ensures
        suggestion_view(r) == (if interactive {
            suggested(
                saved_name@,
                match current_default {
                    Some(current) => Some(current@),
                    None => None,
                },
            )
        } else {
            None
        }),
{
    if !interactive {
        return None;
    }
    suggest_default_change(saved_name, current_default)
}

/// What is reported where the default could not be saved.
pub fn default_not_updated_message() -> (r: &'static str)
    ensures
        r@ == "Identity was installed, but the default identity was not updated."@,
{
    "Identity was installed, but the default identity was not updated."
}

/// The offer names the saved identity; it is made unless that is the default already, and a yes
/// is proposed only where there is no default.
pub proof fn offers_name_the_saved_identity(saved: Seq<char>, current: Option<Seq<char>>)
    ensures
        suggested(saved, current) is None <==> current == Some(saved),
        suggested(saved, current) matches Some(offer) ==> {
            &&& offer.question == "Set this name("@ + saved + ") as default?"@
            &&& (offer.default <==> current is None)
            &&& (current matches Some(name) ==> offer.help == "current: "@ + name)
            &&& (current is None ==> offer.help == "current: none"@)
        },
{
}

} // verus!
