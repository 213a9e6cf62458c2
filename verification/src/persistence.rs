//! What the snippet list is when storage has nothing to offer.

use vstd::prelude::*;
use vstd::string::StringExecFns;
use crate::app::Snippet;

verus! {

/// The title of the snippet that greets a first-time user.
pub open spec fn welcome_title() -> Seq<char> {
    "Welcome to Dial"@
}

/// The text of the snippet that greets a first-time user.
pub open spec fn welcome_code() -> Seq<char> {
    "Dial is a code snippet manager built with rust and ratatui."@
}

/// The language of the snippet that greets a first-time user.
pub open spec fn welcome_language() -> Seq<char> {
    "txt"@
}

/// Whether `snippets` is the one built-in welcome snippet and nothing else.
pub open spec fn is_welcome(snippets: Seq<Snippet>) -> bool {
    &&& snippets.len() == 1
    &&& snippets[0].title@ == welcome_title()
    &&& snippets[0].code@ == welcome_code()
    &&& snippets[0].language@ == welcome_language()
}

/// The list that a first-time user starts with: the welcome snippet.
pub fn default_snippets() -> (snippets: Vec<Snippet>)
    ensures
        is_welcome(snippets@),
{
    let mut snippets: Vec<Snippet> = Vec::new();
    snippets.push(
        Snippet {
            language: String::from_str("txt"),
            title: String::from_str("Welcome to Dial"),
            code: String::from_str("Dial is a code snippet manager built with rust and ratatui."),
        },
    );
    snippets
}

/// What is to be done with what storage held.
pub enum Loaded {
    /// Storage had nothing: these are the snippets to start with.
    Snippets(Vec<Snippet>),
    /// Storage had this text, which is still to be decoded.
    Stored(String),
}

/// Decides what the snippet list is from what was read from storage:
/// `None` where there is no file. A missing or empty file gives the welcome
/// snippet; any other text is handed back to be decoded.
pub fn load_snippets(stored: Option<String>) -> (loaded: Loaded)
    ensures
        match stored {
            None => loaded matches Loaded::Snippets(list) && is_welcome(list@),
            Some(text) => if text@.len() == 0 {
                loaded matches Loaded::Snippets(list) && is_welcome(list@)
            } else {
                loaded == Loaded::Stored(text)
            },
        },
{
    match stored {
        None => Loaded::Snippets(default_snippets()),
        Some(text) => {
            if text.as_str().is_empty() {
                Loaded::Snippets(default_snippets())
            } else {
                Loaded::Stored(text)
            }
        },
    }
}

} // verus!
