//! The word lookup pipeline: it normalizes the outcomes of the dictionary
//! query and of the fallback spelling-suggestion query into one
//! `WordInfo`, converting every failure into a synthetic message entry so
//! that no error ever reaches the session state machine.
//!
//! The queries themselves are network calls performed by the host, which
//! hands their outcomes in as plain values: `None` stands for a transport,
//! status or parse failure of the respective collaborator.

use vstd::prelude::*;
use vstd::string::StringExecFns;

use crate::data::{Thesaurus, is_message_result};

verus! {

/// The message shown when the dictionary query failed and the spelling fix
/// is disabled.
pub open spec fn spelling_hint_msg() -> Seq<char> {
    "Please double-check your spelling."@
}

/// The message shown when both the dictionary query and the suggestion
/// query failed.
pub open spec fn search_error_msg() -> Seq<char> {
    "Search error"@
}

/// The normalized outcome of a word query: dictionary entries, or a single
/// synthetic message entry, plus whether a spelling suggestion was
/// substituted for the original word's definitions.
pub struct WordInfo {
    pub t: Vec<Thesaurus>,
    pub is_spelling_suggested: bool,
}

/// Builds the lookup outcome from the collaborators' results.
///
/// `dictionary` is the dictionary query's outcome; `suggestion` is the
/// spelling-suggestion query's outcome, consulted only when the dictionary
/// failed and `is_spelling_fix_enabled` is set (the host queries it exactly
/// then, and passes `None` on its failure). Every combination yields a
/// result; no failure propagates.
pub fn parse_response(
    dictionary: Option<Vec<Thesaurus>>,
    suggestion: Option<String>,
    is_spelling_fix_enabled: bool,
) -> (r: WordInfo)
    ensures
        dictionary matches Some(entries) ==> r.t == entries && !r.is_spelling_suggested,
        dictionary is None && !is_spelling_fix_enabled ==> is_message_result(
            r.t.deep_view(),
            spelling_hint_msg(),
        ) && !r.is_spelling_suggested,
        (dictionary is None && is_spelling_fix_enabled && suggestion is Some)
            ==> is_message_result(r.t.deep_view(), suggestion->Some_0@) && r.is_spelling_suggested,
        dictionary is None && is_spelling_fix_enabled && suggestion is None ==> is_message_result(
            r.t.deep_view(),
            search_error_msg(),
        ) && !r.is_spelling_suggested,
{
    match dictionary {
        Some(entries) => WordInfo { t: entries, is_spelling_suggested: false },
        None => {
            if !is_spelling_fix_enabled {
                WordInfo {
                    t: Thesaurus::inject_message(
                        String::from_str("Please double-check your spelling."),
                    ),
                    is_spelling_suggested: false,
                }
            } else {
                match suggestion {
                    Some(s) => WordInfo {
                        t: Thesaurus::inject_message(s),
                        is_spelling_suggested: true,
                    },
                    None => WordInfo {
                        t: Thesaurus::inject_message(String::from_str("Search error")),
                        is_spelling_suggested: false,
                    },
                }
            }
        }
    }
}

/// The request target for a dictionary query: the dictionary's base address
/// followed by the word itself.
pub fn construct_url(word: String) -> (r: String)
    ensures
        r@ == "https://api.dictionaryapi.dev/api/v2/entries/en/"@ + word@,
{
    let base = String::from_str("https://api.dictionaryapi.dev/api/v2/entries/en/");
    base.concat(word.as_str())
}

} // verus!
