//! Default code and message strings, derived from a variant's name.

use vstd::prelude::*;

verus! {

/// The upper-snake-case form of an identifier, as `inflector` computes it.
pub uninterp spec fn screaming_snake_case(name: Seq<char>) -> Seq<char>;

/// The sentence-case form of an identifier, as `inflector` computes it.
pub uninterp spec fn sentence_case(name: Seq<char>) -> Seq<char>;

/// Calls `inflector::cases::screamingsnakecase::to_screaming_snake_case`, which returns for
/// every string. The result depends on the characters of `name` alone; the contract gives
/// it its name and claims nothing else of it, so nothing here is proved of which
/// characters it holds.
#[verifier::external_body]
fn to_screaming_snake_case(name: &str) -> (text: String)
    ensures
        text@ == screaming_snake_case(name@),
{
    inflector::cases::screamingsnakecase::to_screaming_snake_case(name)
}

/// Calls `inflector::cases::sentencecase::to_sentence_case`, which returns for every string.
/// The result depends on the characters of `name` alone; the contract gives it its name and
/// claims nothing else of it, so nothing here is proved of which characters it holds.
#[verifier::external_body]
fn to_sentence_case(name: &str) -> (text: String)
    ensures
        text@ == sentence_case(name@),
{
    inflector::cases::sentencecase::to_sentence_case(name)
}

/// The code string that a variant named `name` gets.
pub fn default_code(name: &str) -> (text: String)
    ensures
        text@ == screaming_snake_case(name@),
{
    to_screaming_snake_case(name)
}

/// The message that a variant named `name` gets when none is configured.
pub fn default_message(name: &str) -> (text: String)
    ensures
        text@ == sentence_case(name@),
{
    to_sentence_case(name)
}

} // verus!
