//! From the upstream answer to an idea: the answer is read as JSON, walked
//! along one fixed path to the generated text, and that text is read as the
//! idea. Each of the three steps fails in its own way.

use crate::error::{IdeaError, IdeaErrorView};
use crate::idea::{IdeaResponse, IdeaView};
use crate::json::{element, json_of, json_text, member, parse_json, Json};
use vstd::prelude::*;
use vstd::string::*;

verus! {

/// The member `key` of `value`, if there is a value and it has one.
pub open spec fn at_key(value: Option<Json>, key: Seq<char>) -> Option<Json> {
    match value {
        Some(document) => document.member(key),
        None => None,
    }
}

/// The element at `index` of `value`, if there is a value and it has one.
pub open spec fn at_index(value: Option<Json>, index: int) -> Option<Json> {
    match value {
        Some(document) => document.element(index),
        None => None,
    }
}

/// The text of `value`, if there is a value and it is a string.
pub open spec fn as_text(value: Option<Json>) -> Option<Seq<char>> {
    match value {
        Some(document) => document.text(),
        None => None,
    }
}

/// The generated text of an upstream answer: the string at
/// `candidates[0].content.parts[0].text`. No other part of the answer is
/// looked at.
pub open spec fn reply_text(document: Json) -> Option<Seq<char>> {
    let candidates = at_key(Some(document), "candidates"@);
    let content = at_key(at_index(candidates, 0), "content"@);
    let parts = at_key(content, "parts"@);
    as_text(at_key(at_index(parts, 0), "text"@))
}

/// Walks an upstream answer to its generated text.
///
/// Gives the text exactly when every segment of the path is there and its
/// end is a string.
pub fn extract_text<'a>(document: &'a serde_json::Value) -> (r: Option<&'a str>)
    ensures
        r.deep_view() == reply_text(json_of(*document)),
{
    let candidates = member(document, "candidates")?;
    let first = element(candidates, 0)?;
    let content = member(first, "content")?;
    let parts = member(content, "parts")?;
    let part = element(parts, 0)?;
    let text = member(part, "text")?;
    text.as_str()
}

/// The keys of an idea.
pub open spec fn idea_keys() -> Set<Seq<char>> {
    set!["name"@, "symbol"@, "description"@]
}

/// The idea that a document states: the document is an object whose keys
/// are `name`, `symbol` and `description` and no others, and each of the
/// three is a string. This is said of the tree, in which no key stands
/// twice: whether the text wrote a key once or more often, the tree does
/// not show.
pub open spec fn idea_of(document: Json) -> Option<IdeaView> {
    match document {
        Json::Object(members) => {
            if members.dom() == idea_keys() && members["name"@] is Text
                && members["symbol"@] is Text && members["description"@] is Text {
                Some(
                    IdeaView {
                        name: members["name"@]->Text_0,
                        symbol: members["symbol"@]->Text_0,
                        description: members["description"@]->Text_0,
                    },
                )
            } else {
                None
            }
        },
        _ => None,
    }
}

proof fn lemma_idea_keys_differ()
    ensures
        "name"@ != "symbol"@,
        "name"@ != "description"@,
        "symbol"@ != "description"@,
        idea_keys().finite(),
        idea_keys().len() == 3,
{
    reveal_strlit("name");
    reveal_strlit("symbol");
    reveal_strlit("description");
    assert("name"@.len() == 4);
    assert("symbol"@.len() == 6);
    assert("description"@.len() == 11);
    let none = Set::<Seq<char>>::empty();
    assert(idea_keys() =~= none.insert("name"@).insert("symbol"@).insert("description"@));
}

proof fn lemma_three_keys_are_all(keys: Set<Seq<char>>)
    requires
        keys.finite(),
        keys.len() == 3,
        keys.contains("name"@),
        keys.contains("symbol"@),
        keys.contains("description"@),
    ensures
        keys == idea_keys(),
{
    lemma_idea_keys_differ();
    let rest = keys.remove("name"@).remove("symbol"@).remove("description"@);
    assert(rest.len() == 0);
    rest.lemma_len0_is_empty();
    assert forall|key: Seq<char>| keys.contains(key) implies idea_keys().contains(key) by {
        if key != "name"@ && key != "symbol"@ && key != "description"@ {
            assert(rest.contains(key));
        }
    }
    assert(keys =~= idea_keys());
}

/// Reads a document as an idea.
///
/// Gives the idea exactly when the document is an object with the three
/// keys of an idea and no others, each of them a string.
pub fn read_idea(document: &serde_json::Value) -> (r: Option<IdeaResponse>)
    ensures
        r.deep_view() == idea_of(json_of(*document)),
{
    proof {
        lemma_idea_keys_differ();
    }
    let members = document.as_object()?;
    if members.len() != 3 {
        return None;
    }
    let name = member(document, "name")?;
    let symbol = member(document, "symbol")?;
    let description = member(document, "description")?;
    proof {
        lemma_three_keys_are_all(json_of(*document)->Object_0.dom());
    }
    let name = name.as_str()?;
    let symbol = symbol.as_str()?;
    let description = description.as_str()?;
    Some(
        IdeaResponse {
            name: String::from_str(name),
            symbol: String::from_str(symbol),
            description: String::from_str(description),
        },
    )
}

/// What extraction makes of an upstream answer: a body that is no JSON is a
/// parse failure; one without the path to the generated text is a structure
/// failure; a generated text that is no JSON, or JSON that is no idea, is a
/// content failure; anything else is the idea.
pub open spec fn extraction(body: Seq<char>) -> Result<IdeaView, IdeaErrorView> {
    match json_text(body) {
        None => Err(IdeaErrorView::ResponseParse),
        Some(document) => match reply_text(document) {
            None => Err(IdeaErrorView::Structure),
            Some(text) => match json_text(text) {
                None => Err(IdeaErrorView::ContentSchema),
                Some(content) => match idea_of(content) {
                    None => Err(IdeaErrorView::ContentSchema),
                    Some(idea) => Ok(idea),
                },
            },
        },
    }
}

/// An idea and an error, each by its view.
pub open spec fn idea_outcome(r: Result<IdeaResponse, IdeaError>) -> Result<
    IdeaView,
    IdeaErrorView,
> {
    match r {
        Ok(idea) => Ok(idea@),
        Err(error) => Err(error@),
    }
}

/// Turns the body of an upstream answer into an idea, or into the failure
/// of the first step that did not succeed.
pub fn extract_idea(body: &str) -> (r: Result<IdeaResponse, IdeaError>)
    ensures
        idea_outcome(r) == extraction(body@),
{
    let document = match parse_json(body) {
        Ok(document) => document,
        Err(_) => { return Err(IdeaError::ResponseParse); },
    };
    let text = match extract_text(&document) {
        Some(text) => text,
        None => { return Err(IdeaError::Structure); },
    };
    let content = match parse_json(text) {
        Ok(content) => content,
        Err(_) => { return Err(IdeaError::ContentSchema); },
    };
    match read_idea(&content) {
        Some(idea) => Ok(idea),
        None => Err(IdeaError::ContentSchema),
    }
}

} // verus!
