//! Script tags: how an object in the game names the file that holds its
//! script.
//!
//! An object is tied to a file by a tag of the form `scripts/<file>`. The
//! functions here tell such tags from the other tags of an object, pick the
//! one file of an object, and build the list of tags that ties an object to a
//! new file.

use crate::json::{
    array_value, entries_view, json_array, json_entries, json_items, json_str, json_string,
    json_text, string_value, value_entries, value_text,
};
use crate::text::{compile, regex_accepts, regex_of, unescape, unescape_of};
use regex::Regex;
use serde_json::Value;
use vstd::prelude::*;

verus! {

/// The tags of an object, split by whether they name a script file.
#[derive(Debug, Clone, PartialEq, Eq)]
pub struct Tags {
    /// The tags that name a script file, in their order on the object.
    pub valid: Vec<Value>,
    /// The other tags, in their order on the object.
    pub invalid: Vec<Value>,
}

/// Why the tags of an object could not be worked with.
#[derive(Debug, Clone, Copy, PartialEq, Eq, Structural)]
pub enum TagError {
    /// A tag's JSON text could not be unquoted.
    Quoting,
    /// More than one tag of the object names a script file.
    Multiple,
}

/// The pattern of a tag that names a script file: `scripts/`, then a file
/// name of one or more word characters, then `.lua` or any one character and
/// `ttslua`, and nothing before or behind.
pub open spec fn tag_pattern_text() -> Seq<char> {
    "^(scripts/)[\\d\\w]+(\\.lua|.ttslua)$"@
}

/// The text of a tag: its JSON text with the quoting taken off.
pub open spec fn tag_text(tag: Value) -> Option<Seq<char>> {
    unescape_of(json_text(tag))
}

/// Whether a tag names a script file according to `pattern`.
pub open spec fn names_script(pattern: Regex, tag: Value) -> bool {
    match tag_text(tag) {
        Some(text) => regex_accepts(pattern, text),
        None => false,
    }
}

/// Whether the text of every one of the tags can be had.
pub open spec fn all_unquote(tags: Seq<Value>) -> bool {
    forall|i: int| 0 <= i < tags.len() ==> (#[trigger] tag_text(tags[i])) is Some
}

/// The tag that ties an object to the file `file_name`.
pub open spec fn tag_of_file(file_name: Seq<char>) -> Seq<char> {
    "scripts/"@ + file_name
}

/// The result of choosing the script file among an object's tags: the text
/// of the one tag that names a file, `None` where no tag does, and an error
/// where several do or a tag cannot be unquoted.
pub open spec fn chosen_tag(pattern: Regex, tags: Seq<Value>) -> Result<Option<Seq<char>>, TagError> {
    let valid = tags.filter(|tag: Value| names_script(pattern, tag));
    if !all_unquote(tags) {
        Err(TagError::Quoting)
    } else if valid.len() == 0 {
        Ok(None)
    } else if valid.len() == 1 {
        Ok(tag_text(valid[0]))
    } else {
        Err(TagError::Multiple)
    }
}

/// Every tag falls into exactly one part of a split: the two parts together
/// are as many as the tags.
pub proof fn lemma_split_keeps_every_tag(pattern: Regex, tags: Seq<Value>)
    ensures
        tags.filter(|tag: Value| names_script(pattern, tag)).len() + tags.filter(
            |tag: Value| !names_script(pattern, tag),
        ).len() == tags.len(),
    decreases tags.len(),
{
    reveal(Seq::filter);
    if tags.len() > 0 {
        lemma_split_keeps_every_tag(pattern, tags.drop_last());
    }
}

/// The pattern of a tag that names a script file, compiled.
pub fn tag_pattern() -> (pattern: Option<Regex>)
    ensures
        pattern == regex_of(tag_pattern_text()),
{
    compile("^(scripts/)[\\d\\w]+(\\.lua|.ttslua)$")
}

/// The text of a JSON value with the quoting taken off, or `None` where the
/// value's JSON text is not quoted as `snailquote` reads it.
pub fn unescape_value(value: &Value) -> (text: Option<String>)
    ensures
        match text {
            Some(plain) => tag_text(*value) == Some(plain@),
            None => tag_text(*value) is None,
        },
{
    let quoted = value_text(value);
    unescape(quoted.as_str())
}

/// The tag that ties an object to the file `file_name`.
pub fn file_tag(file_name: &str) -> (tag: String)
    ensures
        tag@ == tag_of_file(file_name@),
{
    let mut tag = String::from_str("scripts/");
    tag.append(file_name);
    tag
}

/// Splits tags into those that name a script file and the others, each part
/// in the order of `tags`. Fails with `Quoting` exactly if the text of one of
/// the tags cannot be had.
pub fn get_valid_tags(pattern: &Regex, tags: Vec<Value>) -> (split: Result<Tags, TagError>)
    ensures
        match split {
            Ok(parts) => {
                &&& all_unquote(tags@)
                &&& parts.valid@ == tags@.filter(|tag: Value| names_script(*pattern, tag))
                &&& parts.invalid@ == tags@.filter(|tag: Value| !names_script(*pattern, tag))
            },
            Err(fault) => fault == TagError::Quoting && !all_unquote(tags@),
        },
{
    let ghost named = |tag: Value| names_script(*pattern, tag);
    let ghost unnamed = |tag: Value| !names_script(*pattern, tag);
    let mut valid: Vec<Value> = Vec::new();
    let mut invalid: Vec<Value> = Vec::new();
    let mut i: usize = 0;
    proof {
        reveal(Seq::filter);
        assert(tags@.take(0) =~= Seq::<Value>::empty());
    }
    while i < tags.len()
        invariant
            0 <= i <= tags.len(),
            named == |tag: Value| names_script(*pattern, tag),
            unnamed == |tag: Value| !names_script(*pattern, tag),
            all_unquote(tags@.take(i as int)),
            valid@ == tags@.take(i as int).filter(named),
            invalid@ == tags@.take(i as int).filter(unnamed),
        decreases tags.len() - i,
    {
        let tag = tags[i].clone();
        let ghost next = tags@.take(i as int + 1);
        proof {
            reveal(Seq::filter);
            assert(next.drop_last() =~= tags@.take(i as int));
            assert(next.last() == tag);
        }
        match unescape_value(&tag) {
            None => {
                proof {
                    assert(tag_text(tags@[i as int]) is None);
                }
                return Err(TagError::Quoting);
            },
            Some(text) => {
                if pattern.is_match(text.as_str()) {
                    valid.push(tag);
                } else {
                    invalid.push(tag);
                }
            },
        }
        proof {
            assert forall|j: int| 0 <= j < next.len() implies (#[trigger] tag_text(next[j])) is Some by {
                if j < i {
                    assert(next[j] == tags@.take(i as int)[j]);
                }
            }
        }
        i = i + 1;
    }
    proof {
        assert(tags@.take(i as int) =~= tags@);
    }
    Ok(Tags { valid, invalid })
}

/// Chooses the script file among the tags of an object: an object has at
/// most one.
pub fn script_tag(pattern: &Regex, tags: Vec<Value>) -> (chosen: Result<Option<String>, TagError>)
    ensures
        chosen_view(chosen) == chosen_tag(*pattern, tags@),
{
    match get_valid_tags(pattern, tags) {
        Err(fault) => Err(fault),
        Ok(parts) => {
            if parts.valid.len() == 0 {
                Ok(None)
            } else if parts.valid.len() == 1 {
                Ok(unescape_value(&parts.valid[0]))
            } else {
                Err(TagError::Multiple)
            }
        },
    }
}

/// The result of choosing the script file of an object from what the game
/// returned as its tags: a value that is no array names no file.
pub open spec fn chosen_script(pattern: Regex, tags: Value) -> Result<Option<Seq<char>>, TagError> {
    match json_items(tags) {
        Some(items) => chosen_tag(pattern, items),
        None => Ok(None),
    }
}

/// A chosen tag with its text as a sequence of characters.
pub open spec fn chosen_view(chosen: Result<Option<String>, TagError>) -> Result<
    Option<Seq<char>>,
    TagError,
> {
    match chosen {
        Ok(Some(text)) => Ok(Some(text@)),
        Ok(None) => Ok(None),
        Err(fault) => Err(fault),
    }
}

/// Chooses the script file of an object from what the game returned as its
/// tags.
pub fn object_script(pattern: &Regex, tags: &Value) -> (chosen: Result<Option<String>, TagError>)
    ensures
        chosen_view(chosen) == chosen_script(*pattern, *tags),
{
    match object_list(tags) {
        Some(items) => script_tag(pattern, items),
        None => Ok(None),
    }
}

/// The objects with tags in what the game returned for the script that lists
/// them: each guid with the tags under it, in the order in which the JSON
/// object holds them, and nothing where the value is no JSON object.
pub fn tagged_objects(returned: &Value) -> (objects: Vec<(String, Value)>)
    ensures
        entries_view(objects@) == match json_entries(*returned) {
            Some(entries) => entries,
            None => Seq::<(Seq<char>, Value)>::empty(),
        },
{
    match value_entries(returned) {
        Some(entries) => entries,
        None => {
            let objects: Vec<(String, Value)> = Vec::new();
            proof {
                assert(entries_view(objects@) =~= Seq::<(Seq<char>, Value)>::empty());
            }
            objects
        },
    }
}

/// The tags that tie an object to the file of `tag`: those of `tags` that
/// name no script file, in their order, and `tag` behind them, as a JSON
/// array.
pub open spec fn retagged(pattern: Regex, tags: Seq<Value>, tag: Seq<char>) -> Value {
    json_array(tags.filter(|old: Value| !names_script(pattern, old)).push(json_string(tag)))
}

/// Builds the list of tags that ties an object with the tags `tags` to the
/// file of `tag`: tags that name another file are left out.
pub fn replace_script_tag(pattern: &Regex, tags: Vec<Value>, tag: &str) -> (list: Result<
    Value,
    TagError,
>)
    ensures
        match list {
            Ok(value) => all_unquote(tags@) && value == retagged(*pattern, tags@, tag@),
            Err(fault) => fault == TagError::Quoting && !all_unquote(tags@),
        },
{
    match get_valid_tags(pattern, tags) {
        Err(fault) => Err(fault),
        Ok(parts) => {
            let mut kept = parts.invalid;
            kept.push(string_value(tag.to_owned()));
            Ok(array_value(kept))
        },
    }
}

/// Whether one of `objects` is the JSON string `guid`.
pub open spec fn lists_object(objects: Seq<Value>, guid: Seq<char>) -> bool {
    exists|i: int| 0 <= i < objects.len() && json_str(#[trigger] objects[i]) == Some(guid)
}

/// Whether the object `guid` is among `objects`, the guids of a game.
pub fn has_object(objects: &Vec<Value>, guid: &str) -> (found: bool)
    ensures
        found == lists_object(objects@, guid@),
{
    let wanted = guid.to_owned();
    let mut i: usize = 0;
    while i < objects.len()
        invariant
            0 <= i <= objects.len(),
            wanted@ == guid@,
            forall|j: int| 0 <= j < i ==> json_str(#[trigger] objects@[j]) != Some(guid@),
        decreases objects.len() - i,
    {
        match objects[i].as_str() {
            Some(text) => {
                if text.to_owned() == wanted {
                    return true;
                }
            },
            None => {},
        }
        i = i + 1;
    }
    false
}

/// The guids in what the game returned for the script that lists them, or
/// `None` where that is no array.
pub fn object_list(returned: &Value) -> (objects: Option<Vec<Value>>)
    ensures
        match objects {
            Some(list) => json_items(*returned) == Some(list@),
            None => json_items(*returned) is None,
        },
{
    match returned.as_array() {
        None => None,
        Some(items) => {
            let mut list: Vec<Value> = Vec::new();
            let mut i: usize = 0;
            while i < items.len()
                invariant
                    0 <= i <= items.len(),
                    list@ == items@.take(i as int),
                decreases items.len() - i,
            {
                list.push(items[i].clone());
                proof {
                    assert(list@ =~= items@.take(i as int + 1));
                }
                i = i + 1;
            }
            proof {
                assert(list@ =~= items@);
            }
            Some(list)
        },
    }
}

} // verus!
