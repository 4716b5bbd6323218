//! The Lua scripts that the tools have the game run, and the script states
//! that they send back.

use crate::json::{
    array_value, json_array, json_items, json_member, json_object, json_string, json_text,
    entries_view, object_value, string_value, value_member, value_text,
};
use crate::text::{escape_default, escape_default_of, unescape, unescape_of};
use serde_json::Value;
use vstd::prelude::*;

verus! {

/// The script that returns the guids of all objects as a JSON array.
pub open spec fn objects_script_text() -> Seq<char> {
    "\n            list = {}\n            for _, obj in pairs(getAllObjects()) do\n                table.insert(list, obj.guid)\n            end\n            return JSON.encode(list)\n        "@
}

/// The script that returns, for every object with tags, its tags under its
/// guid, as a JSON object.
pub open spec fn all_tags_script_text() -> Seq<char> {
    "\n            list = {}\n            for _, obj in pairs(getAllObjects()) do\n                if obj.hasAnyTag() then\n                    list[obj.guid] = obj.getTags()\n                end\n            end\n            return JSON.encode(list)\n        "@
}

/// The script that returns the tags of the object `guid` as a JSON array.
pub open spec fn object_tags_script_text(guid: Seq<char>) -> Seq<char> {
    "\n            return JSON.encode(getObjectFromGUID(\""@ + guid + "\").getTags())\n        "@
}

/// The script that gives the object `guid` the tags in `tags`: the JSON text
/// of `tags` stands in the script as a Lua string, escaped.
pub open spec fn set_tags_script_text(guid: Seq<char>, tags: Value) -> Seq<char> {
    "\n                tags = JSON.decode(\""@ + escape_default_of(json_text(tags)) + "\")\n                getObjectFromGUID(\""@ + guid + "\").setTags(tags)\n            "@
}

/// The script that gives the object `guid` the Lua script `script`, which
/// stands in it as a Lua string, escaped.
pub open spec fn set_script_script_text(guid: Seq<char>, script: Seq<char>) -> Seq<char> {
    "\n            return JSON.encode(getObjectFromGUID(\""@ + guid + "\").setLuaScript(\""@ + escape_default_of(script) + "\"))\n        "@
}

/// The script that returns the guids of all objects.
pub fn objects_script() -> (script: String)
    ensures
        script@ == objects_script_text(),
{
    String::from_str("\n            list = {}\n            for _, obj in pairs(getAllObjects()) do\n                table.insert(list, obj.guid)\n            end\n            return JSON.encode(list)\n        ")
}

/// The script that returns the tags of every object that has tags.
pub fn all_tags_script() -> (script: String)
    ensures
        script@ == all_tags_script_text(),
{
    String::from_str("\n            list = {}\n            for _, obj in pairs(getAllObjects()) do\n                if obj.hasAnyTag() then\n                    list[obj.guid] = obj.getTags()\n                end\n            end\n            return JSON.encode(list)\n        ")
}

/// The script that returns the tags of the object `guid`.
pub fn object_tags_script(guid: &str) -> (script: String)
    ensures
        script@ == object_tags_script_text(guid@),
{
    let mut script = String::from_str("\n            return JSON.encode(getObjectFromGUID(\"");
    script.append(guid);
    script.append("\").getTags())\n        ");
    script
}

/// The script that gives the object `guid` the tags in `tags`.
pub fn set_tags_script(guid: &str, tags: &Value) -> (script: String)
    ensures
        script@ == set_tags_script_text(guid@, *tags),
{
    let list = value_text(tags);
    let escaped = escape_default(list.as_str());
    let mut script = String::from_str("\n                tags = JSON.decode(\"");
    script.append(escaped.as_str());
    script.append("\")\n                getObjectFromGUID(\"");
    script.append(guid);
    script.append("\").setTags(tags)\n            ");
    script
}

/// The script that gives the object `guid` the Lua script `script`.
pub fn set_script_script(guid: &str, script: &str) -> (text: String)
    ensures
        text@ == set_script_script_text(guid@, script@),
{
    let escaped = escape_default(script);
    let mut text = String::from_str("\n            return JSON.encode(getObjectFromGUID(\"");
    text.append(guid);
    text.append("\").setLuaScript(\"");
    text.append(escaped.as_str());
    text.append("\"))\n        ");
    text
}

/// The script states that set the global script and the global UI: a JSON
/// array of one object with the guid `-1`.
pub open spec fn global_state_of(script: Seq<char>, ui: Seq<char>) -> Value {
    json_array(
        seq![
            json_object(
                seq![
                    ("guid"@, json_string("-1"@)),
                    ("script"@, json_string(script)),
                    ("ui"@, json_string(ui)),
                ],
            ),
        ],
    )
}

/// The script states that set the global script and the global UI.
pub fn global_state(script: String, ui: String) -> (states: Value)
    ensures
        states == global_state_of(script@, ui@),
{
    let mut entries: Vec<(String, Value)> = Vec::new();
    entries.push((String::from_str("guid"), string_value(String::from_str("-1"))));
    entries.push((String::from_str("script"), string_value(script)));
    entries.push((String::from_str("ui"), string_value(ui)));
    proof {
        assert(entries_view(entries@) =~= seq![
            ("guid"@, json_string("-1"@)),
            ("script"@, json_string(script@)),
            ("ui"@, json_string(ui@)),
        ]);
    }
    let mut states: Vec<Value> = Vec::new();
    states.push(object_value(entries));
    proof {
        assert(states@ =~= seq![states@[0]]);
    }
    array_value(states)
}

/// The text under `key` in the first of the script states `states`, with the
/// quoting of its JSON text taken off: `None` where `states` is no array or
/// is empty, where its first state has no such member, and where the member's
/// JSON text cannot be unquoted.
pub open spec fn global_text_of(states: Value, key: Seq<char>) -> Option<Seq<char>> {
    match json_items(states) {
        Some(items) => if items.len() > 0 {
            match json_member(items[0], key) {
                Some(member) => unescape_of(json_text(member)),
                None => None,
            }
        } else {
            None
        },
        None => None,
    }
}

/// The text under `key` in the global state, which is the first of the script
/// states that the game sends.
pub fn global_text(states: &Value, key: &str) -> (text: Option<String>)
    ensures
        match text {
            Some(plain) => global_text_of(*states, key@) == Some(plain@),
            None => global_text_of(*states, key@) is None,
        },
{
    match states.as_array() {
        None => None,
        Some(items) => {
            if items.len() == 0 {
                None
            } else {
                match value_member(&items[0], key) {
                    None => None,
                    Some(member) => {
                        let quoted = value_text(member);
                        unescape(quoted.as_str())
                    },
                }
            }
        },
    }
}

} // verus!
