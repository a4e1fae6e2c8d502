//! Messages a plugin's web page sends to the host over the bridge: a JSON
//! object `{ "action": <string>, "data": <any> }`, published as a
//! `plugin.action` event of the plugin that owns the page.
use vstd::prelude::*;
use crate::event::PluginAction;
use crate::json::{json_error, json_error_text, json_field_text, json_str_at, json_str_field, json_text_at};

verus! {

/// The action of a bridge message: its `action` string, or empty.
pub open spec fn action_text(action: Option<Seq<char>>) -> Seq<char> {
    match action {
        Some(a) => a,
        None => Seq::empty(),
    }
}

/// The event for a bridge message whose JSON text parsed (`parsed`), with
/// `action` the string found under `action` and `data` the JSON text of the
/// field `data`; nothing for a text that did not parse.
pub fn bridge_event(plugin: &str, parsed: bool, action: Option<String>, data: String) -> (r: Option<
    PluginAction,
>)
    ensures
        parsed <==> r is Some,
        (match r {
            Some(ev) => {
                &&& ev.plugin@ == plugin@
                &&& ev.action@ == action_text(
                    match action {
                        Some(a) => Some(a@),
                        None => None,
                    },
                )
                &&& ev.payload@ == data@
            },
            None => true,
        }),
{
    if !parsed {
        return None;
    }
    let action = match action {
        Some(a) => a,
        None => {
            proof {
                reveal_strlit("");
            }
            String::from_str("")
        },
    };
    Some(PluginAction { plugin: String::from_str(plugin), action, payload: data })
}

/// The event for the bridge message `json` sent by a page of `plugin`:
/// nothing when the text is not JSON, else the `action` string (empty when
/// missing or not a string) with the JSON text of `data` as the payload.
pub fn bridge_action(plugin: &str, json: &str) -> (r: Option<PluginAction>)
    ensures
        (match json_error_text(json@) {
            Some(_) => r is None,
            None => match r {
                Some(ev) => {
                    &&& ev.plugin@ == plugin@
                    &&& ev.action@ == action_text(json_str_at(json@, "action"@))
                    &&& ev.payload@ == json_text_at(json@, "data"@)
                },
                None => false,
            },
        }),
{
    let parsed = json_error(json).is_none();
    let action = json_str_field(json, "action");
    let data = json_field_text(json, "data");
    bridge_event(plugin, parsed, action, data)
}

} // verus!
