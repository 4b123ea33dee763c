//! Decoding of shell-extension records.
//!
//! The shell lists its extensions as a dictionary from extension uuid to
//! a property dictionary with heterogeneous values.  This module decodes
//! one such property dictionary into a typed record: the required fields
//! are the name, the description, the url and the state code; the
//! version is optional and falls back to the empty string, as does a
//! version that is not text.

use vstd::prelude::*;

use crate::codec::str_eq;

verus! {

/// The lifecycle state of a shell extension, with the integer codes
/// that the shell's extension interface documents.
#[derive(Clone, Copy, PartialEq, Eq, Structural, Debug)]
pub enum ExtensionState {
    Enabled,
    Disabled,
    Errored,
    OutOfDate,
    Downloading,
    Initialized,
    Uninstalled,
}

/// The integer code under which the shell reports `state`.
pub open spec fn spec_state_code(state: ExtensionState) -> int {
    match state {
        ExtensionState::Enabled => 1,
        ExtensionState::Disabled => 2,
        ExtensionState::Errored => 3,
        ExtensionState::OutOfDate => 4,
        ExtensionState::Downloading => 5,
        ExtensionState::Initialized => 6,
        ExtensionState::Uninstalled => 99,
    }
}

/// The integer code under which the shell reports `state`.
pub fn state_code(state: &ExtensionState) -> (code: i64)
    ensures
        code as int == spec_state_code(*state),
{
    match state {
        ExtensionState::Enabled => 1,
        ExtensionState::Disabled => 2,
        ExtensionState::Errored => 3,
        ExtensionState::OutOfDate => 4,
        ExtensionState::Downloading => 5,
        ExtensionState::Initialized => 6,
        ExtensionState::Uninstalled => 99,
    }
}

/// The state that the code `code` denotes; a code outside the
/// documented set falls back to the uninstalled state.
pub open spec fn spec_state_from_code(code: int) -> ExtensionState {
    if code == 1 {
        ExtensionState::Enabled
    } else if code == 2 {
        ExtensionState::Disabled
    } else if code == 3 {
        ExtensionState::Errored
    } else if code == 4 {
        ExtensionState::OutOfDate
    } else if code == 5 {
        ExtensionState::Downloading
    } else if code == 6 {
        ExtensionState::Initialized
    } else {
        ExtensionState::Uninstalled
    }
}

/// Decodes a state code reported by the shell.
pub fn state_from_code(code: i64) -> (state: ExtensionState)
    ensures
        state == spec_state_from_code(code as int),
{
    if code == 1 {
        ExtensionState::Enabled
    } else if code == 2 {
        ExtensionState::Disabled
    } else if code == 3 {
        ExtensionState::Errored
    } else if code == 4 {
        ExtensionState::OutOfDate
    } else if code == 5 {
        ExtensionState::Downloading
    } else if code == 6 {
        ExtensionState::Initialized
    } else {
        ExtensionState::Uninstalled
    }
}

/// Decoding the code of a state yields the state again.
pub proof fn lemma_state_code_round_trip(state: ExtensionState)
    ensures
        spec_state_from_code(spec_state_code(state)) == state,
{
}

/// A value of an extension property dictionary, as far as this library
/// reads it: a text or an integer-valued number.
#[derive(Clone, Debug)]
pub enum PropValue {
    Text(String),
    Number(i64),
}

/// A decoded extension record.
#[derive(Clone, Debug)]
pub struct ListExtension {
    pub uuid: String,
    pub name: String,
    pub description: String,
    pub state: ExtensionState,
    pub version: String,
    pub url: String,
}

/// The value of the first property named `name`.
pub open spec fn spec_lookup(props: Seq<(String, PropValue)>, name: Seq<char>) -> Option<
    PropValue,
>
    decreases props.len(),
{
    if props.len() == 0 {
        None
    } else if props[0].0@ == name {
        Some(props[0].1)
    } else {
        spec_lookup(props.skip(1), name)
    }
}

/// The text of the property named `name`, when it is present and is
/// text.
pub open spec fn spec_text_prop(props: Seq<(String, PropValue)>, name: Seq<char>) -> Option<
    Seq<char>,
> {
    match spec_lookup(props, name) {
        Some(PropValue::Text(s)) => Some(s@),
        Some(PropValue::Number(_)) => None,
        None => None,
    }
}

/// The number of the property named `name`, when it is present and is
/// a number.
pub open spec fn spec_number_prop(props: Seq<(String, PropValue)>, name: Seq<char>) -> Option<
    int,
> {
    match spec_lookup(props, name) {
        Some(PropValue::Number(n)) => Some(n as int),
        Some(PropValue::Text(_)) => None,
        None => None,
    }
}

/// The version field of a property dictionary: its text when the
/// `version` property is text, and the empty string otherwise.
pub open spec fn spec_version_of(props: Seq<(String, PropValue)>) -> Seq<char> {
    match spec_lookup(props, "version"@) {
        Some(PropValue::Text(s)) => s@,
        Some(PropValue::Number(_)) => Seq::empty(),
        None => Seq::empty(),
    }
}

/// Whether a property dictionary decodes to a record: the name, the
/// description and the url must be present as text, and the state as a
/// number.
pub open spec fn spec_decodable(props: Seq<(String, PropValue)>) -> bool {
    &&& spec_text_prop(props, "name"@) is Some
    &&& spec_text_prop(props, "description"@) is Some
    &&& spec_text_prop(props, "url"@) is Some
    &&& spec_number_prop(props, "state"@) is Some
}

/// Whether the record `e` is the decoding of the property dictionary
/// `props` for the extension `uuid`.
pub open spec fn spec_entry_matches(
    e: ListExtension,
    uuid: Seq<char>,
    props: Seq<(String, PropValue)>,
) -> bool {
    &&& e.uuid@ == uuid
    &&& Some(e.name@) == spec_text_prop(props, "name"@)
    &&& Some(e.description@) == spec_text_prop(props, "description"@)
    &&& Some(e.url@) == spec_text_prop(props, "url"@)
    &&& e.state == spec_state_from_code(spec_number_prop(props, "state"@).unwrap())
    &&& e.version@ == spec_version_of(props)
}

/// Finds the first property named `name`.
pub fn lookup<'a>(props: &'a Vec<(String, PropValue)>, name: &str) -> (r: Option<&'a PropValue>)
    ensures
        match r {
            Some(v) => spec_lookup(props@, name@) == Some(*v),
            None => spec_lookup(props@, name@) is None,
        },
{
    let mut i: usize = 0;
    proof {
        assert(props@.skip(0) =~= props@);
    }
    while i < props.len()
        invariant
            i <= props@.len(),
            spec_lookup(props@, name@) == spec_lookup(props@.skip(i as int), name@),
        decreases props@.len() - i,
    {
        proof {
            assert(props@.skip(i as int)[0] == props@[i as int]);
            assert(props@.skip(i as int).skip(1) =~= props@.skip(i + 1));
        }
        if str_eq(props[i].0.as_str(), name) {
            return Some(&props[i].1);
        }
        i = i + 1;
    }
    proof {
        assert(props@.skip(i as int) =~= Seq::<(String, PropValue)>::empty());
    }
    None
}

/// Decodes the property dictionary of the extension `uuid` into a
/// record.  Returns `None` exactly when a required field is missing or
/// has the wrong shape.
pub fn decode_extension(uuid: String, props: &Vec<(String, PropValue)>) -> (r: Option<
    ListExtension,
>)
    ensures
        r is Some <==> spec_decodable(props@),
        r matches Some(e) ==> spec_entry_matches(e, uuid@, props@),
{
    let name = match lookup(props, "name") {
        Some(PropValue::Text(s)) => s.clone(),
        _ => {
            return None;
        },
    };
    let description = match lookup(props, "description") {
        Some(PropValue::Text(s)) => s.clone(),
        _ => {
            return None;
        },
    };
    let url = match lookup(props, "url") {
        Some(PropValue::Text(s)) => s.clone(),
        _ => {
            return None;
        },
    };
    let code = match lookup(props, "state") {
        Some(PropValue::Number(n)) => *n,
        _ => {
            return None;
        },
    };
    let version = match lookup(props, "version") {
        Some(PropValue::Text(s)) => s.clone(),
        _ => String::new(),
    };
    let state = state_from_code(code);
    Some(
        ListExtension {
            uuid,
            name,
            description,
            state,
            version,
            url,
        },
    )
}

/// Decodes a whole extension listing: one record for each entry, in
/// order.  Returns `None` exactly when some entry does not decode.
pub fn decode_extension_list(list: Vec<(String, Vec<(String, PropValue)>)>) -> (r: Option<
    Vec<ListExtension>,
>)
    ensures
        r is Some <==> (forall|i: int|
            0 <= i < list@.len() ==> spec_decodable(#[trigger] list@[i].1@)),
        r matches Some(l) ==> l@.len() == list@.len() && (forall|i: int|
            0 <= i < list@.len() ==> spec_entry_matches(
                #[trigger] l@[i],
                list@[i].0@,
                list@[i].1@,
            )),
{
    let mut out: Vec<ListExtension> = Vec::new();
    let mut i: usize = 0;
    while i < list.len()
        invariant
            i <= list@.len(),
            out@.len() == i,
            forall|j: int| 0 <= j < i ==> spec_decodable(#[trigger] list@[j].1@),
            forall|j: int|
                0 <= j < i ==> spec_entry_matches(#[trigger] out@[j], list@[j].0@, list@[j].1@),
        decreases list@.len() - i,
    {
        let uuid = list[i].0.clone();
        let entry = decode_extension(uuid, &list[i].1);
        let e = match entry {
            Some(e) => e,
            None => {
                return None;
            },
        };
        out.push(e);
        i = i + 1;
    }
    Some(out)
}

} // verus!
