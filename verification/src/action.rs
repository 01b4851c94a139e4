//! Actions: the structured batch a model reply describes, its validation
//! from untyped JSON, and the planning of its dispatch.
//!
//! Planning is pure: it turns a batch into the exact list of effects to
//! perform, stopping at the first unsafe path, and skipping (but not
//! stopping at) any write or append whose content is missing.  Executing
//! the effects — the only part that touches the file system — is left to
//! the embedding program, which runs them in order and stops at the first
//! I/O failure; nothing already performed is rolled back.

use vstd::prelude::*;
use crate::extract::ExtractionError;
use crate::extract::extract_json;
use crate::extract::sp_extract;
use crate::json::JsonModel;
use crate::json::JsonValue;
use crate::parse::views_of_members;

verus! {

/// The closed set of operations a free-form batch may request.
#[derive(PartialEq, Eq, Structural, Clone, Copy, Debug)]
pub enum ActionType {
    CreateFile,
    WriteFile,
    AppendFile,
    ReadFile,
    DeleteFile,
}

/// One requested operation: its kind, its target, and, for writes and
/// appends, the text to write.
#[derive(Debug, Clone, PartialEq, Eq)]
pub struct Action {
    pub action_type: ActionType,
    pub path: String,
    pub content: Option<String>,
}

/// The model of an `Action`.
pub struct ActionModel {
    pub action_type: ActionType,
    pub path: Seq<char>,
    pub content: Option<Seq<char>>,
}

impl View for Action {
    type V = ActionModel;

    open spec fn view(&self) -> ActionModel {
        ActionModel {
            action_type: self.action_type,
            path: self.path@,
            content: match self.content {
                Some(c) => Some(c@),
                None => None,
            },
        }
    }
}

/// An ordered batch of actions with its explanatory message.
#[derive(Debug, Clone, PartialEq, Eq)]
pub struct ActionSet {
    pub explanation: String,
    pub actions: Vec<Action>,
}

/// The model of an `ActionSet`.
pub struct ActionSetModel {
    pub explanation: Seq<char>,
    pub actions: Seq<ActionModel>,
}

impl View for ActionSet {
    type V = ActionSetModel;

    open spec fn view(&self) -> ActionSetModel {
        ActionSetModel {
            explanation: self.explanation@,
            actions: Seq::new(self.actions@.len(), |q: int| if 0 <= q < self.actions@.len() {
                self.actions@[q]@
            } else {
                ActionModel { action_type: ActionType::ReadFile, path: Seq::empty(), content: None }
            }),
        }
    }
}

/// The value of the first member with the given key, if any.
pub open spec fn sp_obj_get(members: Seq<(Seq<char>, JsonModel)>, key: Seq<char>) -> Option<
    JsonModel,
>
    decreases members.len(),
{
    if members.len() == 0 {
        None
    } else if members[0].0 == key {
        Some(members[0].1)
    } else {
        sp_obj_get(members.drop_first(), key)
    }
}

/// Are the two strings the same sequence of characters?
pub fn str_eq(a: &str, b: &str) -> (r: bool)
    ensures
        r == (a@ == b@),
{
    let na = a.unicode_len();
    let nb = b.unicode_len();
    if na != nb {
        proof {
            assert(a@ != b@);
        }
        return false;
    }
    let mut i: usize = 0;
    while i < na
        invariant
            na == a@.len(),
            na == b@.len(),
            i <= na,
            forall|q: int| 0 <= q < i ==> a@[q] == b@[q],
        decreases na - i,
    {
        if a.get_char(i) != b.get_char(i) {
            proof {
                assert(a@[i as int] != b@[i as int]);
            }
            return false;
        }
        i = i + 1;
    }
    proof {
        assert(a@ =~= b@);
    }
    true
}

/// Finds the first member with the given key.
#[verifier::loop_isolation(false)]
pub fn obj_find(members: &Vec<(String, JsonValue)>, key: &str) -> (r: Option<usize>)
    ensures
        match r {
            Some(idx) => idx < members@.len() && members@[idx as int].0@ == key@ && sp_obj_get(
                views_of_members(members@),
                key@,
            ) == Some(members@[idx as int].1@),
            None => sp_obj_get(views_of_members(members@), key@) is None,
        },
{
    let ghost full = views_of_members(members@);
    let mut i: usize = 0;
    proof {
        assert(full.skip(0) =~= full);
    }
    while i < members.len()
        invariant
            i <= members@.len(),
            sp_obj_get(full, key@) == sp_obj_get(full.skip(i as int), key@),
        decreases members@.len() - i,
    {
        if str_eq(members[i].0.as_str(), key) {
            proof {
                assert(full.skip(i as int)[0] == full[i as int]);
            }
            return Some(i);
        }
        proof {
            assert(full.skip(i as int)[0] == full[i as int]);
            assert(full.skip(i as int).drop_first() =~= full.skip(i + 1 as int));
        }
        i = i + 1;
    }
    proof {
        assert(full.skip(members@.len() as int).len() == 0);
    }
    None
}

/// The action kind a name denotes in a batch.
pub open spec fn sp_action_type_of(name: Seq<char>) -> Option<ActionType> {
    if name == "create_file"@ {
        Some(ActionType::CreateFile)
    } else if name == "write_file"@ {
        Some(ActionType::WriteFile)
    } else if name == "append_file"@ {
        Some(ActionType::AppendFile)
    } else if name == "read_file"@ {
        Some(ActionType::ReadFile)
    } else if name == "delete_file"@ {
        Some(ActionType::DeleteFile)
    } else {
        None
    }
}

/// Reads an action kind from its name.
pub fn action_type_of(name: &str) -> (r: Option<ActionType>)
    ensures
        r == sp_action_type_of(name@),
{
    if str_eq(name, "create_file") {
        Some(ActionType::CreateFile)
    } else if str_eq(name, "write_file") {
        Some(ActionType::WriteFile)
    } else if str_eq(name, "append_file") {
        Some(ActionType::AppendFile)
    } else if str_eq(name, "read_file") {
        Some(ActionType::ReadFile)
    } else if str_eq(name, "delete_file") {
        Some(ActionType::DeleteFile)
    } else {
        None
    }
}

/// The action an object denotes: an `action_type` naming a kind, a `path`
/// string, and an optional `content` string, where an explicit `null`
/// counts as absent.
pub open spec fn sp_action_from_json(m: JsonModel) -> Option<ActionModel> {
    match m {
        JsonModel::Object(members) => match (
            sp_obj_get(members, "action_type"@),
            sp_obj_get(members, "path"@),
        ) {
            (Some(JsonModel::Text(tyname)), Some(JsonModel::Text(p))) => match sp_action_type_of(
                tyname,
            ) {
                Some(ty) => match sp_obj_get(members, "content"@) {
                    None => Some(ActionModel { action_type: ty, path: p, content: None }),
                    Some(JsonModel::Null) => Some(
                        ActionModel { action_type: ty, path: p, content: None },
                    ),
                    Some(JsonModel::Text(c)) => Some(
                        ActionModel { action_type: ty, path: p, content: Some(c) },
                    ),
                    Some(_) => None,
                },
                None => None,
            },
            _ => None,
        },
        _ => None,
    }
}

/// Reads one action from a JSON value.
pub fn action_from_json(v: &JsonValue) -> (r: Option<Action>)
    ensures
        match r {
            Some(a) => sp_action_from_json(v@) == Some(a@),
            None => sp_action_from_json(v@) is None,
        },
{
    match v {
        JsonValue::Object(members) => {
            proof {
                assert(views_of_members(members@) =~= v@->Object_0);
            }
            let ty_idx = match obj_find(members, "action_type") {
                Some(i) => i,
                None => {
                    return None;
                },
            };
            let path_idx = match obj_find(members, "path") {
                Some(i) => i,
                None => {
                    return None;
                },
            };
            let ty = match &members[ty_idx].1 {
                JsonValue::Text(tyname) => match action_type_of(tyname.as_str()) {
                    Some(ty) => ty,
                    None => {
                        return None;
                    },
                },
                _ => {
                    return None;
                },
            };
            let path = match &members[path_idx].1 {
                JsonValue::Text(p) => p.clone(),
                _ => {
                    return None;
                },
            };
            let content: Option<String> = match obj_find(members, "content") {
                None => None,
                Some(c_idx) => match &members[c_idx].1 {
                    JsonValue::Null => None,
                    JsonValue::Text(c) => Some(c.clone()),
                    _ => {
                        return None;
                    },
                },
            };
            Some(Action { action_type: ty, path, content })
        },
        _ => None,
    }
}

/// The actions an array denotes, if every element is a valid action.
pub open spec fn sp_actions_from_json(items: Seq<JsonModel>) -> Option<Seq<ActionModel>>
    decreases items.len(),
{
    if items.len() == 0 {
        Some(Seq::empty())
    } else {
        match (sp_action_from_json(items[0]), sp_actions_from_json(items.drop_first())) {
            (Some(a), Some(rest)) => Some(seq![a] + rest),
            _ => None,
        }
    }
}

/// A valid action array yields exactly one action per element.
pub proof fn lemma_actions_from_json_len(items: Seq<JsonModel>)
    requires
        sp_actions_from_json(items) is Some,
    ensures
        sp_actions_from_json(items)->Some_0.len() == items.len(),
    decreases items.len(),
{
    if items.len() > 0 {
        lemma_actions_from_json_len(items.drop_first());
    }
}

/// The batch an object denotes: an `explanation` string and an `actions`
/// array of valid actions.
pub open spec fn sp_action_set_from_json(m: JsonModel) -> Option<ActionSetModel> {
    match m {
        JsonModel::Object(members) => match (
            sp_obj_get(members, "explanation"@),
            sp_obj_get(members, "actions"@),
        ) {
            (Some(JsonModel::Text(e)), Some(JsonModel::Array(items))) => match
                sp_actions_from_json(items) {
                Some(acts) => Some(ActionSetModel { explanation: e, actions: acts }),
                None => None,
            },
            _ => None,
        },
        _ => None,
    }
}

/// Reads a whole batch from a JSON value.
#[verifier::loop_isolation(false)]
pub fn action_set_from_json(v: &JsonValue) -> (r: Option<ActionSet>)
    ensures
        match r {
            Some(a) => sp_action_set_from_json(v@) == Some(a@),
            None => sp_action_set_from_json(v@) is None,
        },
{
    match v {
        JsonValue::Object(members) => {
            proof {
                assert(views_of_members(members@) =~= v@->Object_0);
            }
            let e_idx = match obj_find(members, "explanation") {
                Some(i) => i,
                None => {
                    return None;
                },
            };
            let acts_idx = match obj_find(members, "actions") {
                Some(i) => i,
                None => {
                    return None;
                },
            };
            let explanation = match &members[e_idx].1 {
                JsonValue::Text(e) => e.clone(),
                _ => {
                    return None;
                },
            };
            match &members[acts_idx].1 {
                JsonValue::Array(items) => {
                    let ghost mitems = members@[acts_idx as int].1@->Array_0;
                    proof {
                        assert(mitems.len() == items@.len());
                    }
                    let mut actions: Vec<Action> = Vec::new();
                    let mut i: usize = 0;
                    proof {
                        assert(mitems.skip(0) =~= mitems);
                    }
                    while i < items.len()
                        invariant
                            i <= items@.len(),
                            mitems.len() == items@.len(),
                            forall|q: int| 0 <= q < items@.len() ==> mitems[q] == #[trigger] items@[
                                q
                            ]@,
                            actions@.len() == i,
                            match sp_actions_from_json(mitems) {
                                Some(acts) => forall|q: int| 0 <= q < i ==> #[trigger] actions@[q]@
                                    == acts[q],
                                None => true,
                            },
                            sp_actions_from_json(mitems) is Some <==> sp_actions_from_json(
                                mitems.skip(i as int),
                            ) is Some,
                            sp_actions_from_json(mitems) is Some ==> sp_actions_from_json(
                                mitems,
                            )->Some_0.skip(i as int) == sp_actions_from_json(
                                mitems.skip(i as int),
                            )->Some_0,
                        decreases items@.len() - i,
                    {
                        proof {
                            assert(mitems.skip(i as int)[0] == mitems[i as int]);
                            assert(mitems.skip(i as int).drop_first() =~= mitems.skip(i + 1 as int));
                        }
                        match action_from_json(&items[i]) {
                            Some(a) => {
                                actions.push(a);
                            },
                            None => {
                                proof {
                                    assert(sp_actions_from_json(mitems.skip(i as int)) is None);
                                }
                                return None;
                            },
                        }
                        i = i + 1;
                        proof {
                            if sp_actions_from_json(mitems) is Some {
                                lemma_actions_from_json_len(mitems);
                                let acts = sp_actions_from_json(mitems)->Some_0;
                                let tail = sp_actions_from_json(mitems.skip(i - 1 as int))->Some_0;
                                assert(tail == seq![actions@[i - 1 as int]@]
                                    + sp_actions_from_json(mitems.skip(i as int))->Some_0);
                                assert(acts.skip(i - 1 as int) == tail);
                                assert(acts[i - 1 as int] == acts.skip(i - 1 as int)[0]);
                                assert(acts.skip(i as int) =~= acts.skip(i - 1 as int).drop_first());
                                assert(acts.skip(i as int) == sp_actions_from_json(
                                    mitems.skip(i as int),
                                )->Some_0);
                            }
                        }
                    }
                    proof {
                        assert(mitems.skip(items@.len() as int).len() == 0);
                        assert(sp_actions_from_json(mitems.skip(items@.len() as int)) == Some(
                            Seq::<ActionModel>::empty(),
                        ));
                    }
                    let result = ActionSet { explanation, actions };
                    proof {
                        lemma_actions_from_json_len(mitems);
                        let acts = sp_actions_from_json(mitems)->Some_0;
                        assert(result@.actions =~= acts);
                        assert(sp_action_set_from_json(v@) == Some(result@));
                    }
                    Some(result)
                },
                _ => {
                    return None;
                },
            }
        },
        _ => None,
    }
}

/// What extraction of a whole batch yields on the given text: extraction of
/// one JSON value, then validation; an extracted value that is not a valid
/// batch is a structural failure.
pub open spec fn sp_extract_action_set(s: Seq<char>) -> Result<ActionSetModel, ExtractionError> {
    match sp_extract(s) {
        Ok(m) => match sp_action_set_from_json(m) {
            Some(a) => Ok(a),
            None => Err(ExtractionError::InvalidShape),
        },
        Err(e) => Err(e),
    }
}

/// Extracts a batch of actions from loosely formatted model text.
pub fn extract_action_set(output: &str) -> (r: Result<ActionSet, ExtractionError>)
    ensures
        match r {
            Ok(a) => sp_extract_action_set(output@) == Ok::<ActionSetModel, ExtractionError>(a@),
            Err(e) => sp_extract_action_set(output@) == Err::<ActionSetModel, ExtractionError>(e),
        },
{
    match extract_json(output) {
        Ok(v) => match action_set_from_json(&v) {
            Some(a) => Ok(a),
            None => Err(ExtractionError::InvalidShape),
        },
        Err(e) => Err(e),
    }
}

} // verus!
