//! The tool catalogue in wire form: each definition as a JSON value, and
//! the law that rendering the catalogue and parsing it back yields the very
//! same value — names, required lists and parameter types included.

use vstd::prelude::*;
use crate::json::JsonModel;
use crate::json::JsonValue;
use crate::json::sp_ser;
use crate::json::wf_json;
use crate::json_laws::lemma_json_round_trip;
use crate::parse::sp_parse_text;
use crate::tools::JsonSchemaField;
use crate::tools::JsonSchemaObject;
use crate::tools::ToolDefinition;

verus! {

/// The JSON form of one schema field.
pub open spec fn sp_field_json(f: JsonSchemaField) -> JsonModel {
    JsonModel::Object(
        seq![("type"@, JsonModel::Text(f.field_type@))] + (match f.description {
            Some(d) => seq![("description"@, JsonModel::Text(d@))],
            None => Seq::empty(),
        }) + (match f.enum_values {
            Some(vs) => seq![
                ("enum"@, JsonModel::Array(Seq::new(vs@.len(), |i: int| if 0 <= i < vs@.len() {
                    JsonModel::Text(vs@[i]@)
                } else {
                    JsonModel::Null
                }))),
            ],
            None => Seq::empty(),
        }),
    )
}

/// The JSON form of one parameter schema.
pub open spec fn sp_schema_json(o: JsonSchemaObject) -> JsonModel {
    JsonModel::Object(
        seq![
            ("type"@, JsonModel::Text(o.schema_type@)),
            (
                "properties"@,
                JsonModel::Object(
                    Seq::new(o.properties@.len(), |i: int| if 0 <= i < o.properties@.len() {
                        (o.properties@[i].0@, sp_field_json(o.properties@[i].1))
                    } else {
                        (Seq::<char>::empty(), JsonModel::Null)
                    }),
                ),
            ),
            (
                "required"@,
                JsonModel::Array(
                    Seq::new(o.required@.len(), |i: int| if 0 <= i < o.required@.len() {
                        JsonModel::Text(o.required@[i]@)
                    } else {
                        JsonModel::Null
                    }),
                ),
            ),
        ],
    )
}

/// The JSON form of one catalogue entry.
pub open spec fn sp_def_json(d: ToolDefinition) -> JsonModel {
    JsonModel::Object(
        seq![
            ("type"@, JsonModel::Text("function"@)),
            (
                "function"@,
                JsonModel::Object(
                    seq![
                        ("name"@, JsonModel::Text(d.function.name@)),
                        ("description"@, JsonModel::Text(d.function.description@)),
                        ("parameters"@, sp_schema_json(d.function.parameters)),
                    ],
                ),
            ),
        ],
    )
}

/// The JSON form of a whole catalogue.
pub open spec fn sp_catalogue_json(defs: Seq<ToolDefinition>) -> JsonModel {
    JsonModel::Array(
        Seq::new(defs.len(), |i: int| if 0 <= i < defs.len() {
            sp_def_json(defs[i])
        } else {
            JsonModel::Null
        }),
    )
}

/// Builds the JSON form of one schema field.
fn field_to_json(f: &JsonSchemaField) -> (r: JsonValue)
    ensures
        r@ == sp_field_json(*f),
{
    let mut members: Vec<(String, JsonValue)> = Vec::new();
    members.push((String::from_str("type"), JsonValue::Text(f.field_type.clone())));
    match &f.description {
        Some(d) => {
            members.push((String::from_str("description"), JsonValue::Text(d.clone())));
        },
        None => {},
    }
    match &f.enum_values {
        Some(vs) => {
            let mut items: Vec<JsonValue> = Vec::new();
            let mut i: usize = 0;
            while i < vs.len()
                invariant
                    i <= vs@.len(),
                    items@.len() == i,
                    forall|q: int| 0 <= q < i ==> #[trigger] items@[q]@ == JsonModel::Text(
                        vs@[q]@,
                    ),
                decreases vs@.len() - i,
            {
                items.push(JsonValue::Text(vs[i].clone()));
                i = i + 1;
            }
            let arr = JsonValue::Array(items);
            proof {
                let want = Seq::new(vs@.len(), |q: int| if 0 <= q < vs@.len() {
                    JsonModel::Text(vs@[q]@)
                } else {
                    JsonModel::Null
                });
                assert(arr@->Array_0.len() == want.len());
                assert forall|q: int| 0 <= q < want.len() implies arr@->Array_0[q] == want[q] by {
                    assert(arr@->Array_0[q] == items@[q]@);
                }
                assert(arr@->Array_0 =~~= want);
                assert(arr@ == JsonModel::Array(want));
            }
            members.push((String::from_str("enum"), arr));
        },
        None => {},
    }
    let r = JsonValue::Object(members);
    proof {
        let lhs = r@->Object_0;
        let rhs = sp_field_json(*f)->Object_0;
        assert(members@[0].0@ == "type"@);
        assert(members@[0].1@ == JsonModel::Text(f.field_type@));
        assert(lhs[0] == (members@[0].0@, members@[0].1@));
        if f.description is Some {
            let d = f.description->Some_0;
            assert(members@[1].0@ == "description"@);
            assert(members@[1].1@ == JsonModel::Text(d@));
            assert(lhs[1] == (members@[1].0@, members@[1].1@));
        }
        if f.enum_values is Some {
            let vs = f.enum_values->Some_0;
            let ei = members@.len() - 1;
            assert(members@[ei].0@ == "enum"@);
            let want = Seq::new(vs@.len(), |i: int| if 0 <= i < vs@.len() {
                JsonModel::Text(vs@[i]@)
            } else {
                JsonModel::Null
            });
            assert(members@[ei].1@ == JsonModel::Array(want));
            assert(lhs[ei] == (members@[ei].0@, members@[ei].1@));
        }
        assert(lhs.len() == rhs.len());
        assert(lhs =~~= rhs);
    }
    r
}

/// Builds the JSON form of one parameter schema.
fn schema_to_json(o: &JsonSchemaObject) -> (r: JsonValue)
    ensures
        r@ == sp_schema_json(*o),
{
    let mut props: Vec<(String, JsonValue)> = Vec::new();
    let mut i: usize = 0;
    while i < o.properties.len()
        invariant
            i <= o.properties@.len(),
            props@.len() == i,
            forall|q: int| 0 <= q < i ==> #[trigger] props@[q].0@ == o.properties@[q].0@
                && props@[q].1@ == sp_field_json(o.properties@[q].1),
        decreases o.properties@.len() - i,
    {
        let ghost pre = props@;
        let pair = &o.properties[i];
        props.push((pair.0.clone(), field_to_json(&pair.1)));
        i = i + 1;
        proof {
            assert forall|q: int| 0 <= q < i implies #[trigger] props@[q].0@ == o.properties@[q].0@
                && props@[q].1@ == sp_field_json(o.properties@[q].1) by {
                if q < i - 1 {
                    assert(props@[q] == pre[q]);
                }
                assert(props@[q].0@ =~= o.properties@[q].0@);
                assert(props@[q].1@ =~~= sp_field_json(o.properties@[q].1));
            }
        }
    }
    let mut req: Vec<JsonValue> = Vec::new();
    let mut k: usize = 0;
    while k < o.required.len()
        invariant
            k <= o.required@.len(),
            req@.len() == k,
            forall|q: int| 0 <= q < k ==> #[trigger] req@[q]@ == JsonModel::Text(o.required@[q]@),
        decreases o.required@.len() - k,
    {
        req.push(JsonValue::Text(o.required[k].clone()));
        k = k + 1;
    }
    let mut members: Vec<(String, JsonValue)> = Vec::new();
    members.push((String::from_str("type"), JsonValue::Text(o.schema_type.clone())));
    members.push((String::from_str("properties"), JsonValue::Object(props)));
    members.push((String::from_str("required"), JsonValue::Array(req)));
    let r = JsonValue::Object(members);
    proof {
        let lhs = r@->Object_0;
        let rhs = sp_schema_json(*o)->Object_0;
        assert(members@[0].0@ == "type"@);
        assert(members@[0].1@ == JsonModel::Text(o.schema_type@));
        assert(lhs[0] == (members@[0].0@, members@[0].1@));
        assert(members@[1].0@ == "properties"@);
        let inner_props = members@[1].1@->Object_0;
        let want_props = Seq::new(o.properties@.len(), |i: int| if 0 <= i < o.properties@.len() {
            (o.properties@[i].0@, sp_field_json(o.properties@[i].1))
        } else {
            (Seq::<char>::empty(), JsonModel::Null)
        });
        assert(inner_props.len() == want_props.len());
        assert forall|q: int| 0 <= q < inner_props.len() implies inner_props[q] == want_props[q] by {
            assert(inner_props[q] == (props@[q].0@, props@[q].1@));
        }
        assert(inner_props =~~= want_props);
        assert(members@[1].1@ == JsonModel::Object(want_props));
        assert(lhs[1] == (members@[1].0@, members@[1].1@));
        assert(members@[2].0@ == "required"@);
        let inner_req = members@[2].1@->Array_0;
        let want_req = Seq::new(o.required@.len(), |i: int| if 0 <= i < o.required@.len() {
            JsonModel::Text(o.required@[i]@)
        } else {
            JsonModel::Null
        });
        assert(inner_req.len() == want_req.len());
        assert forall|q: int| 0 <= q < inner_req.len() implies inner_req[q] == want_req[q] by {
            assert(inner_req[q] == req@[q]@);
        }
        assert(inner_req =~~= want_req);
        assert(members@[2].1@ == JsonModel::Array(want_req));
        assert(lhs[2] == (members@[2].0@, members@[2].1@));
        assert(lhs.len() == rhs.len());
        assert(lhs =~~= rhs);
    }
    r
}

/// Builds the JSON form of one catalogue entry.
fn definition_to_json(d: &ToolDefinition) -> (r: JsonValue)
    ensures
        r@ == sp_def_json(*d),
{
    let mut inner: Vec<(String, JsonValue)> = Vec::new();
    inner.push((String::from_str("name"), JsonValue::Text(d.function.name.clone())));
    inner.push(
        (String::from_str("description"), JsonValue::Text(d.function.description.clone())),
    );
    inner.push((String::from_str("parameters"), schema_to_json(&d.function.parameters)));
    let mut members: Vec<(String, JsonValue)> = Vec::new();
    members.push((String::from_str("type"), JsonValue::Text(String::from_str("function"))));
    members.push((String::from_str("function"), JsonValue::Object(inner)));
    let r = JsonValue::Object(members);
    proof {
        let lhs = r@->Object_0;
        let rhs = sp_def_json(*d)->Object_0;
        assert(members@[0].0@ == "type"@);
        assert(members@[0].1@ == JsonModel::Text("function"@));
        assert(lhs[0] == (members@[0].0@, members@[0].1@));
        assert(members@[1].0@ == "function"@);
        let lhs_inner = members@[1].1@->Object_0;
        let rhs_inner = rhs[1].1->Object_0;
        assert(inner@[0].0@ == "name"@);
        assert(inner@[0].1@ == JsonModel::Text(d.function.name@));
        assert(lhs_inner[0] == (inner@[0].0@, inner@[0].1@));
        assert(inner@[1].0@ == "description"@);
        assert(inner@[1].1@ == JsonModel::Text(d.function.description@));
        assert(lhs_inner[1] == (inner@[1].0@, inner@[1].1@));
        assert(inner@[2].0@ == "parameters"@);
        assert(inner@[2].1@ == sp_schema_json(d.function.parameters));
        assert(lhs_inner[2] == (inner@[2].0@, inner@[2].1@));
        assert(lhs_inner =~~= rhs_inner);
        assert(members@[1].1@ == JsonModel::Object(rhs_inner));
        assert(lhs[1] == (members@[1].0@, members@[1].1@));
        assert(lhs.len() == rhs.len());
        assert(lhs =~~= rhs);
    }
    r
}

/// Builds the JSON form of a whole catalogue.
pub fn definitions_to_json(defs: &Vec<ToolDefinition>) -> (r: JsonValue)
    ensures
        r@ == sp_catalogue_json(defs@),
{
    let mut items: Vec<JsonValue> = Vec::new();
    let mut i: usize = 0;
    while i < defs.len()
        invariant
            i <= defs@.len(),
            items@.len() == i,
            forall|q: int| 0 <= q < i ==> #[trigger] items@[q]@ == sp_def_json(defs@[q]),
        decreases defs@.len() - i,
    {
        items.push(definition_to_json(&defs[i]));
        i = i + 1;
    }
    let r = JsonValue::Array(items);
    proof {
        let lhs = r@->Array_0;
        let rhs = sp_catalogue_json(defs@)->Array_0;
        assert forall|q: int| 0 <= q < lhs.len() implies lhs[q] == rhs[q] by {
            assert(lhs[q] == items@[q]@);
        }
        assert(lhs.len() == rhs.len());
        assert(lhs =~~= rhs);
    }
    r
}

/// A field's JSON form holds no number lexeme.
proof fn lemma_field_json_wf(f: JsonSchemaField)
    ensures
        wf_json(sp_field_json(f)),
{
    let members = sp_field_json(f)->Object_0;
    assert forall|q: int| 0 <= q < members.len() implies wf_json(#[trigger] members[q].1) by {
        if members[q].1 is Array {
            let items = members[q].1->Array_0;
            assert(forall|w: int| 0 <= w < items.len() ==> wf_json(#[trigger] items[w]));
        }
    }
}

/// A schema's JSON form holds no number lexeme.
proof fn lemma_schema_json_wf(o: JsonSchemaObject)
    ensures
        wf_json(sp_schema_json(o)),
{
    let members = sp_schema_json(o)->Object_0;
    let props = members[1].1->Object_0;
    assert forall|q: int| 0 <= q < props.len() implies wf_json(#[trigger] props[q].1) by {
        lemma_field_json_wf(o.properties@[q].1);
    }
    assert(wf_json(members[1].1));
    let req = members[2].1->Array_0;
    assert(forall|q: int| 0 <= q < req.len() ==> wf_json(#[trigger] req[q]));
    assert(wf_json(members[0].1));
    assert(wf_json(members[2].1));
    assert forall|q: int| 0 <= q < members.len() implies wf_json(#[trigger] members[q].1) by {
        assert(q == 0 || q == 1 || q == 2);
    }
}

/// A catalogue entry's JSON form holds no number lexeme.
proof fn lemma_def_json_wf(d: ToolDefinition)
    ensures
        wf_json(sp_def_json(d)),
{
    lemma_schema_json_wf(d.function.parameters);
    let members = sp_def_json(d)->Object_0;
    let inner = members[1].1->Object_0;
    assert forall|q: int| 0 <= q < inner.len() implies wf_json(#[trigger] inner[q].1) by {
        assert(q == 0 || q == 1 || q == 2);
    }
    assert(wf_json(members[1].1));
    assert forall|q: int| 0 <= q < members.len() implies wf_json(#[trigger] members[q].1) by {
        assert(q == 0 || q == 1);
    }
}

/// The catalogue round trip: rendering any catalogue as JSON text and
/// parsing the text back yields exactly the catalogue's JSON form — the
/// same tool names, required lists and parameter types.
pub proof fn lemma_catalogue_round_trip(defs: Seq<ToolDefinition>)
    ensures
        sp_parse_text(sp_ser(sp_catalogue_json(defs))) == Some(sp_catalogue_json(defs)),
{
    let items = sp_catalogue_json(defs)->Array_0;
    assert forall|q: int| 0 <= q < items.len() implies wf_json(#[trigger] items[q]) by {
        lemma_def_json_wf(defs[q]);
    }
    lemma_json_round_trip(sp_catalogue_json(defs));
}

} // verus!
