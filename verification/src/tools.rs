//! Tool definitions in the provider's flat form, and the conversion from the
//! generic JSON-schema form.

use vstd::prelude::*;
use crate::completion;
use crate::json::{json_shape, shape_member, shapes_of, value_as_array, value_as_str, value_entries, value_get, JsonShape};
use crate::text::str_eq;

verus! {

/// One parameter of a tool, as the provider wants it.
#[derive(Debug)]
pub struct Parameter {
    pub description: String,
    pub param_type: String,
    pub required: bool,
}

/// A tool as the provider wants it: each parameter under its name, no name
/// twice.
#[derive(Debug)]
pub struct ToolDefinition {
    pub name: String,
    pub description: String,
    pub parameter_definitions: Vec<(String, Parameter)>,
}

/// What is wrong with a generic tool definition's schema.
#[derive(Debug)]
pub enum SchemaError {
    /// The schema is no object with a `properties` member.
    MissingProperties,
    /// `properties` is there and is no object.
    PropertiesNotObject,
    /// The named parameter has no `description`.
    MissingDescription(String),
    /// The named parameter's `description` is no string.
    DescriptionNotText(String),
    /// The named parameter has no `type`.
    MissingType(String),
}

/// The provider's name for a JSON-schema primitive type name: the six known
/// names stand for themselves, every other text becomes "string".
pub open spec fn primitive_type(t: Seq<char>) -> Seq<char> {
    if t == "number"@ || t == "integer"@ || t == "boolean"@ || t == "array"@ || t == "object"@ {
        t
    } else {
        "string"@
    }
}

/// The first of `items` that is not the text "null".
pub open spec fn first_non_null(items: Seq<JsonShape>) -> Option<JsonShape>
    decreases items.len(),
{
    if items.len() == 0 {
        None
    } else if items[0] != JsonShape::Text("null"@) {
        Some(items[0])
    } else {
        first_non_null(items.drop_first())
    }
}

/// The provider's type name for a schema's `type` member: a text is mapped by
/// `primitive_type`; of an array the first entry that is not "null" decides;
/// whatever is no text counts as "string".
pub open spec fn vendor_type(t: JsonShape) -> Seq<char> {
    match t {
        JsonShape::Text(s) => primitive_type(s),
        JsonShape::Array(items) => match first_non_null(items) {
            Some(JsonShape::Text(s)) => primitive_type(s),
            _ => "string"@,
        },
        _ => "string"@,
    }
}

/// The names that the schema's `required` member lists: its text entries if
/// it is an array, nothing otherwise.
pub open spec fn required_names(schema: JsonShape) -> Set<Seq<char>> {
    match shape_member(schema, "required"@) {
        Some(JsonShape::Array(items)) => Set::new(|n: Seq<char>| items.contains(JsonShape::Text(n))),
        _ => Set::empty(),
    }
}

/// A parameter's schema can be converted: it has a text `description` and
/// some `type`.
pub open spec fn parameter_ok(def: JsonShape) -> bool {
    &&& shape_member(def, "description"@) matches Some(d) && d is Text
    &&& shape_member(def, "type"@) is Some
}

/// The schema's `properties`, where it is an object.
pub open spec fn properties_of(schema: JsonShape) -> Map<Seq<char>, JsonShape> {
    shape_member(schema, "properties"@)->Some_0->Object_0
}

/// A tool's schema can be converted: `properties` is an object, and each of
/// its members is a convertible parameter.
pub open spec fn schema_ok(schema: JsonShape) -> bool {
    &&& shape_member(schema, "properties"@) matches Some(p) && p is Object
    &&& forall|k: Seq<char>| #[trigger] properties_of(schema).dom().contains(k)
        ==> parameter_ok(properties_of(schema)[k])
}

/// `e` names something that is wrong with `schema`.
pub open spec fn schema_fault(e: SchemaError, schema: JsonShape) -> bool {
    let found = shape_member(schema, "properties"@);
    let props = properties_of(schema);
    match e {
        SchemaError::MissingProperties => found is None,
        SchemaError::PropertiesNotObject => found matches Some(p) && !(p is Object),
        SchemaError::MissingDescription(n) => {
            &&& found matches Some(p) && p is Object
            &&& props.dom().contains(n@)
            &&& shape_member(props[n@], "description"@) is None
        },
        SchemaError::DescriptionNotText(n) => {
            &&& found matches Some(p) && p is Object
            &&& props.dom().contains(n@)
            &&& shape_member(props[n@], "description"@) matches Some(d) && !(d is Text)
        },
        SchemaError::MissingType(n) => {
            &&& found matches Some(p) && p is Object
            &&& props.dom().contains(n@)
            &&& shape_member(props[n@], "description"@) matches Some(d) && d is Text
            &&& shape_member(props[n@], "type"@) is None
        },
    }
}

/// Whatever is wrong with a schema, the schema is not convertible.
pub proof fn lemma_fault_excludes_ok(e: SchemaError, schema: JsonShape)
    requires
        schema_fault(e, schema),
    ensures
        !schema_ok(schema),
{
}

/// `p` is the provider's form of the parameter `name` of `schema`.
pub open spec fn parameter_matches(p: Parameter, name: Seq<char>, schema: JsonShape) -> bool {
    let def = properties_of(schema)[name];
    &&& properties_of(schema).dom().contains(name)
    &&& shape_member(def, "description"@) == Some(JsonShape::Text(p.description@))
    &&& shape_member(def, "type"@) is Some
    &&& p.param_type@ == vendor_type(shape_member(def, "type"@)->Some_0)
    &&& p.required == required_names(schema).contains(name)
}

impl ToolDefinition {
    /// No parameter name occurs twice.
    pub open spec fn wf(&self) -> bool {
        forall|i: int, j: int| 0 <= i < j < self.parameter_definitions@.len()
            ==> (#[trigger] self.parameter_definitions@[i]).0@ != (#[trigger] self.parameter_definitions@[j]).0@
    }

    /// The parameters are exactly those of `schema`'s `properties`, each in
    /// the provider's form.
    pub open spec fn describes(&self, schema: JsonShape) -> bool {
        &&& self.wf()
        &&& forall|i: int| 0 <= i < self.parameter_definitions@.len() ==> parameter_matches(
            (#[trigger] self.parameter_definitions@[i]).1,
            self.parameter_definitions@[i].0@,
            schema,
        )
        &&& forall|k: Seq<char>| #[trigger] properties_of(schema).dom().contains(k)
            ==> exists|i: int| 0 <= i < self.parameter_definitions@.len()
                && (#[trigger] self.parameter_definitions@[i]).0@ == k
    }

    /// The parameter called `name`, if there is one.
    pub fn parameter(&self, name: &str) -> (r: Option<&Parameter>)
        ensures
            match r {
                Some(p) => exists|i: int| 0 <= i < self.parameter_definitions@.len()
                    && (#[trigger] self.parameter_definitions@[i]).0@ == name@
                    && self.parameter_definitions@[i].1 == *p,
                None => forall|i: int| 0 <= i < self.parameter_definitions@.len()
                    ==> (#[trigger] self.parameter_definitions@[i]).0@ != name@,
            },
    {
        let mut i: usize = 0;
        while i < self.parameter_definitions.len()
            invariant
                forall|j: int| 0 <= j < i ==> (#[trigger] self.parameter_definitions@[j]).0@ != name@,
            decreases self.parameter_definitions.len() - i,
        {
            if str_eq(self.parameter_definitions[i].0.as_str(), name) {
                return Some(&self.parameter_definitions[i].1);
            }
            i += 1;
        }
        None
    }
}

/// Maps a JSON-schema primitive type name to the provider's.
pub fn convert_type_str(t: &str) -> (r: String)
    ensures
        r@ == primitive_type(t@),
{
    if str_eq(t, "number") {
        "number".to_owned()
    } else if str_eq(t, "integer") {
        "integer".to_owned()
    } else if str_eq(t, "boolean") {
        "boolean".to_owned()
    } else if str_eq(t, "array") {
        "array".to_owned()
    } else if str_eq(t, "object") {
        "object".to_owned()
    } else {
        "string".to_owned()
    }
}

proof fn lemma_first_non_null_skip(items: Seq<JsonShape>, i: int)
    requires
        0 <= i < items.len(),
        forall|j: int| 0 <= j < i ==> items[j] == JsonShape::Text("null"@),
    ensures
        first_non_null(items) == first_non_null(items.skip(i)),
    decreases i,
{
    if i > 0 {
        lemma_first_non_null_skip(items, i - 1);
        let s = items.skip(i - 1);
        assert(s[0] == items[i - 1]);
        assert(s.drop_first() =~= items.skip(i));
    } else {
        assert(items.skip(0) =~= items);
    }
}

proof fn lemma_first_non_null_none(items: Seq<JsonShape>)
    requires
        forall|j: int| 0 <= j < items.len() ==> items[j] == JsonShape::Text("null"@),
    ensures
        first_non_null(items) is None,
    decreases items.len(),
{
    if items.len() > 0 {
        lemma_first_non_null_none(items.drop_first());
    }
}

/// The provider's type name for a schema's `type` member.
pub fn convert_type(t: &serde_json::Value) -> (r: String)
    ensures
        r@ == vendor_type(json_shape(*t)),
{
    match value_as_str(t) {
        Some(s) => convert_type_str(s),
        None => match value_as_array(t) {
            Some(types) => {
                let ghost shapes = shapes_of(types@);
                let mut i: usize = 0;
                while i < types.len()
                    invariant
                        shapes == shapes_of(types@),
                        json_shape(*t) == JsonShape::Array(shapes),
                        i <= types.len(),
                        forall|j: int| 0 <= j < i ==> shapes[j] == JsonShape::Text("null"@),
                    decreases types.len() - i,
                {
                    assert(shapes[i as int] == json_shape(types@[i as int]));
                    let found = value_as_str(&types[i]);
                    let is_null = match found {
                        Some(s) => str_eq(s, "null"),
                        None => false,
                    };
                    if !is_null {
                        proof {
                            lemma_first_non_null_skip(shapes, i as int);
                            let rest = shapes.skip(i as int);
                            assert(rest.len() > 0);
                            assert(rest[0] == shapes[i as int]);
                            assert(rest[0] != JsonShape::Text("null"@));
                            assert(first_non_null(rest) == Some(shapes[i as int]));
                        }
                        return match found {
                            Some(s) => convert_type_str(s),
                            None => "string".to_owned(),
                        };
                    }
                    i += 1;
                }
                proof {
                    lemma_first_non_null_none(shapes);
                }
                "string".to_owned()
            },
            None => "string".to_owned(),
        },
    }
}

/// Whether `items` holds the text `name`.
fn lists_name(items: &Vec<serde_json::Value>, name: &str) -> (r: bool)
    ensures
        r == shapes_of(items@).contains(JsonShape::Text(name@)),
{
    let ghost shapes = shapes_of(items@);
    let mut i: usize = 0;
    while i < items.len()
        invariant
            shapes == shapes_of(items@),
            i <= items.len(),
            forall|j: int| 0 <= j < i ==> shapes[j] != JsonShape::Text(name@),
        decreases items.len() - i,
    {
        assert(shapes[i as int] == json_shape(items@[i as int]));
        let hit = match value_as_str(&items[i]) {
            Some(s) => str_eq(s, name),
            None => false,
        };
        if hit {
            return true;
        }
        i += 1;
    }
    false
}

/// The `required` array of a schema, if it has one.
fn required_items<'a>(schema: &'a serde_json::Value) -> (r: Option<&'a Vec<serde_json::Value>>)
    ensures
        match r {
            Some(items) => shape_member(json_shape(*schema), "required"@) == Some(
                JsonShape::Array(shapes_of(items@)),
            ),
            None => !(shape_member(json_shape(*schema), "required"@) matches Some(a) && a is Array),
        },
{
    match value_get(schema, "required") {
        Some(v) => value_as_array(v),
        None => None,
    }
}

impl ToolDefinition {
    /// Converts a generic tool definition, or says what is wrong with its
    /// schema. Name and description are kept; each member of the schema's
    /// `properties` becomes one parameter.
    pub fn try_from_generic(tool: completion::ToolDefinition) -> (r: Result<ToolDefinition, SchemaError>)
        ensures
            r is Ok <==> schema_ok(json_shape(tool.parameters)),
            match r {
                Ok(t) => {
                    &&& t.name == tool.name
                    &&& t.description == tool.description
                    &&& t.describes(json_shape(tool.parameters))
                },
                Err(e) => schema_fault(e, json_shape(tool.parameters)),
            },
    {
        let ghost schema = json_shape(tool.parameters);
        let required = required_items(&tool.parameters);
        let properties = match value_get(&tool.parameters, "properties") {
            Some(p) => p,
            None => { return Err(SchemaError::MissingProperties); },
        };
        let entries = match value_entries(properties) {
            Some(e) => e,
            None => { return Err(SchemaError::PropertiesNotObject); },
        };
        let mut parameter_definitions: Vec<(String, Parameter)> = Vec::new();
        let mut i: usize = 0;
        while i < entries.len()
            invariant
                i <= entries.len(),
                schema == json_shape(tool.parameters),
                shape_member(schema, "properties"@) == Some(json_shape(*properties)),
                json_shape(*properties) is Object,
                match required {
                    Some(items) => shape_member(schema, "required"@) == Some(JsonShape::Array(shapes_of(items@))),
                    None => !(shape_member(schema, "required"@) matches Some(a) && a is Array),
                },
                forall|j: int| 0 <= j < entries@.len() ==> {
                    &&& properties_of(schema).dom().contains((#[trigger] entries@[j]).0@)
                    &&& properties_of(schema)[entries@[j].0@] == json_shape(*entries@[j].1)
                },
                forall|a: int, b: int| 0 <= a < b < entries@.len()
                    ==> (#[trigger] entries@[a]).0@ != (#[trigger] entries@[b]).0@,
                parameter_definitions@.len() == i,
                forall|j: int| 0 <= j < i ==> {
                    &&& (#[trigger] parameter_definitions@[j]).0@ == entries@[j].0@
                    &&& parameter_matches(parameter_definitions@[j].1, entries@[j].0@, schema)
                },
            decreases entries.len() - i,
        {
            let name: &String = entries[i].0;
            let def: &serde_json::Value = entries[i].1;
            let description = match value_get(def, "description") {
                Some(d) => d,
                None => { return Err(SchemaError::MissingDescription(name.clone())); },
            };
            let description = match value_as_str(description) {
                Some(d) => d,
                None => { return Err(SchemaError::DescriptionNotText(name.clone())); },
            };
            let type_schema = match value_get(def, "type") {
                Some(t) => t,
                None => { return Err(SchemaError::MissingType(name.clone())); },
            };
            let is_required = match required {
                Some(items) => lists_name(items, name.as_str()),
                None => false,
            };
            let parameter = Parameter {
                description: description.to_owned(),
                param_type: convert_type(type_schema),
                required: is_required,
            };
            parameter_definitions.push((name.clone(), parameter));
            i += 1;
        }
        let converted = ToolDefinition {
            name: tool.name,
            description: tool.description,
            parameter_definitions,
        };
        proof {
            assert forall|k: Seq<char>| #[trigger] properties_of(schema).dom().contains(k) implies (exists|j: int|
                0 <= j < converted.parameter_definitions@.len() && (#[trigger] converted.parameter_definitions@[j]).0@
                    == k) && parameter_ok(properties_of(schema)[k]) by {
                let j = choose|j: int| 0 <= j < entries@.len() && (#[trigger] entries@[j]).0@ == k;
                assert(converted.parameter_definitions@[j].0@ == k);
            }
        }
        Ok(converted)
    }

    /// Converts a generic tool definition whose schema is well formed.
    pub fn from(tool: completion::ToolDefinition) -> (r: ToolDefinition)
        requires
            schema_ok(json_shape(tool.parameters)),
        ensures
            r.name == tool.name,
            r.description == tool.description,
            r.describes(json_shape(tool.parameters)),
    {
        match ToolDefinition::try_from_generic(tool) {
            Ok(t) => t,
            Err(_) => {
                proof {
                    assert(false);
                }
                unreached()
            },
        }
    }
}

} // verus!
