use cohere_adapter::completion;
use cohere_adapter::tools::{convert_type, convert_type_str, SchemaError, ToolDefinition};

fn json(text: &str) -> serde_json::Value {
    serde_json::from_str(text).unwrap()
}

fn tool(schema: &str) -> completion::ToolDefinition {
    completion::ToolDefinition {
        name: "lookup".to_string(),
        description: "looks things up".to_string(),
        parameters: json(schema),
    }
}

#[test]
fn one_required_string_parameter() {
    let converted = ToolDefinition::from(tool(
        r#"{"properties":{"x":{"type":"string","description":"d"}},"required":["x"]}"#,
    ));
    assert_eq!(converted.name, "lookup");
    assert_eq!(converted.description, "looks things up");
    assert_eq!(converted.parameter_definitions.len(), 1);
    assert_eq!(converted.parameter_definitions[0].0, "x");
    let x = converted.parameter("x").unwrap();
    assert_eq!(x.description, "d");
    assert_eq!(x.param_type, "string");
    assert!(x.required);
    assert!(converted.parameter("y").is_none());
}

#[test]
fn several_parameters_with_and_without_required() {
    let converted = ToolDefinition::from(tool(
        r#"{"type":"object","properties":{
            "a":{"type":"integer","description":"first"},
            "b":{"type":["null","number"],"description":"second"},
            "c":{"type":"date","description":"third"}
        },"required":["b", 3, "zzz"]}"#,
    ));
    assert_eq!(converted.parameter_definitions.len(), 3);
    let a = converted.parameter("a").unwrap();
    assert_eq!((a.description.as_str(), a.param_type.as_str(), a.required), ("first", "integer", false));
    let b = converted.parameter("b").unwrap();
    assert_eq!((b.description.as_str(), b.param_type.as_str(), b.required), ("second", "number", true));
    let c = converted.parameter("c").unwrap();
    assert_eq!((c.description.as_str(), c.param_type.as_str(), c.required), ("third", "string", false));
}

#[test]
fn missing_or_malformed_required_means_nothing_is_required() {
    let without = ToolDefinition::from(tool(r#"{"properties":{"x":{"type":"boolean","description":"d"}}}"#));
    assert!(!without.parameter("x").unwrap().required);
    assert_eq!(without.parameter("x").unwrap().param_type, "boolean");
    let malformed = ToolDefinition::from(tool(
        r#"{"properties":{"x":{"type":"array","description":"d"}},"required":"x"}"#,
    ));
    assert!(!malformed.parameter("x").unwrap().required);
    assert_eq!(malformed.parameter("x").unwrap().param_type, "array");
}

#[test]
fn empty_properties_give_no_parameters() {
    let converted = ToolDefinition::try_from_generic(tool(r#"{"properties":{}}"#)).unwrap();
    assert!(converted.parameter_definitions.is_empty());
}

#[test]
fn primitive_type_names() {
    for known in ["string", "number", "integer", "boolean", "array", "object"] {
        assert_eq!(convert_type_str(known), known);
    }
    assert_eq!(convert_type_str("null"), "string");
    assert_eq!(convert_type_str("String"), "string");
    assert_eq!(convert_type_str(""), "string");
}

#[test]
fn type_of_a_schema_member() {
    assert_eq!(convert_type(&json(r#""object""#)), "object");
    assert_eq!(convert_type(&json(r#""timestamp""#)), "string");
    assert_eq!(convert_type(&json(r#"["null","integer"]"#)), "integer");
    assert_eq!(convert_type(&json(r#"["boolean","null"]"#)), "boolean");
    assert_eq!(convert_type(&json(r#"["null","null","array","number"]"#)), "array");
    assert_eq!(convert_type(&json(r#"["null"]"#)), "string");
    assert_eq!(convert_type(&json("[]")), "string");
    assert_eq!(convert_type(&json(r#"[7,"number"]"#)), "string");
    assert_eq!(convert_type(&json(r#"["null","uuid"]"#)), "string");
    assert_eq!(convert_type(&json("12")), "string");
    assert_eq!(convert_type(&json("null")), "string");
    assert_eq!(convert_type(&json(r#"{"type":"number"}"#)), "string");
}

#[test]
fn schema_without_properties_is_refused() {
    assert!(matches!(ToolDefinition::try_from_generic(tool("{}")), Err(SchemaError::MissingProperties)));
    assert!(matches!(
        ToolDefinition::try_from_generic(tool(r#"{"required":["x"]}"#)),
        Err(SchemaError::MissingProperties)
    ));
    assert!(matches!(ToolDefinition::try_from_generic(tool("[]")), Err(SchemaError::MissingProperties)));
    assert!(matches!(ToolDefinition::try_from_generic(tool("null")), Err(SchemaError::MissingProperties)));
}

#[test]
fn properties_that_are_no_object_are_refused() {
    assert!(matches!(
        ToolDefinition::try_from_generic(tool(r#"{"properties":["x"]}"#)),
        Err(SchemaError::PropertiesNotObject)
    ));
    assert!(matches!(
        ToolDefinition::try_from_generic(tool(r#"{"properties":null}"#)),
        Err(SchemaError::PropertiesNotObject)
    ));
}

#[test]
fn parameter_without_description_is_refused() {
    match ToolDefinition::try_from_generic(tool(r#"{"properties":{"x":{"type":"string"}}}"#)) {
        Err(SchemaError::MissingDescription(name)) => assert_eq!(name, "x"),
        other => panic!("unexpected: {:?}", other),
    }
    match ToolDefinition::try_from_generic(tool(r#"{"properties":{"x":"string"}}"#)) {
        Err(SchemaError::MissingDescription(name)) => assert_eq!(name, "x"),
        other => panic!("unexpected: {:?}", other),
    }
}

#[test]
fn parameter_with_a_description_that_is_no_text_is_refused() {
    match ToolDefinition::try_from_generic(tool(r#"{"properties":{"x":{"type":"string","description":4}}}"#)) {
        Err(SchemaError::DescriptionNotText(name)) => assert_eq!(name, "x"),
        other => panic!("unexpected: {:?}", other),
    }
}

#[test]
fn parameter_without_type_is_refused() {
    match ToolDefinition::try_from_generic(tool(r#"{"properties":{"x":{"description":"d"}}}"#)) {
        Err(SchemaError::MissingType(name)) => assert_eq!(name, "x"),
        other => panic!("unexpected: {:?}", other),
    }
}
