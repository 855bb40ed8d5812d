use mistralai_client::v1::tool::{
    Tool, ToolChoice, ToolFunctionParameter, ToolFunctionParameterType, ToolFunctionParametersType,
    ToolType,
};

fn param(name: &str, description: &str) -> ToolFunctionParameter {
    ToolFunctionParameter::new(
        name.to_string(),
        description.to_string(),
        ToolFunctionParameterType::String,
    )
}

#[test]
fn parameter_new_keeps_fields() {
    let p = param("city", "The name of the city.");
    assert_eq!(p.name, "city");
    assert_eq!(p.description, "The name of the city.");
    assert_eq!(p.param_type, ToolFunctionParameterType::String);
}

#[test]
fn tool_new_single_parameter() {
    let tool = Tool::new(
        "get_city_temperature".to_string(),
        "Get the current temperature in a city.".to_string(),
        vec![param("city", "The name of the city.")],
    );
    assert_eq!(tool.tool_type, ToolType::Function);
    assert_eq!(tool.function.name, "get_city_temperature");
    assert_eq!(tool.function.description, "Get the current temperature in a city.");
    let params = &tool.function.parameters;
    assert_eq!(params.params_type, ToolFunctionParametersType::Object);
    assert_eq!(params.properties.len(), 1);
    assert_eq!(params.properties[0].0, "city");
    assert_eq!(params.properties[0].1.description, "The name of the city.");
    assert_eq!(params.properties[0].1.property_type, ToolFunctionParameterType::String);
    assert_eq!(params.required, vec!["city".to_string()]);
}

#[test]
fn tool_new_no_parameters() {
    let tool = Tool::new("ping".to_string(), "Ping.".to_string(), vec![]);
    assert!(tool.function.parameters.properties.is_empty());
    assert!(tool.function.parameters.required.is_empty());
}

#[test]
fn tool_new_duplicate_names_keep_last() {
    let tool = Tool::new(
        "f".to_string(),
        "d".to_string(),
        vec![param("a", "first a"), param("b", "b"), param("a", "second a")],
    );
    let params = &tool.function.parameters;
    assert_eq!(params.properties.len(), 2);
    assert_eq!(params.properties[0].0, "a");
    assert_eq!(params.properties[0].1.description, "second a");
    assert_eq!(params.properties[1].0, "b");
    assert_eq!(params.properties[1].1.description, "b");
    assert_eq!(params.required, vec!["a".to_string(), "b".to_string()]);
}

#[test]
fn tool_new_every_parameter_required() {
    let names = ["x", "y", "z", "w"];
    let tool = Tool::new(
        "f".to_string(),
        "d".to_string(),
        names.iter().map(|n| param(n, "p")).collect(),
    );
    let required = &tool.function.parameters.required;
    assert_eq!(required, &vec!["x".to_string(), "y".to_string(), "z".to_string(), "w".to_string()]);
}

#[test]
fn tool_choice_ids() {
    assert_eq!(ToolChoice::Any.id(), "any");
    assert_eq!(ToolChoice::Auto.id(), "auto");
    assert_eq!(ToolChoice::Disabled.id(), "none");
    for c in [ToolChoice::Any, ToolChoice::Auto, ToolChoice::Disabled] {
        assert_eq!(ToolChoice::from_id(c.id()), Some(c));
    }
    assert_eq!(ToolChoice::from_id("required"), None);
}

#[test]
fn tool_kind_ids() {
    assert_eq!(ToolType::Function.id(), "function");
    assert_eq!(ToolType::from_id("function"), Some(ToolType::Function));
    assert_eq!(ToolType::from_id("retrieval"), None);
    assert_eq!(ToolFunctionParametersType::Object.id(), "object");
    assert_eq!(
        ToolFunctionParametersType::from_id("object"),
        Some(ToolFunctionParametersType::Object)
    );
    assert_eq!(ToolFunctionParametersType::from_id("array"), None);
    assert_eq!(ToolFunctionParameterType::String.id(), "string");
    assert_eq!(
        ToolFunctionParameterType::from_id("string"),
        Some(ToolFunctionParameterType::String)
    );
    assert_eq!(ToolFunctionParameterType::from_id("integer"), None);
}
