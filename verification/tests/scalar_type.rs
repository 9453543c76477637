use nitrogql::config::scalar_type::{
    ScalarTypeConfig, SendReceiveScalarTypeConfig, SeparateScalarTypeConfig,
};
use nitrogql::config::type_target::TypeTarget;

#[test]
fn test_scalar_type_config() {
    let config = ScalarTypeConfig::Single("string".to_string());
    assert_eq!(config.get_type(TypeTarget::ResolverOutput), "string");
    assert_eq!(config.get_type(TypeTarget::ResolverInput), "string");
    assert_eq!(config.get_type(TypeTarget::OperationOutput), "string");
    assert_eq!(config.get_type(TypeTarget::OperationInput), "string");

    let config = ScalarTypeConfig::SendReceive(SendReceiveScalarTypeConfig {
        send: "string".to_string(),
        receive: "number".to_string(),
    });
    assert_eq!(config.get_type(TypeTarget::ResolverOutput), "string");
    assert_eq!(config.get_type(TypeTarget::ResolverInput), "number");
    assert_eq!(config.get_type(TypeTarget::OperationOutput), "number");
    assert_eq!(config.get_type(TypeTarget::OperationInput), "string");

    let config = ScalarTypeConfig::Separate(SeparateScalarTypeConfig {
        resolver_output: "string".to_string(),
        resolver_input: "number".to_string(),
        operation_output: "boolean".to_string(),
        operation_input: "bigint".to_string(),
    });
    assert_eq!(config.get_type(TypeTarget::ResolverOutput), "string");
    assert_eq!(config.get_type(TypeTarget::ResolverInput), "number");
    assert_eq!(config.get_type(TypeTarget::OperationOutput), "boolean");
    assert_eq!(config.get_type(TypeTarget::OperationInput), "bigint");
}

#[test]
fn test_scalar_type_config_type_names() {
    let config = ScalarTypeConfig::Single("string".to_string());
    assert_eq!(
        config.typescript_types().into_iter().collect::<Vec<_>>(),
        vec!["string"].into_iter().collect::<Vec<_>>()
    );

    let config = ScalarTypeConfig::SendReceive(SendReceiveScalarTypeConfig {
        send: "string".to_string(),
        receive: "number".to_string(),
    });
    assert_eq!(
        config.typescript_types().into_iter().collect::<Vec<_>>(),
        vec!["string", "number"].into_iter().collect::<Vec<_>>()
    );

    let config = ScalarTypeConfig::Separate(SeparateScalarTypeConfig {
        resolver_output: "string".to_string(),
        resolver_input: "number".to_string(),
        operation_output: "boolean".to_string(),
        operation_input: "bigint".to_string(),
    });
    assert_eq!(
        config.typescript_types().into_iter().collect::<Vec<_>>(),
        vec!["string", "number", "boolean", "bigint"]
            .into_iter()
            .collect::<Vec<_>>()
    );
}

#[test]
fn type_of_every_target_is_listed() {
    let config = ScalarTypeConfig::Separate(SeparateScalarTypeConfig {
        resolver_output: "a".to_string(),
        resolver_input: "b".to_string(),
        operation_output: "c".to_string(),
        operation_input: "d".to_string(),
    });
    let names = config.typescript_types();
    for target in [
        TypeTarget::OperationInput,
        TypeTarget::OperationOutput,
        TypeTarget::ResolverInput,
        TypeTarget::ResolverOutput,
    ] {
        assert!(names.contains(&config.get_type(target)));
    }
}

#[test]
fn type_target_names_and_directions() {
    assert_eq!(TypeTarget::OperationInput.as_str(), "__OperationInput");
    assert_eq!(TypeTarget::OperationOutput.as_str(), "__OperationOutput");
    assert_eq!(TypeTarget::ResolverInput.as_str(), "__ResolverInput");
    assert_eq!(TypeTarget::ResolverOutput.as_str(), "__ResolverOutput");
    assert!(TypeTarget::OperationOutput.is_output());
    assert!(TypeTarget::ResolverOutput.is_output());
    assert!(TypeTarget::OperationInput.is_input());
    assert!(TypeTarget::ResolverInput.is_input());
    assert!(!TypeTarget::ResolverInput.is_output());
    assert!(!TypeTarget::OperationOutput.is_input());
}
