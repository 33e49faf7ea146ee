use quma::generator::crud_routes;
use quma::generator::generate_crud;
use quma::generator::is_valid_ident;
use quma::generator::EntityDescriptor;
use quma::generator::GenError;
use quma::generator::HandlerKind;
use quma::generator::HttpVerb;

fn entity(name: &str, has_fields: bool) -> EntityDescriptor {
    EntityDescriptor {
        name: name.to_string(),
        has_fields,
    }
}

#[test]
fn test_is_valid_ident_accepts_identifiers() {
    assert!(is_valid_ident("NewItem"));
    assert!(is_valid_ident("_private"));
    assert!(is_valid_ident("Params2"));
    assert!(is_valid_ident("snake_case_name"));
}

#[test]
fn test_is_valid_ident_rejects_bad_strings() {
    assert!(!is_valid_ident(""));
    assert!(!is_valid_ident("9Lives"));
    assert!(!is_valid_ident("has space"));
    assert!(!is_valid_ident("dash-ed"));
    assert!(!is_valid_ident("semi;colon"));
}

#[test]
fn test_generate_crud_full_configuration() {
    let api = generate_crud(
        &entity("Unit", true),
        "path = \"/units\", new = \"NewUnit\", params = \"UnitParams\"",
    )
    .unwrap();

    assert_eq!(api.entity_name, "Unit");
    assert_eq!(api.config.route_path, "/units");
    assert_eq!(api.config.new_type_name, "NewUnit");
    assert_eq!(api.config.params_type_name, "UnitParams");

    assert_eq!(api.required_types.len(), 3);
    assert_eq!(api.required_types[0], "NewUnit");
    assert_eq!(api.required_types[1], "UnitParams");
    assert_eq!(api.required_types[2], "AppState");
}

#[test]
fn test_generate_crud_defaults() {
    let api = generate_crud(&entity("Task", true), "").unwrap();
    assert_eq!(api.config.route_path, "/");
    assert_eq!(api.config.new_type_name, "NewItem");
    assert_eq!(api.config.params_type_name, "Params");
}

#[test]
fn test_generated_router_bindings() {
    let routes = crud_routes();
    assert_eq!(routes.len(), 4);

    assert_eq!(routes[0].verb, HttpVerb::Post);
    assert_eq!(routes[0].path, "/");
    assert_eq!(routes[0].handler, HandlerKind::Create);

    assert_eq!(routes[1].verb, HttpVerb::Patch);
    assert_eq!(routes[1].path, "/");
    assert_eq!(routes[1].handler, HandlerKind::Update);

    assert_eq!(routes[2].verb, HttpVerb::Get);
    assert_eq!(routes[2].path, "/");
    assert_eq!(routes[2].handler, HandlerKind::Read);

    assert_eq!(routes[3].verb, HttpVerb::Delete);
    assert_eq!(routes[3].path, "/");
    assert_eq!(routes[3].handler, HandlerKind::Delete);
}

#[test]
fn test_generate_crud_rejects_unit_struct() {
    let err = generate_crud(&entity("Unit", false), "").unwrap_err();
    assert!(matches!(err, GenError::UnitStruct));
    assert_eq!(
        err.message(),
        "#[axum_crud] solo puede usarse en structs con campos (named fields)."
    );
}

#[test]
fn test_generate_crud_rejects_invalid_new_type_name() {
    let err = generate_crud(&entity("Unit", true), "new = \"9Bad\"").unwrap_err();
    assert!(matches!(err, GenError::InvalidNewTypeName));
    assert_eq!(err.message(), "new: el valor no es un identificador");
}

#[test]
fn test_generate_crud_rejects_invalid_params_type_name() {
    let err = generate_crud(&entity("Unit", true), "params = \"has space\"").unwrap_err();
    assert!(matches!(err, GenError::InvalidParamsTypeName));
    assert_eq!(err.message(), "params: el valor no es un identificador");
}

#[test]
fn test_generate_crud_checks_new_before_params() {
    // both names invalid: the new-payload diagnostic wins
    let err = generate_crud(&entity("Unit", true), "new = \"9a\", params = \"9b\"").unwrap_err();
    assert!(matches!(err, GenError::InvalidNewTypeName));
}
