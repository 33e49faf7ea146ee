//! The generation pass: from an entity description and a configuration
//! string to a full description of the CRUD API surface — the parsed
//! configuration, the router bindings, and the type names whose
//! resolution the emitted static check asserts. Generation aborts with
//! a diagnostic when the entity has no fields or when a configured type
//! name is not a valid identifier; nothing is generated partially.

use vstd::prelude::*;
use vstd::string::StrSliceExecFns;
use crate::config::CrudConfig;
use crate::config::parse_crud_config;
use crate::config::spec_attr_or;

verus! {

/// Whether `c` may start an identifier: a letter or an underscore.
pub open spec fn is_ident_start(c: char) -> bool {
    ('a' <= c && c <= 'z') || ('A' <= c && c <= 'Z') || c == '_'
}

/// Whether `c` may continue an identifier: a letter, a digit, or an
/// underscore.
pub open spec fn is_ident_continue(c: char) -> bool {
    is_ident_start(c) || ('0' <= c && c <= '9')
}

/// A valid symbolic identifier: nonempty, not starting with a digit,
/// made of letters, digits, and underscores only.
pub open spec fn valid_ident(s: Seq<char>) -> bool {
    &&& s.len() > 0
    &&& is_ident_start(s[0])
    &&& forall|i: int| 0 <= i < s.len() ==> is_ident_continue(s[i])
}

/// Checks that a resolved configuration string can serve as a symbolic
/// reference in generated code.
pub fn is_valid_ident(s: &str) -> (r: bool)
    ensures
        r == valid_ident(s@),
{
    let n = s.unicode_len();
    if n == 0 {
        return false;
    }
    let c0 = s.get_char(0);
    if !((('a' <= c0 && c0 <= 'z') || ('A' <= c0 && c0 <= 'Z')) || c0 == '_') {
        return false;
    }
    let mut i: usize = 1;
    while i < n
        invariant
            n == s@.len(),
            1 <= i <= n,
            is_ident_start(s@[0]),
            forall|j: int| 0 <= j < i ==> is_ident_continue(s@[j]),
        decreases n - i,
    {
        let c = s.get_char(i);
        if !((('a' <= c && c <= 'z') || ('A' <= c && c <= 'Z') || c == '_') || ('0' <= c && c
            <= '9')) {
            return false;
        }
        i += 1;
    }
    true
}

/// The entity a CRUD surface is generated for: its symbolic name and
/// whether its shape has fields. A unit struct is rejected.
#[derive(Debug)]
pub struct EntityDescriptor {
    pub name: String,
    pub has_fields: bool,
}

/// Why a generation run aborts. Every abort happens at generation time;
/// no diagnostic here ever reaches the generated runtime code.
#[derive(Debug)]
pub enum GenError {
    /// The annotated type has no fields.
    UnitStruct,
    /// The configured new-payload type name is not a valid identifier.
    InvalidNewTypeName,
    /// The configured query-parameter type name is not a valid
    /// identifier.
    InvalidParamsTypeName,
}

impl GenError {
    /// The diagnostic text of this error, naming the offending field.
    pub fn message(&self) -> (r: &'static str)
        ensures
            *self is UnitStruct ==> r@ == "#[axum_crud] solo puede usarse en structs con campos (named fields)."@,
            *self is InvalidNewTypeName ==> r@ == "new: el valor no es un identificador"@,
            *self is InvalidParamsTypeName ==> r@ == "params: el valor no es un identificador"@,
    {
        match self {
            GenError::UnitStruct => "#[axum_crud] solo puede usarse en structs con campos (named fields).",
            GenError::InvalidNewTypeName => "new: el valor no es un identificador",
            GenError::InvalidParamsTypeName => "params: el valor no es un identificador",
        }
    }
}

/// An HTTP verb the generated router binds.
#[derive(Debug, Clone, Copy, PartialEq, Eq, Structural)]
pub enum HttpVerb {
    Post,
    Patch,
    Get,
    Delete,
}

/// One of the five generated operations reachable through the router.
#[derive(Debug, Clone, Copy, PartialEq, Eq, Structural)]
pub enum HandlerKind {
    Create,
    Update,
    Read,
    Delete,
}

/// One verb-to-handler binding of the generated router.
#[derive(Debug)]
pub struct RouteBinding {
    pub verb: HttpVerb,
    pub path: String,
    pub handler: HandlerKind,
}

/// The router shape every generated entity receives: the four verbs
/// bound at the relative path "/" in a fixed order. The configured
/// route path plays no part here; it is used only for pagination links.
pub open spec fn spec_crud_routes(routes: Seq<RouteBinding>) -> bool {
    &&& routes.len() == 4
    &&& routes[0].verb == HttpVerb::Post && routes[0].path@ == "/"@ && routes[0].handler
        == HandlerKind::Create
    &&& routes[1].verb == HttpVerb::Patch && routes[1].path@ == "/"@ && routes[1].handler
        == HandlerKind::Update
    &&& routes[2].verb == HttpVerb::Get && routes[2].path@ == "/"@ && routes[2].handler
        == HandlerKind::Read
    &&& routes[3].verb == HttpVerb::Delete && routes[3].path@ == "/"@ && routes[3].handler
        == HandlerKind::Delete
}

/// Builds the router bindings of one generated entity.
pub fn crud_routes() -> (r: Vec<RouteBinding>)
    ensures
        spec_crud_routes(r@),
{
    let mut v: Vec<RouteBinding> = Vec::new();
    v.push(RouteBinding { verb: HttpVerb::Post, path: "/".to_owned(), handler: HandlerKind::Create });
    v.push(RouteBinding { verb: HttpVerb::Patch, path: "/".to_owned(), handler: HandlerKind::Update });
    v.push(RouteBinding { verb: HttpVerb::Get, path: "/".to_owned(), handler: HandlerKind::Read });
    v.push(RouteBinding { verb: HttpVerb::Delete, path: "/".to_owned(), handler: HandlerKind::Delete });
    v
}

/// The names whose resolution the emitted static check asserts before
/// any handler code is trusted: the configured new-payload type, the
/// configured query-parameter type, and the shared application context.
pub open spec fn spec_required_types(names: Seq<String>, config: CrudConfig) -> bool {
    &&& names.len() == 3
    &&& names[0]@ == config.new_type_name@
    &&& names[1]@ == config.params_type_name@
    &&& names[2]@ == "AppState"@
}

/// Lists the type names the emitted static check must resolve.
pub fn required_type_names(config: &CrudConfig) -> (r: Vec<String>)
    ensures
        spec_required_types(r@, *config),
{
    let mut v: Vec<String> = Vec::new();
    v.push(config.new_type_name.clone());
    v.push(config.params_type_name.clone());
    v.push("AppState".to_owned());
    v
}

/// Everything one generation run emits: the entity name embedded in the
/// generated messages, the parsed configuration, the router bindings,
/// and the names the static type check must resolve.
#[derive(Debug)]
pub struct CrudApi {
    pub entity_name: String,
    pub config: CrudConfig,
    pub routes: Vec<RouteBinding>,
    pub required_types: Vec<String>,
}

/// The whole generation pass. It fails — before anything is emitted —
/// on an entity without fields, then on a new-payload type name that is
/// no identifier, then on a query-parameter type name that is no
/// identifier; otherwise it emits the complete API description.
pub fn generate_crud(entity: &EntityDescriptor, attr: &str) -> (r: Result<CrudApi, GenError>)
    ensures
        r is Ok <==> entity.has_fields && valid_ident(spec_attr_or(attr@, "new"@, "NewItem"@))
            && valid_ident(spec_attr_or(attr@, "params"@, "Params"@)),
        !entity.has_fields ==> r == Result::<CrudApi, GenError>::Err(GenError::UnitStruct),
        entity.has_fields && !valid_ident(spec_attr_or(attr@, "new"@, "NewItem"@)) ==> r
            == Result::<CrudApi, GenError>::Err(GenError::InvalidNewTypeName),
        entity.has_fields && valid_ident(spec_attr_or(attr@, "new"@, "NewItem"@)) && !valid_ident(
            spec_attr_or(attr@, "params"@, "Params"@),
        ) ==> r == Result::<CrudApi, GenError>::Err(GenError::InvalidParamsTypeName),
        r is Ok ==> {
            let api = r->Ok_0;
            &&& api.entity_name@ == entity.name@
            &&& api.config.route_path@ == spec_attr_or(attr@, "path"@, "/"@)
            &&& api.config.new_type_name@ == spec_attr_or(attr@, "new"@, "NewItem"@)
            &&& api.config.params_type_name@ == spec_attr_or(attr@, "params"@, "Params"@)
            &&& spec_crud_routes(api.routes@)
            &&& spec_required_types(api.required_types@, api.config)
        },
{
    if !entity.has_fields {
        return Result::Err(GenError::UnitStruct);
    }
    let config = parse_crud_config(attr);
    if !is_valid_ident(config.new_type_name.as_str()) {
        return Result::Err(GenError::InvalidNewTypeName);
    }
    if !is_valid_ident(config.params_type_name.as_str()) {
        return Result::Err(GenError::InvalidParamsTypeName);
    }
    let routes = crud_routes();
    let required_types = required_type_names(&config);
    Result::Ok(CrudApi { entity_name: entity.name.clone(), config, routes, required_types })
}

} // verus!
