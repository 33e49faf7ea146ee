//! The handler policies of the generated CRUD surface: the uniform
//! response envelope and the pure decision functions for each of the
//! five operations. The unverified shell performs the backend calls and
//! hands their outcomes to these functions; every status code, message,
//! and dispatch decision is fixed here.

use vstd::prelude::*;
use crate::pagination::Pagination;
use crate::pagination::QueryParams;
use crate::strutil::str_concat;

verus! {

/// The uniform response wrapper: either a simple envelope of status,
/// message, and optional payload, or the same plus pagination metadata.
pub enum Envelope<V> {
    Simple { status: u16, message: String, data: Option<V> },
    Paged { status: u16, message: String, data: Option<V>, pagination: Pagination },
}

impl<V> Envelope<V> {
    /// The HTTP status code the envelope carries.
    pub open spec fn status_spec(&self) -> u16 {
        match self {
            Envelope::Simple { status, .. } => *status,
            Envelope::Paged { status, .. } => *status,
        }
    }

    /// The message the envelope carries.
    pub open spec fn message_spec(&self) -> Seq<char> {
        match self {
            Envelope::Simple { message, .. } => message@,
            Envelope::Paged { message, .. } => message@,
        }
    }

    /// The payload the envelope carries, if any.
    pub open spec fn data_spec(&self) -> Option<V> {
        match self {
            Envelope::Simple { data, .. } => *data,
            Envelope::Paged { data, .. } => *data,
        }
    }

    /// The pagination metadata of a paged envelope.
    pub open spec fn pagination_spec(&self) -> Pagination
        recommends
            self is Paged,
    {
        match self {
            Envelope::Paged { pagination, .. } => *pagination,
            Envelope::Simple { .. } => vstd::pervasive::arbitrary(),
        }
    }

    /// The HTTP status code the envelope carries.
    pub fn status(&self) -> (r: u16)
        ensures
            r == self.status_spec(),
    {
        match self {
            Envelope::Simple { status, .. } => *status,
            Envelope::Paged { status, .. } => *status,
        }
    }

    /// The message the envelope carries.
    pub fn message(&self) -> (r: &str)
        ensures
            r@ == self.message_spec(),
    {
        match self {
            Envelope::Simple { message, .. } => message.as_str(),
            Envelope::Paged { message, .. } => message.as_str(),
        }
    }
}

/// The envelope of a create call: status 201 with a creation message
/// naming the entity on success, status 400 with the backend's error
/// text on failure.
pub fn create_response<V>(entity_name: &str, outcome: Result<V, String>) -> (r: Envelope<V>)
    ensures
        r is Simple,
        outcome is Ok ==> r.status_spec() == 201 && r.message_spec() == entity_name@
            + " creado con éxito"@ && r.data_spec() == Option::Some(outcome->Ok_0),
        outcome is Err ==> r.status_spec() == 400 && r.message_spec() == (outcome->Err_0)@
            && r.data_spec() is None,
{
    match outcome {
        Result::Ok(item) => Envelope::Simple {
            status: 201,
            message: str_concat(entity_name, " creado con éxito"),
            data: Option::Some(item),
        },
        Result::Err(e) => Envelope::Simple { status: 400, message: e, data: Option::None },
    }
}

/// The envelope of an update call: status 200 with an update message
/// naming the entity on success, status 400 with the backend's error
/// text on failure.
pub fn update_response<V>(entity_name: &str, outcome: Result<V, String>) -> (r: Envelope<V>)
    ensures
        r is Simple,
        outcome is Ok ==> r.status_spec() == 200 && r.message_spec() == entity_name@
            + " actualizado"@ && r.data_spec() == Option::Some(outcome->Ok_0),
        outcome is Err ==> r.status_spec() == 400 && r.message_spec() == (outcome->Err_0)@
            && r.data_spec() is None,
{
    match outcome {
        Result::Ok(item) => Envelope::Simple {
            status: 200,
            message: str_concat(entity_name, " actualizado"),
            data: Option::Some(item),
        },
        Result::Err(e) => Envelope::Simple { status: 400, message: e, data: Option::None },
    }
}

/// Which tier of the read dispatch runs: by-id when an id is given,
/// paged when a page is given without an id, otherwise the full list.
pub enum ReadPlan {
    ById(i64),
    Paged,
    Full,
}

/// The read dispatch policy. The three tiers are mutually exclusive and
/// tried in strict priority order: a present id wins over everything
/// (the page field is ignored), then a present page, then the full list.
pub fn read_plan(params: &QueryParams) -> (r: ReadPlan)
    ensures
        params.id is Some ==> r == ReadPlan::ById(params.id->0),
        params.id is None && params.page is Some ==> r == ReadPlan::Paged,
        params.id is None && params.page is None ==> r == ReadPlan::Full,
{
    match params.id {
        Option::Some(id) => ReadPlan::ById(id),
        Option::None => {
            if params.page.is_some() {
                ReadPlan::Paged
            } else {
                ReadPlan::Full
            }
        },
    }
}

/// The envelope of a by-id read: status 200 "Encontrado" with the item
/// when found, status 404 "No encontrado" when absent, status 400 with
/// the backend's error text on failure.
pub fn read_by_id_response<V>(outcome: Result<Option<V>, String>) -> (r: Envelope<V>)
    ensures
        r is Simple,
        outcome is Ok && outcome->Ok_0 is Some ==> r.status_spec() == 200 && r.message_spec()
            == "Encontrado"@ && r.data_spec() == outcome->Ok_0,
        outcome is Ok && outcome->Ok_0 is None ==> r.status_spec() == 404 && r.message_spec()
            == "No encontrado"@ && r.data_spec() is None,
        outcome is Err ==> r.status_spec() == 400 && r.message_spec() == (outcome->Err_0)@
            && r.data_spec() is None,
{
    match outcome {
        Result::Ok(Option::Some(item)) => Envelope::Simple {
            status: 200,
            message: "Encontrado".to_owned(),
            data: Option::Some(item),
        },
        Result::Ok(Option::None) => Envelope::Simple {
            status: 404,
            message: "No encontrado".to_owned(),
            data: Option::None,
        },
        Result::Err(e) => Envelope::Simple { status: 400, message: e, data: Option::None },
    }
}

/// The paged tier's outcome: a paged envelope only when both the data
/// fetch and the count succeeded; otherwise nothing, and the caller
/// falls through to the full-list tier. A failure of either call is
/// deliberately not surfaced.
pub fn read_paged_response<V>(
    params: &QueryParams,
    route_path: &str,
    records: Result<V, String>,
    count: Result<i64, String>,
) -> (r: Option<Envelope<V>>)
    ensures
        r is Some <==> records is Ok && count is Ok,
        r is Some ==> {
            let env = r->0;
            &&& env is Paged
            &&& env.status_spec() == 200
            &&& env.message_spec() == "Resultados paginados"@
            &&& env.data_spec() == Option::Some(records->Ok_0)
            &&& env.pagination_spec().page == params.page
            &&& env.pagination_spec().limit == params.limit
            &&& env.pagination_spec().total == count->Ok_0
            &&& env.pagination_spec().route_path@ == route_path@
        },
{
    match (records, count) {
        (Result::Ok(items), Result::Ok(total)) => {
            let pagination = Pagination::new(params, total, route_path);
            Option::Some(
                Envelope::Paged {
                    status: 200,
                    message: "Resultados paginados".to_owned(),
                    data: Option::Some(items),
                    pagination,
                },
            )
        },
        _ => Option::None,
    }
}

/// The envelope of a full-list read: status 200 "Lista completa" with
/// the items on success, status 400 with the backend's error text on
/// failure.
pub fn read_all_response<V>(outcome: Result<V, String>) -> (r: Envelope<V>)
    ensures
        r is Simple,
        outcome is Ok ==> r.status_spec() == 200 && r.message_spec() == "Lista completa"@
            && r.data_spec() == Option::Some(outcome->Ok_0),
        outcome is Err ==> r.status_spec() == 400 && r.message_spec() == (outcome->Err_0)@
            && r.data_spec() is None,
{
    match outcome {
        Result::Ok(items) => Envelope::Simple {
            status: 200,
            message: "Lista completa".to_owned(),
            data: Option::Some(items),
        },
        Result::Err(e) => Envelope::Simple { status: 400, message: e, data: Option::None },
    }
}

/// What the delete handler does first: with no id it rejects the request
/// outright — status 400, "ID requerido", and no backend call — and with
/// an id it instructs the shell to call the backend with exactly that id.
pub enum DeleteStep<V> {
    Rejected(Envelope<V>),
    CallBackend(i64),
}

/// The delete guard. A missing id yields the rejection envelope and
/// never reaches the backend; a present id is passed through unchanged.
pub fn delete_step<V>(params: &QueryParams) -> (r: DeleteStep<V>)
    ensures
        params.id is Some ==> r == DeleteStep::<V>::CallBackend(params.id->0),
        params.id is None ==> r is Rejected && {
            let env = r->Rejected_0;
            &&& env is Simple
            &&& env.status_spec() == 400
            &&& env.message_spec() == "ID requerido"@
            &&& env.data_spec() is None
        },
{
    match params.id {
        Option::Some(id) => DeleteStep::CallBackend(id),
        Option::None => DeleteStep::Rejected(
            Envelope::Simple {
                status: 400,
                message: "ID requerido".to_owned(),
                data: Option::None,
            },
        ),
    }
}

/// The envelope of a delete call: status 200 "Eliminado" with the
/// deleted item on success, status 400 with the backend's error text on
/// failure.
pub fn delete_response<V>(outcome: Result<V, String>) -> (r: Envelope<V>)
    ensures
        r is Simple,
        outcome is Ok ==> r.status_spec() == 200 && r.message_spec() == "Eliminado"@
            && r.data_spec() == Option::Some(outcome->Ok_0),
        outcome is Err ==> r.status_spec() == 400 && r.message_spec() == (outcome->Err_0)@
            && r.data_spec() is None,
{
    match outcome {
        Result::Ok(item) => Envelope::Simple {
            status: 200,
            message: "Eliminado".to_owned(),
            data: Option::Some(item),
        },
        Result::Err(e) => Envelope::Simple { status: 400, message: e, data: Option::None },
    }
}

/// The health probe's answer: status 200, "Up and running", no payload.
pub fn health_response() -> (r: Envelope<()>)
    ensures
        r is Simple,
        r.status_spec() == 200,
        r.message_spec() == "Up and running"@,
        r.data_spec() is None,
{
    Envelope::Simple { status: 200, message: "Up and running".to_owned(), data: Option::None }
}

/// The answer for a route nothing matches: status 404, "Not found".
pub fn not_found_response() -> (r: Envelope<()>)
    ensures
        r is Simple,
        r.status_spec() == 404,
        r.message_spec() == "Not found"@,
        r.data_spec() is None,
{
    Envelope::Simple { status: 404, message: "Not found".to_owned(), data: Option::None }
}

} // verus!
