use quma::handlers::create_response;
use quma::handlers::delete_response;
use quma::handlers::delete_step;
use quma::handlers::health_response;
use quma::handlers::not_found_response;
use quma::handlers::read_all_response;
use quma::handlers::read_by_id_response;
use quma::handlers::read_paged_response;
use quma::handlers::read_plan;
use quma::handlers::update_response;
use quma::handlers::DeleteStep;
use quma::handlers::Envelope;
use quma::handlers::ReadPlan;
use quma::pagination::QueryParams;

fn params(id: Option<i64>, page: Option<u32>, limit: Option<u32>) -> QueryParams {
    QueryParams { id, page, limit }
}

fn data_of<V>(env: &Envelope<V>) -> &Option<V> {
    match env {
        Envelope::Simple { data, .. } => data,
        Envelope::Paged { data, .. } => data,
    }
}

#[test]
fn test_read_plan_by_id_ignores_page() {
    let plan = read_plan(&params(Some(5), Some(2), None));
    assert!(matches!(plan, ReadPlan::ById(5)));
}

#[test]
fn test_read_plan_full_list_when_nothing_set() {
    let plan = read_plan(&params(None, None, None));
    assert!(matches!(plan, ReadPlan::Full));
}

#[test]
fn test_read_plan_paged_when_only_page_set() {
    let plan = read_plan(&params(None, Some(3), Some(10)));
    assert!(matches!(plan, ReadPlan::Paged));
}

#[test]
fn test_delete_without_id_is_rejected_without_backend_call() {
    let step: DeleteStep<i32> = delete_step(&params(None, None, None));
    match step {
        DeleteStep::Rejected(env) => {
            assert_eq!(env.status(), 400);
            assert_eq!(env.message(), "ID requerido");
            assert!(data_of(&env).is_none());
        }
        DeleteStep::CallBackend(id) => panic!("backend must not be called, got id {}", id),
    }
}

#[test]
fn test_delete_with_id_calls_backend_with_it() {
    let step: DeleteStep<i32> = delete_step(&params(Some(7), None, None));
    assert!(matches!(step, DeleteStep::CallBackend(7)));
}

#[test]
fn test_create_response_success() {
    let env = create_response("Unit", Ok(5));
    assert_eq!(env.status(), 201);
    assert_eq!(env.message(), "Unit creado con éxito");
    assert_eq!(*data_of(&env), Some(5));
}

#[test]
fn test_create_response_failure() {
    let env = create_response::<i32>("Unit", Err("db down".to_string()));
    assert_eq!(env.status(), 400);
    assert_eq!(env.message(), "db down");
    assert!(data_of(&env).is_none());
}

#[test]
fn test_update_response_success() {
    let env = update_response("Unit", Ok(9));
    assert_eq!(env.status(), 200);
    assert_eq!(env.message(), "Unit actualizado");
    assert_eq!(*data_of(&env), Some(9));
}

#[test]
fn test_update_response_failure() {
    let env = update_response::<i32>("Unit", Err("no row".to_string()));
    assert_eq!(env.status(), 400);
    assert_eq!(env.message(), "no row");
}

#[test]
fn test_read_by_id_found() {
    let env = read_by_id_response(Ok(Some(1)));
    assert_eq!(env.status(), 200);
    assert_eq!(env.message(), "Encontrado");
    assert_eq!(*data_of(&env), Some(1));
}

#[test]
fn test_read_by_id_not_found() {
    let env = read_by_id_response::<i32>(Ok(None));
    assert_eq!(env.status(), 404);
    assert_eq!(env.message(), "No encontrado");
    assert!(data_of(&env).is_none());
}

#[test]
fn test_read_by_id_backend_error() {
    let env = read_by_id_response::<i32>(Err("timeout".to_string()));
    assert_eq!(env.status(), 400);
    assert_eq!(env.message(), "timeout");
}

#[test]
fn test_read_paged_both_calls_succeed() {
    let p = params(None, Some(2), Some(10));
    let env = read_paged_response(&p, "/units", Ok(vec![1, 2, 3]), Ok(57)).unwrap();
    assert_eq!(env.status(), 200);
    assert_eq!(env.message(), "Resultados paginados");
    assert_eq!(*data_of(&env), Some(vec![1, 2, 3]));
    match env {
        Envelope::Paged { pagination, .. } => {
            assert_eq!(pagination.page, Some(2));
            assert_eq!(pagination.limit, Some(10));
            assert_eq!(pagination.total, 57);
            assert_eq!(pagination.route_path, "/units");
        }
        Envelope::Simple { .. } => panic!("paged tier must answer with a paged envelope"),
    }
}

#[test]
fn test_read_paged_falls_through_when_either_call_fails() {
    let p = params(None, Some(2), Some(10));
    assert!(read_paged_response::<Vec<i32>>(&p, "/", Err("boom".to_string()), Ok(1)).is_none());
    assert!(read_paged_response(&p, "/", Ok(vec![1]), Err("boom".to_string())).is_none());
    assert!(
        read_paged_response::<Vec<i32>>(&p, "/", Err("a".to_string()), Err("b".to_string()))
            .is_none()
    );
}

#[test]
fn test_read_all_success_and_failure() {
    let env = read_all_response(Ok(vec![1, 2]));
    assert_eq!(env.status(), 200);
    assert_eq!(env.message(), "Lista completa");
    assert_eq!(*data_of(&env), Some(vec![1, 2]));

    let env = read_all_response::<Vec<i32>>(Err("down".to_string()));
    assert_eq!(env.status(), 400);
    assert_eq!(env.message(), "down");
}

#[test]
fn test_delete_response_success_and_failure() {
    let env = delete_response(Ok(4));
    assert_eq!(env.status(), 200);
    assert_eq!(env.message(), "Eliminado");
    assert_eq!(*data_of(&env), Some(4));

    let env = delete_response::<i32>(Err("locked".to_string()));
    assert_eq!(env.status(), 400);
    assert_eq!(env.message(), "locked");
}

#[test]
fn test_health_and_fallback_responses() {
    let env = health_response();
    assert_eq!(env.status(), 200);
    assert_eq!(env.message(), "Up and running");

    let env = not_found_response();
    assert_eq!(env.status(), 404);
    assert_eq!(env.message(), "Not found");
}
