use todo_api::aggregate::{
    CreateTodoCommand, DeleteTodoCommand, PatchTodoCommand, RestoreTodoCommand, TodoAggregate,
    TodoEvent, UpdateTodoCommand,
};
use todo_api::error::ApiError;
use todo_api::query::{
    pagination_links, validate_todo_query_params, SortDirection, TodoQueryParams, TodoSortField,
    ValidatedTodoQuery,
};
use todo_api::sql::{build_count_query, build_items_query};
use todo_api::text::{decimal_string, eq_ignore_ascii_case, text_eq, trim, white_space};
use todo_api::todo::{
    ensure_rows_affected, found_todo, not_found, validate_patch_todo_fields,
    validate_single_todo_field, validate_todo_fields, validate_todo_list,
    validate_todo_timestamps, PatchTodo, Timestamp, Todo,
};

fn bad_request(result_error: ApiError) -> String {
    match result_error {
        ApiError::BadRequest(message) => message,
        other => panic!("expected a bad request, got {:?}", other),
    }
}

fn todo(id: i32, created: (i64, u32), updated: (i64, u32)) -> Todo {
    Todo {
        id,
        name: "Comprar pao".to_string(),
        description: "Na padaria".to_string(),
        finished: false,
        created_at: Timestamp { seconds: created.0, nanos: created.1 },
        updated_at: Timestamp { seconds: updated.0, nanos: updated.1 },
        deleted_at: None,
    }
}

fn query(limit: i64, page: i64) -> ValidatedTodoQuery {
    validate_todo_query_params(TodoQueryParams {
        limit: Some(limit),
        page: Some(page),
        ..TodoQueryParams::default()
    })
    .expect("valid")
}

#[test]
fn trim_removes_unicode_white_space_at_both_ends() {
    assert_eq!(trim("\u{3000}\t a b \n\u{a0}"), "a b");
    assert_eq!(trim("   "), "");
    assert_eq!(trim(""), "");
    assert_eq!(trim("x"), "x");
    assert!(white_space('\u{2003}'));
    assert!(!white_space('a'));
    assert!(!white_space('\u{200b}'));
}

#[test]
fn trim_twice_equals_trim_once() {
    for s in ["  a  ", "\u{2028}b\u{2029}", "c", " \t\r\n ", " d e "] {
        let once = trim(s);
        assert_eq!(trim(&once), once);
        assert_eq!(trim(s), s.trim());
    }
}

#[test]
fn ascii_case_insensitive_comparison() {
    assert!(eq_ignore_ascii_case("DeSc", "desc"));
    assert!(!eq_ignore_ascii_case("desc", "asc"));
    assert!(!eq_ignore_ascii_case("ásc", "asc"));
    assert!(text_eq("name", "name"));
    assert!(!text_eq("name", "Name"));
}

#[test]
fn decimal_rendering_matches_display() {
    for n in [0, 7, 10, 42, -1, -305, i32::MAX, i32::MIN] {
        assert_eq!(decimal_string(n), n.to_string());
    }
}

#[test]
fn not_found_names_the_todo() {
    match not_found(-12) {
        ApiError::NotFound(message) => assert_eq!(message, "Todo -12 nao encontrado"),
        other => panic!("unexpected {:?}", other),
    }
}

#[test]
fn name_length_counts_bytes() {
    let short = validate_single_todo_field(" é ".to_string()).unwrap_err();
    assert_eq!(bad_request(short), "O nome deve ter no minimo 3 caracteres");
    assert_eq!(validate_single_todo_field(" éé ".to_string()).unwrap(), "éé");
    let empty = validate_single_todo_field("\u{3000}".to_string()).unwrap_err();
    assert_eq!(bad_request(empty), "Nome nao pode ser vazio");
}

#[test]
fn validated_fields_validate_again_unchanged() {
    let (name, description) =
        validate_todo_fields(" \tLer livro ".to_string(), " capitulo 3\n".to_string()).unwrap();
    let again = validate_todo_fields(name.clone(), description.clone()).unwrap();
    assert_eq!(again, (name, description));
}

#[test]
fn patch_needs_a_field() {
    let err = validate_patch_todo_fields(PatchTodo { name: None, description: None, finished: None })
        .unwrap_err();
    assert_eq!(bad_request(err), "Pelo menos um campo deve ser informado");
}

#[test]
fn patch_checks_the_name_before_the_description() {
    let err = validate_patch_todo_fields(PatchTodo {
        name: Some("ab".to_string()),
        description: Some(" ".to_string()),
        finished: None,
    })
    .unwrap_err();
    assert_eq!(bad_request(err), "O nome deve ter no minimo 3 caracteres");
    let err = validate_patch_todo_fields(PatchTodo {
        name: None,
        description: Some(" ".to_string()),
        finished: Some(true),
    })
    .unwrap_err();
    assert_eq!(bad_request(err), "Descricao nao pode ser vazia");
}

#[test]
fn patch_trims_the_given_fields() {
    let patch = validate_patch_todo_fields(PatchTodo {
        name: None,
        description: Some("  nova  ".to_string()),
        finished: Some(true),
    })
    .unwrap();
    assert_eq!(patch.name, None);
    assert_eq!(patch.description.as_deref(), Some("nova"));
    assert_eq!(patch.finished, Some(true));
}

#[test]
fn patch_fields_agree_with_full_validation() {
    let pairs = [("  abc ", " d "), ("ab", "d"), ("abc", "  "), ("  ", "d")];
    for (n, d) in pairs {
        let full = validate_todo_fields(n.to_string(), d.to_string());
        let patch = validate_patch_todo_fields(PatchTodo {
            name: Some(n.to_string()),
            description: Some(d.to_string()),
            finished: None,
        });
        assert_eq!(full.is_ok(), patch.is_ok());
        if let (Ok((fname, fdesc)), Ok(p)) = (full, patch) {
            assert_eq!(p.name, Some(fname));
            assert_eq!(p.description, Some(fdesc));
        }
    }
}

#[test]
fn query_defaults() {
    let q = validate_todo_query_params(TodoQueryParams::default()).unwrap();
    assert_eq!((q.limit, q.page, q.offset), (20, 1, 0));
    assert_eq!(q.sort_by, TodoSortField::Id);
    assert_eq!(q.order_by, SortDirection::Asc);
}

#[test]
fn query_rejects_page_below_one() {
    let err = validate_todo_query_params(TodoQueryParams {
        page: Some(0),
        ..TodoQueryParams::default()
    })
    .unwrap_err();
    assert_eq!(bad_request(err), "page deve ser maior ou igual a 1");
}

#[test]
fn query_rejects_limit_above_maximum() {
    let err = validate_todo_query_params(TodoQueryParams {
        limit: Some(101),
        ..TodoQueryParams::default()
    })
    .unwrap_err();
    assert_eq!(bad_request(err), "limit deve estar entre 1 e 100");
    assert_eq!(query(100, 1).limit, 100);
}

#[test]
fn query_parses_sort_and_order_after_trimming() {
    let q = validate_todo_query_params(TodoQueryParams {
        sort_by: Some(" created_at ".to_string()),
        order_by: Some(" DeSc ".to_string()),
        ..TodoQueryParams::default()
    })
    .unwrap();
    assert_eq!(q.sort_by, TodoSortField::CreatedAt);
    assert_eq!(q.order_by, SortDirection::Desc);
    let q = validate_todo_query_params(TodoQueryParams {
        sort_by: Some("  ".to_string()),
        order_by: Some("".to_string()),
        ..TodoQueryParams::default()
    })
    .unwrap();
    assert_eq!(q.sort_by, TodoSortField::Id);
    assert_eq!(q.order_by, SortDirection::Asc);
}

#[test]
fn query_rejects_unknown_order() {
    let err = validate_todo_query_params(TodoQueryParams {
        order_by: Some("up".to_string()),
        ..TodoQueryParams::default()
    })
    .unwrap_err();
    assert_eq!(bad_request(err), "order_by deve ser asc ou desc");
    let err = validate_todo_query_params(TodoQueryParams {
        sort_by: Some("Name".to_string()),
        ..TodoQueryParams::default()
    })
    .unwrap_err();
    assert_eq!(
        bad_request(err),
        "sort_by deve ser um de: id, name, description, finished, created_at, updated_at"
    );
}

#[test]
fn query_rejects_offset_overflow() {
    let err = validate_todo_query_params(TodoQueryParams {
        page: Some(i64::MAX),
        limit: Some(100),
        ..TodoQueryParams::default()
    })
    .unwrap_err();
    assert_eq!(bad_request(err), "Combinacao de page e limit invalida");
    assert_eq!(query(1, i64::MAX).offset, i64::MAX - 1);
}

#[test]
fn sort_names_round_trip() {
    for field in [
        TodoSortField::Id,
        TodoSortField::Name,
        TodoSortField::Description,
        TodoSortField::Finished,
        TodoSortField::CreatedAt,
        TodoSortField::UpdatedAt,
    ] {
        let q = validate_todo_query_params(TodoQueryParams {
            sort_by: Some(field.as_sql().to_string()),
            ..TodoQueryParams::default()
        })
        .unwrap();
        assert_eq!(q.sort_by, field);
    }
    for direction in [SortDirection::Asc, SortDirection::Desc] {
        let q = validate_todo_query_params(TodoQueryParams {
            order_by: Some(direction.as_sql().to_string()),
            ..TodoQueryParams::default()
        })
        .unwrap();
        assert_eq!(q.order_by, direction);
    }
    assert_eq!(TodoSortField::UpdatedAt.as_sql(), "updated_at");
    assert_eq!(SortDirection::Desc.as_sql(), "DESC");
}

#[test]
fn consecutive_pages_are_adjacent() {
    for page in 1..6 {
        assert_eq!(query(7, page + 1).offset, query(7, page).offset + 7);
    }
}

#[test]
fn pagination_links_follow_the_total() {
    assert_eq!(pagination_links(&query(20, 1), 5), (None, None));
    assert_eq!(pagination_links(&query(10, 2), 25), (Some(1), Some(3)));
    assert_eq!(pagination_links(&query(10, 3), 30), (Some(2), None));
    assert_eq!(pagination_links(&query(10, 1), 11), (None, Some(2)));
}

#[test]
fn count_query_restricts_to_live_matching_todos() {
    let q = validate_todo_query_params(TodoQueryParams {
        search: Some("  leite ".to_string()),
        finished: Some(false),
        ..TodoQueryParams::default()
    })
    .unwrap();
    let count = build_count_query(&q);
    assert_eq!(
        count.builder.sql(),
        "SELECT COUNT(*) FROM todos WHERE deleted_at IS NULL AND finished = ? AND (name LIKE ? OR description LIKE ?)"
    );
}

#[test]
fn items_query_orders_and_pages() {
    let q = validate_todo_query_params(TodoQueryParams {
        sort_by: Some("name".to_string()),
        order_by: Some("desc".to_string()),
        ..TodoQueryParams::default()
    })
    .unwrap();
    let items = build_items_query(&q);
    assert_eq!(
        items.builder.sql(),
        "SELECT id, name, description, finished, created_at, updated_at, deleted_at FROM todos WHERE deleted_at IS NULL ORDER BY name DESC LIMIT ? OFFSET ?"
    );
    let blank_search = validate_todo_query_params(TodoQueryParams {
        search: Some("   ".to_string()),
        ..TodoQueryParams::default()
    })
    .unwrap();
    assert_eq!(
        build_count_query(&blank_search).builder.sql(),
        "SELECT COUNT(*) FROM todos WHERE deleted_at IS NULL"
    );
}

#[test]
fn create_emits_trimmed_fields() {
    let event = TodoAggregate::handle_create(CreateTodoCommand {
        name: " Lavar carro ".to_string(),
        description: " hoje ".to_string(),
        finished: true,
    })
    .unwrap();
    match event {
        TodoEvent::TodoCreated { name, description, finished } => {
            assert_eq!((name.as_str(), description.as_str(), finished), ("Lavar carro", "hoje", true));
        }
        other => panic!("unexpected {:?}", other),
    }
    let err = TodoAggregate::handle_create(CreateTodoCommand {
        name: "x".to_string(),
        description: "y".to_string(),
        finished: false,
    })
    .unwrap_err();
    assert_eq!(bad_request(err), "O nome deve ter no minimo 3 caracteres");
}

#[test]
fn update_carries_the_id() {
    let event = TodoAggregate::handle_update(UpdateTodoCommand {
        id: 9,
        name: "Estudar".to_string(),
        description: "Rust".to_string(),
        finished: false,
    })
    .unwrap();
    match event {
        TodoEvent::TodoUpdated { id, name, description, finished } => {
            assert_eq!((id, name.as_str(), description.as_str(), finished), (9, "Estudar", "Rust", false));
        }
        other => panic!("unexpected {:?}", other),
    }
}

#[test]
fn patch_keeps_current_fields_that_are_left_out() {
    let current = todo(4, (10, 0), (10, 0));
    let event = TodoAggregate::handle_patch(
        PatchTodoCommand { id: 4, name: None, description: Some(" Mercado ".to_string()), finished: Some(true) },
        current,
    )
    .unwrap();
    match event {
        TodoEvent::TodoUpdated { id, name, description, finished } => {
            assert_eq!((id, name.as_str(), description.as_str(), finished), (4, "Comprar pao", "Mercado", true));
        }
        other => panic!("unexpected {:?}", other),
    }
    let err = TodoAggregate::handle_patch(
        PatchTodoCommand { id: 4, name: Some("ab".to_string()), description: None, finished: None },
        todo(4, (10, 0), (10, 0)),
    )
    .unwrap_err();
    assert_eq!(bad_request(err), "O nome deve ter no minimo 3 caracteres");
}

#[test]
fn full_patch_equals_update() {
    let patched = TodoAggregate::handle_patch(
        PatchTodoCommand {
            id: 2,
            name: Some(" Nome novo ".to_string()),
            description: Some("Desc".to_string()),
            finished: Some(true),
        },
        todo(2, (1, 0), (1, 0)),
    )
    .unwrap();
    let updated = TodoAggregate::handle_update(UpdateTodoCommand {
        id: 2,
        name: " Nome novo ".to_string(),
        description: "Desc".to_string(),
        finished: true,
    })
    .unwrap();
    assert_eq!(format!("{:?}", patched), format!("{:?}", updated));
}

#[test]
fn delete_and_restore_need_positive_ids() {
    for id in [0, -1, i32::MIN] {
        let err = TodoAggregate::handle_delete(DeleteTodoCommand { id }).unwrap_err();
        assert_eq!(bad_request(err), "ID inválido");
        let err = TodoAggregate::handle_restore(RestoreTodoCommand { id }).unwrap_err();
        assert_eq!(bad_request(err), "ID inválido");
    }
    assert!(matches!(
        TodoAggregate::handle_delete(DeleteTodoCommand { id: 3 }),
        Ok(TodoEvent::TodoDeleted { id: 3 })
    ));
    assert!(matches!(
        TodoAggregate::handle_restore(RestoreTodoCommand { id: i32::MAX }),
        Ok(TodoEvent::TodoRestored { id: i32::MAX })
    ));
}

#[test]
fn timestamps_must_not_go_backwards() {
    assert!(matches!(
        validate_todo_timestamps(todo(1, (100, 5), (100, 4))),
        Err(ApiError::Database(_))
    ));
    let same = validate_todo_timestamps(todo(1, (100, 5), (100, 5))).unwrap();
    assert_eq!(same.id, 1);
    assert!(validate_todo_timestamps(todo(1, (100, 5), (101, 0))).is_ok());
    assert!(matches!(validate_todo_timestamps(todo(1, (101, 0), (100, 999))), Err(ApiError::Database(_))));
}

#[test]
fn a_page_fails_when_any_todo_is_inconsistent() {
    let ok = validate_todo_list(vec![todo(1, (1, 0), (2, 0)), todo(2, (3, 0), (3, 0))]).unwrap();
    assert_eq!(ok.iter().map(|t| t.id).collect::<Vec<_>>(), vec![1, 2]);
    assert!(validate_todo_list(vec![todo(1, (1, 0), (2, 0)), todo(2, (3, 0), (2, 0))]).is_err());
    assert!(validate_todo_list(Vec::new()).unwrap().is_empty());
}

#[test]
fn lookups_and_writes_report_missing_todos() {
    match found_todo(5, None) {
        Err(ApiError::NotFound(message)) => assert_eq!(message, "Todo 5 nao encontrado"),
        other => panic!("unexpected {:?}", other),
    }
    assert_eq!(found_todo(6, Some(todo(6, (1, 0), (1, 0)))).unwrap().id, 6);
    assert!(matches!(found_todo(6, Some(todo(6, (2, 0), (1, 0)))), Err(ApiError::Database(_))));
    match ensure_rows_affected(8, 0) {
        Err(ApiError::NotFound(message)) => assert_eq!(message, "Todo 8 nao encontrado"),
        other => panic!("unexpected {:?}", other),
    }
    assert!(ensure_rows_affected(8, 1).is_ok());
}
