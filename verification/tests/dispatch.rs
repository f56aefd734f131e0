//! Tests for request building, response classification, and the typed
//! operations, driven against model servers.

use frontegg::{
    classify_response, tenant_from_list, ApiError, Client, ClientConfig, Error, ErrorResponse,
    JsonValue, Method, PageQuery, Paginated, PaginationMetadata, Paginator, RequestBody,
    RequestDescriptor, StrIteratorExt, Tenant, TenantBinding, Transport, User, UserListConfig,
    UserRequest,
};

fn test_client() -> Client {
    Client::new(ClientConfig {
        client_id: "id".to_string(),
        secret_key: "key".to_string(),
    })
}

#[test]
fn chain_one_appends() {
    let segs = vec!["a".to_string(), "b".to_string()];
    assert_eq!(
        segs.chain_one("c".to_string()),
        vec!["a".to_string(), "b".to_string(), "c".to_string()]
    );
}

#[test]
fn error_messages_are_aggregated_in_order() {
    // `errors` entries come first, then `message`.
    let body = ErrorResponse {
        message: Some("m".to_string()),
        errors: vec!["a".to_string(), "b".to_string()],
    };
    match classify_response(400, Some(body)) {
        Err(Error::Api(e)) => {
            assert_eq!(e.status_code, 400);
            assert_eq!(e.messages, vec!["a", "b", "m"]);
        }
        other => panic!("unexpected classification: {other:?}"),
    }
}

#[test]
fn error_body_without_message_or_errors() {
    let body = ErrorResponse { message: None, errors: vec![] };
    match classify_response(403, Some(body)) {
        Err(Error::Api(e)) => {
            assert_eq!(e.status_code, 403);
            assert_eq!(e.messages, Vec::<String>::new());
        }
        other => panic!("unexpected classification: {other:?}"),
    }
}

#[test]
fn undecodable_error_body_yields_synthetic_message() {
    match classify_response(500, None) {
        Err(Error::Api(e)) => {
            assert_eq!(e.status_code, 500);
            assert_eq!(e.messages, vec!["unable to decode error details"]);
        }
        other => panic!("unexpected classification: {other:?}"),
    }
}

#[test]
fn transport_errors_carry_their_message() {
    let e = frontegg::Error::transport("connection reset".to_string());
    match e {
        Error::Transport(t) => assert_eq!(t.message, "connection reset"),
        other => panic!("unexpected error kind: {other:?}"),
    }
}

#[test]
fn success_statuses_classify_as_ok() {
    assert!(classify_response(200, None).is_ok());
    assert!(classify_response(204, None).is_ok());
    assert!(classify_response(299, None).is_ok());
    assert!(classify_response(199, None).is_err());
    assert!(classify_response(301, None).is_err());
    assert!(classify_response(404, None).is_err());
}

fn tenant(id: u128, name: &str) -> Tenant {
    Tenant {
        id,
        name: name.to_string(),
        metadata: JsonValue::Null,
        creator_name: None,
        creator_email: None,
        created_at: 0,
        updated_at: 0,
        deleted_at: None,
    }
}

#[test]
fn missing_tenant_translates_to_not_found() {
    // An identifier absent from the list result yields a 404 API error,
    // not a transport error and not an empty success.
    match tenant_from_list(vec![]) {
        Err(Error::Api(ApiError { status_code, messages })) => {
            assert_eq!(status_code, 404);
            assert_eq!(messages, vec!["Tenant not found"]);
        }
        other => panic!("unexpected result: {other:?}"),
    }
}

#[test]
fn sole_listed_tenant_is_returned() {
    let listed = tenant(9, "t");
    match tenant_from_list(vec![listed]) {
        Ok(t) => {
            assert_eq!(t.id, 9);
            assert_eq!(t.name, "t");
        }
        other => panic!("unexpected result: {other:?}"),
    }
}

#[test]
fn request_paths_carry_the_uuid_text() {
    let client = test_client();
    let r = client.get_tenant_request(0);
    assert_eq!(
        r.path,
        vec![
            "tenants".to_string(),
            "resources".to_string(),
            "tenants".to_string(),
            "v1".to_string(),
            "00000000-0000-0000-0000-000000000000".to_string(),
        ]
    );
    let id = uuid::Uuid::parse_str("67e55044-10b1-426f-9247-bb680e5fe0c8")
        .unwrap()
        .as_u128();
    let r = client.get_user_request(id);
    assert_eq!(
        r.path,
        vec![
            "identity".to_string(),
            "resources".to_string(),
            "vendor-only".to_string(),
            "users".to_string(),
            "v1".to_string(),
            "67e55044-10b1-426f-9247-bb680e5fe0c8".to_string(),
        ]
    );
    assert_eq!(r.method, Method::Get);
    assert_eq!(r.transport, Transport::Retryable);
}

#[test]
fn tenant_metadata_request_shapes() {
    let client = test_client();
    let r = client.set_tenant_metadata_request(1, JsonValue::Int(42));
    assert_eq!(r.method, Method::Post);
    assert_eq!(r.transport, Transport::NonRetryable);
    assert_eq!(r.path.last().map(String::as_str), Some("metadata"));
    assert_eq!(r.body, Some(RequestBody::Metadata(JsonValue::Int(42))));

    let r = client.delete_tenant_metadata_request(1, "color".to_string());
    assert_eq!(r.method, Method::Delete);
    assert_eq!(r.path.last().map(String::as_str), Some("color"));
    assert_eq!(r.path[r.path.len() - 2], "metadata");
    assert_eq!(r.body, None);
}

#[test]
fn list_requests_route_over_the_retryable_transport() {
    let client = test_client();
    let r = client.list_tenants_request();
    assert_eq!(r.method, Method::Get);
    assert_eq!(r.transport, Transport::Retryable);
    assert!(r.requires_auth);
    assert_eq!(r.body, None);

    let config = UserListConfig::default().tenant_id(3);
    let query = PageQuery { limit: 50, offset: 0 };
    let r = client.list_users_request(&config, query);
    assert_eq!(r.method, Method::Get);
    assert_eq!(r.transport, Transport::Retryable);
    assert_eq!(r.tenant_id, Some(3));
    assert_eq!(r.query, Some(query));
}

#[test]
fn delete_requests_route_over_the_non_retryable_transport() {
    let client = test_client();
    let r = client.delete_tenant_request(5);
    assert_eq!(r.method, Method::Delete);
    assert_eq!(r.transport, Transport::NonRetryable);
    let r = client.delete_user_request(5);
    assert_eq!(r.method, Method::Delete);
    assert_eq!(r.transport, Transport::NonRetryable);
}

/// A model user store: answers a create request by storing a user built
/// from the submitted fields, and a get request by returning the stored
/// record.
struct UserStore {
    users: Vec<User>,
    next_id: u128,
}

impl UserStore {
    fn create(&mut self, r: RequestDescriptor) -> u128 {
        assert_eq!(r.method, Method::Post);
        let user = match r.body {
            Some(RequestBody::User(u)) => u,
            other => panic!("unexpected body: {other:?}"),
        };
        assert_eq!(r.tenant_id, Some(user.tenant_id));
        let id = self.next_id;
        self.next_id += 1;
        self.users.push(User {
            id,
            name: user.name,
            email: user.email,
            metadata: user.metadata,
            tenants: vec![TenantBinding { tenant_id: user.tenant_id, roles: vec![] }],
            created_at: 1_700_000_000,
        });
        id
    }

    fn get(&self, id: u128) -> Option<&User> {
        self.users.iter().find(|u| u.id == id)
    }
}

fn sample_metadata() -> JsonValue {
    JsonValue::Object(vec![
        ("kind".to_string(), JsonValue::Str("test".to_string())),
        ("number".to_string(), JsonValue::Int(1)),
    ])
}

#[test]
fn create_then_get_round_trips_submitted_fields() {
    // The create request carries the caller-supplied fields unchanged;
    // a server that stores them and echoes the stored record on a get
    // returns exactly what was submitted.
    let client = test_client();
    let mut store = UserStore { users: vec![], next_id: 100 };
    let submitted = UserRequest {
        tenant_id: 7,
        name: "user-0-0".to_string(),
        email: "frontegg-test-0-0@example.com".to_string(),
        metadata: sample_metadata(),
        skip_invite_email: true,
    };
    let id = store.create(client.create_user_request(submitted));

    let r = client.get_user_request(id);
    assert_eq!(r.method, Method::Get);
    let fetched = store.get(id).expect("stored user");
    assert_eq!(fetched.name, "user-0-0");
    assert_eq!(fetched.email, "frontegg-test-0-0@example.com");
    assert_eq!(fetched.metadata, sample_metadata());
    assert_eq!(fetched.tenants.len(), 1);
    assert_eq!(fetched.tenants[0].tenant_id, 7);
}

/// Serves one page of the users that match the request's tenant scope,
/// as the server would.
fn serve_users_page(users: &[User], r: &RequestDescriptor) -> Paginated<u128> {
    let query = r.query.expect("listing request carries paging");
    let scoped: Vec<u128> = users
        .iter()
        .filter(|u| match r.tenant_id {
            Some(t) => u.tenants.iter().any(|b| b.tenant_id == t),
            None => true,
        })
        .map(|u| u.id)
        .collect();
    let total_pages = (scoped.len() as u64).div_ceil(query.limit);
    let lo = (query.offset as usize).min(scoped.len());
    let hi = (query.offset as usize + query.limit as usize).min(scoped.len());
    Paginated {
        items: scoped[lo..hi].to_vec(),
        metadata: PaginationMetadata { total_pages },
    }
}

fn list_user_ids(client: &Client, store: &UserStore, config: UserListConfig) -> Vec<u128> {
    let mut paginator = Paginator::new(&config);
    let mut ids = Vec::new();
    while let Some(query) = paginator.next_query() {
        let r = client.list_users_request(&config, query);
        let envelope = serve_users_page(&store.users, &r);
        ids.extend(paginator.accept_page(envelope));
    }
    ids
}

#[test]
fn tenant_scope_filters_the_listing() {
    let client = test_client();
    let mut store = UserStore { users: vec![], next_id: 0 };
    for tenant_id in [1u128, 2] {
        for user_idx in 0..3 {
            store.create(client.create_user_request(UserRequest {
                tenant_id,
                name: format!("user-{tenant_id}-{user_idx}"),
                email: format!("u-{tenant_id}-{user_idx}@example.com"),
                metadata: JsonValue::Null,
                skip_invite_email: true,
            }));
        }
    }

    // Scoped to tenant 1: exactly its three users.
    let scoped = list_user_ids(&client, &store, UserListConfig::default().tenant_id(1));
    assert_eq!(scoped.len(), 3);
    assert!(scoped
        .iter()
        .all(|id| store.get(*id).unwrap().tenants[0].tenant_id == 1));

    // Unscoped: users across both tenants, for several page sizes.
    for page_size in [1, 2, 10] {
        let all = list_user_ids(
            &client,
            &store,
            UserListConfig::default().page_size(page_size),
        );
        assert_eq!(all.len(), 6);
    }
}
