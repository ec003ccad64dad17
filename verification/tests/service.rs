use shortlink::model::{
    CreateStep, Created, InsertOutcome, Listing, Lookup, Pending, ServiceError, ShortLink,
    ShortenedUrl,
};
use shortlink::service::{
    after_insert, begin_create, create_status, full_short_url, list, list_status, resolve,
    resolve_status, status_code, MAX_ATTEMPTS,
};

const BASE: &str = "http://127.0.0.1:8888";

/// A store in memory that keeps each token once.
struct MemoryStore {
    rows: Vec<ShortenedUrl>,
    inserts: usize,
}

impl MemoryStore {
    fn new() -> Self {
        MemoryStore { rows: Vec::new(), inserts: 0 }
    }

    fn insert_if_absent(&mut self, token: &str, target: &str) -> InsertOutcome {
        self.inserts += 1;
        if self.rows.iter().any(|row| row.token == token) {
            InsertOutcome::AlreadyExists
        } else {
            self.rows.push(ShortenedUrl {
                token: token.to_string(),
                target: target.to_string(),
            });
            InsertOutcome::Inserted
        }
    }

    fn find_by_token(&self, token: &str) -> Lookup {
        match self.rows.iter().find(|row| row.token == token) {
            Some(row) => Lookup::Found(row.clone()),
            None => Lookup::Absent,
        }
    }

    fn list_all(&self) -> Listing {
        Listing::Rows(self.rows.clone())
    }
}

fn create(
    store: &mut MemoryStore,
    target: &str,
    custom: Option<&str>,
) -> Result<Created, ServiceError> {
    let mut step = begin_create(target.to_string(), custom.map(|c| c.to_string()));
    loop {
        match step {
            CreateStep::Done(result) => return result,
            CreateStep::Insert(pending) => {
                let outcome = store.insert_if_absent(&pending.token, &pending.target);
                step = after_insert(pending, outcome, BASE);
            }
        }
    }
}

fn pending(token: &str, target: &str, custom: bool, attempts_left: u32) -> Pending {
    Pending {
        token: token.to_string(),
        target: target.to_string(),
        custom,
        attempts_left,
    }
}

#[test]
fn full_short_url_joins_base_and_token_with_a_slash() {
    assert_eq!(full_short_url("127.0.0.1:8888", "abc"), "127.0.0.1:8888/abc");
    assert_eq!(full_short_url(BASE, "mylink"), "http://127.0.0.1:8888/mylink");
    assert_eq!(full_short_url("", ""), "/");
}

#[test]
fn status_code_of_each_error() {
    assert_eq!(status_code(ServiceError::InvalidInput), 422);
    assert_eq!(status_code(ServiceError::NotFound), 404);
    assert_eq!(status_code(ServiceError::Conflict), 409);
    assert_eq!(status_code(ServiceError::ExhaustedRetries), 503);
    assert_eq!(status_code(ServiceError::StoreError), 500);
}

#[test]
fn status_of_each_success() {
    let created = Created { token: "abc".to_string(), url: "x/abc".to_string() };
    assert_eq!(create_status(&Ok(created)), 201);
    assert_eq!(resolve_status(&Ok("https://a.com".to_string())), 307);
    assert_eq!(list_status(&Ok(Vec::new())), 200);
}

#[test]
fn status_of_each_failed_operation() {
    assert_eq!(create_status(&Err(ServiceError::InvalidInput)), 422);
    assert_eq!(create_status(&Err(ServiceError::Conflict)), 409);
    assert_eq!(create_status(&Err(ServiceError::ExhaustedRetries)), 503);
    assert_eq!(create_status(&Err(ServiceError::StoreError)), 500);
    assert_eq!(resolve_status(&Err(ServiceError::NotFound)), 404);
    assert_eq!(resolve_status(&Err(ServiceError::StoreError)), 500);
    assert_eq!(list_status(&Err(ServiceError::StoreError)), 500);
}

#[test]
fn list_of_empty_store_is_empty() {
    assert_eq!(list(BASE, &Listing::Rows(Vec::new())), Ok(Vec::new()));
}

#[test]
fn list_gives_one_entry_per_record_in_order() {
    let rows = vec![
        ShortenedUrl { token: "one".to_string(), target: "https://a.com".to_string() },
        ShortenedUrl { token: "two".to_string(), target: "https://b.com".to_string() },
    ];
    assert_eq!(
        list(BASE, &Listing::Rows(rows)),
        Ok(vec![
            ShortLink { url: "http://127.0.0.1:8888/one".to_string() },
            ShortLink { url: "http://127.0.0.1:8888/two".to_string() },
        ])
    );
}

#[test]
fn list_fails_when_store_is_unavailable() {
    assert_eq!(list(BASE, &Listing::Unavailable), Err(ServiceError::StoreError));
}

#[test]
fn resolve_found_gives_the_target_not_the_token() {
    let record = ShortenedUrl {
        token: "mylink".to_string(),
        target: "https://a.com".to_string(),
    };
    assert_eq!(resolve(Lookup::Found(record)), Ok("https://a.com".to_string()));
}

#[test]
fn resolve_absent_is_not_found() {
    assert_eq!(resolve(Lookup::Absent), Err(ServiceError::NotFound));
}

#[test]
fn resolve_unavailable_is_store_error() {
    assert_eq!(resolve(Lookup::Unavailable), Err(ServiceError::StoreError));
}

#[test]
fn begin_create_rejects_invalid_target() {
    assert_eq!(
        begin_create("not-a-url".to_string(), None),
        CreateStep::Done(Err(ServiceError::InvalidInput))
    );
    assert_eq!(
        begin_create(String::new(), Some("mylink".to_string())),
        CreateStep::Done(Err(ServiceError::InvalidInput))
    );
}

#[test]
fn begin_create_uses_custom_token_verbatim() {
    assert_eq!(
        begin_create("https://a.com".to_string(), Some("my/odd link".to_string())),
        CreateStep::Insert(pending("my/odd link", "https://a.com", true, 0))
    );
}

#[test]
fn begin_create_generates_a_token_when_none_is_given() {
    match begin_create("https://example.com/page".to_string(), None) {
        CreateStep::Insert(p) => {
            assert_eq!(p.token.len(), 32);
            assert!(p.token.chars().all(|c| c.is_ascii_hexdigit() && !c.is_ascii_uppercase()));
            assert_eq!(p.target, "https://example.com/page");
            assert!(!p.custom);
            assert_eq!(p.attempts_left, MAX_ATTEMPTS - 1);
        }
        other => panic!("expected an insert, got {other:?}"),
    }
}

#[test]
fn after_insert_inserted_returns_the_short_url() {
    assert_eq!(
        after_insert(pending("abc", "https://a.com", false, 4), InsertOutcome::Inserted, BASE),
        CreateStep::Done(Ok(Created {
            token: "abc".to_string(),
            url: "http://127.0.0.1:8888/abc".to_string(),
        }))
    );
}

#[test]
fn after_insert_custom_collision_is_conflict() {
    assert_eq!(
        after_insert(pending("mylink", "https://b.com", true, 0), InsertOutcome::AlreadyExists, BASE),
        CreateStep::Done(Err(ServiceError::Conflict))
    );
    assert_eq!(
        after_insert(pending("mylink", "https://b.com", true, 3), InsertOutcome::AlreadyExists, BASE),
        CreateStep::Done(Err(ServiceError::Conflict))
    );
}

#[test]
fn after_insert_generated_collision_retries_with_new_token() {
    match after_insert(pending("abc", "https://a.com", false, 2), InsertOutcome::AlreadyExists, BASE) {
        CreateStep::Insert(p) => {
            assert_ne!(p.token, "abc");
            assert_eq!(p.token.len(), 32);
            assert_eq!(p.target, "https://a.com");
            assert!(!p.custom);
            assert_eq!(p.attempts_left, 1);
        }
        other => panic!("expected a retry, got {other:?}"),
    }
}

#[test]
fn after_insert_generated_collision_without_attempts_is_exhausted() {
    assert_eq!(
        after_insert(pending("abc", "https://a.com", false, 0), InsertOutcome::AlreadyExists, BASE),
        CreateStep::Done(Err(ServiceError::ExhaustedRetries))
    );
}

#[test]
fn after_insert_unavailable_is_store_error_and_never_retried() {
    assert_eq!(
        after_insert(pending("abc", "https://a.com", false, 4), InsertOutcome::Unavailable, BASE),
        CreateStep::Done(Err(ServiceError::StoreError))
    );
    assert_eq!(
        after_insert(pending("mylink", "https://a.com", true, 0), InsertOutcome::Unavailable, BASE),
        CreateStep::Done(Err(ServiceError::StoreError))
    );
}

#[test]
fn create_gives_up_after_max_attempts_collisions() {
    let mut step = begin_create("https://a.com".to_string(), None);
    let mut inserts: u32 = 0;
    let result = loop {
        match step {
            CreateStep::Done(result) => break result,
            CreateStep::Insert(p) => {
                inserts += 1;
                step = after_insert(p, InsertOutcome::AlreadyExists, BASE);
            }
        }
    };
    assert_eq!(result, Err(ServiceError::ExhaustedRetries));
    assert_eq!(inserts, MAX_ATTEMPTS);
}

#[test]
fn create_retries_until_a_token_is_free() {
    let mut step = begin_create("https://a.com".to_string(), None);
    let mut inserts: u32 = 0;
    let result = loop {
        match step {
            CreateStep::Done(result) => break result,
            CreateStep::Insert(p) => {
                inserts += 1;
                let outcome = if inserts < 3 {
                    InsertOutcome::AlreadyExists
                } else {
                    InsertOutcome::Inserted
                };
                step = after_insert(p, outcome, BASE);
            }
        }
    };
    let created = result.expect("the third token was free");
    assert_eq!(inserts, 3);
    assert_eq!(created.url, format!("{BASE}/{}", created.token));
}

#[test]
fn created_token_resolves_to_its_target() {
    let mut store = MemoryStore::new();
    let result = create(&mut store, "https://example.com/page", None);
    assert_eq!(create_status(&result), 201);
    let created = result.expect("valid target");
    assert_eq!(created.token.len(), 32);
    assert_eq!(created.url, format!("http://127.0.0.1:8888/{}", created.token));
    let resolved = resolve(store.find_by_token(&created.token));
    assert_eq!(resolve_status(&resolved), 307);
    assert_eq!(resolved, Ok("https://example.com/page".to_string()));
}

#[test]
fn invalid_target_persists_nothing() {
    let mut store = MemoryStore::new();
    create(&mut store, "https://a.com", None).expect("valid target");
    let before = list(BASE, &store.list_all()).expect("store answers").len();
    let result = create(&mut store, "not-a-url", None);
    assert_eq!(result, Err(ServiceError::InvalidInput));
    assert_eq!(create_status(&result), 422);
    assert_eq!(store.inserts, 1);
    assert_eq!(list(BASE, &store.list_all()).expect("store answers").len(), before);
}

#[test]
fn custom_token_is_taken_once() {
    let mut store = MemoryStore::new();
    let first = create(&mut store, "https://a.com", Some("mylink"));
    assert_eq!(
        first,
        Ok(Created {
            token: "mylink".to_string(),
            url: "http://127.0.0.1:8888/mylink".to_string(),
        })
    );
    assert_eq!(create_status(&first), 201);
    let second = create(&mut store, "https://b.com", Some("mylink"));
    assert_eq!(second, Err(ServiceError::Conflict));
    assert_eq!(create_status(&second), 409);
    let resolved = resolve(store.find_by_token("mylink"));
    assert_eq!(resolve_status(&resolved), 307);
    assert_eq!(resolved, Ok("https://a.com".to_string()));
    assert_eq!(store.rows.len(), 1);
}

#[test]
fn unissued_token_is_not_found() {
    let mut store = MemoryStore::new();
    create(&mut store, "https://a.com", Some("mylink")).expect("free token");
    create(&mut store, "https://b.com", None).expect("valid target");
    assert_eq!(resolve(store.find_by_token("other")), Err(ServiceError::NotFound));
    assert_eq!(resolve_status(&resolve(store.find_by_token("other"))), 404);
    assert_eq!(resolve(store.find_by_token("")), Err(ServiceError::NotFound));
    assert_eq!(resolve(MemoryStore::new().find_by_token("mylink")), Err(ServiceError::NotFound));
}

#[test]
fn list_after_creates_has_one_entry_per_success() {
    let mut store = MemoryStore::new();
    let mut tokens: Vec<String> = Vec::new();
    for i in 0..7 {
        let created = create(&mut store, &format!("https://example.com/{i}"), None)
            .expect("valid target");
        tokens.push(created.token);
    }
    assert!(create(&mut store, "nonsense", None).is_err());
    tokens.push(create(&mut store, "https://a.com", Some("mylink")).expect("free token").token);
    assert!(create(&mut store, "https://b.com", Some("mylink")).is_err());

    let links = list(BASE, &store.list_all()).expect("store answers");
    assert_eq!(links.len(), 8);
    for (link, token) in links.iter().zip(tokens.iter()) {
        assert_eq!(link.url, format!("http://127.0.0.1:8888/{token}"));
    }
    let mut distinct = tokens.clone();
    distinct.sort();
    distinct.dedup();
    assert_eq!(distinct.len(), tokens.len());
}
