use adbc_bigquery::connection;
use adbc_bigquery::database;
use adbc_bigquery::value::Value;

fn vars(pairs: &[(&str, &str)]) -> Vec<(String, String)> {
    pairs.iter().map(|(k, v)| (k.to_string(), v.to_string())).collect()
}

fn keys(opts: &[(String, Value)]) -> Vec<&str> {
    opts.iter().map(|(k, _)| k.as_str()).collect()
}

#[test]
fn builder_from_env() {
    let env = vars(&[
        (database::Builder::PROJECT_ID_ENV, "proj"),
        (database::Builder::DATASET_ID_ENV, "data"),
        (connection::Builder::RESULT_BUFFER_SIZE_ENV, "5"),
    ]);

    let db_builder = database::Builder::from_vars(&env);
    assert_eq!(db_builder.project_id.as_deref(), Some("proj"));
    assert_eq!(db_builder.dataset_id.as_deref(), Some("data"));
    assert_eq!(db_builder.auth_type, None);
    assert_eq!(db_builder.credentials, None);
    assert_eq!(db_builder.client_id, None);
    assert_eq!(db_builder.client_secret, None);
    assert_eq!(db_builder.refresh_token, None);
    assert_eq!(db_builder.table_id, None);
    assert!(db_builder.other.is_empty());

    let conn_builder = connection::Builder::from_vars(&env);
    assert_eq!(conn_builder.result_buffer_size, Some(5));
    assert_eq!(conn_builder.prefetch_concurrency, None);
}

#[test]
fn database_vars_all_fields() {
    let env = vars(&[
        ("ADBC_BIGQUERY_AUTH_TYPE", "a"),
        ("ADBC_BIGQUERY_AUTH_CREDENTIALS", "b"),
        ("ADBC_BIGQUERY_AUTH_CLIENT_ID", "c"),
        ("ADBC_BIGQUERY_AUTH_CLIENT_SECRET", "d"),
        ("ADBC_BIGQUERY_AUTH_REFRESH_TOKEN", "e"),
        ("ADBC_BIGQUERY_PROJECT_ID", "f"),
        ("ADBC_BIGQUERY_DATASET_ID", "g"),
        ("ADBC_BIGQUERY_TABLE_ID", "h"),
        ("UNRELATED", "x"),
    ]);
    let b = database::Builder::from_vars(&env);
    assert_eq!(b.auth_type.as_deref(), Some("a"));
    assert_eq!(b.credentials.as_deref(), Some("b"));
    assert_eq!(b.client_id.as_deref(), Some("c"));
    assert_eq!(b.client_secret.as_deref(), Some("d"));
    assert_eq!(b.refresh_token.as_deref(), Some("e"));
    assert_eq!(b.project_id.as_deref(), Some("f"));
    assert_eq!(b.dataset_id.as_deref(), Some("g"));
    assert_eq!(b.table_id.as_deref(), Some("h"));
}

#[test]
fn first_matching_variable_wins() {
    let env = vars(&[("ADBC_BIGQUERY_PROJECT_ID", "first"), ("ADBC_BIGQUERY_PROJECT_ID", "second")]);
    let b = database::Builder::from_vars(&env);
    assert_eq!(b.project_id.as_deref(), Some("first"));
}

#[test]
fn unparsable_integer_var_is_absent() {
    let env = vars(&[
        ("ADBC_BIGQUERY_RESULT_BUFFER_SIZE", "lots"),
        ("ADBC_BIGQUERY_PREFETCH_CONCURRENCY", "8"),
    ]);
    let b = connection::Builder::from_vars(&env);
    assert_eq!(b.result_buffer_size, None);
    assert_eq!(b.prefetch_concurrency, Some(8));

    let env = vars(&[
        ("ADBC_BIGQUERY_RESULT_BUFFER_SIZE", "16"),
        ("ADBC_BIGQUERY_PREFETCH_CONCURRENCY", "x"),
    ]);
    let b = connection::Builder::from_vars(&env);
    assert_eq!(b.result_buffer_size, Some(16));
    assert_eq!(b.prefetch_concurrency, None);
}

#[test]
fn integer_var_text_forms() {
    let cases: &[(&str, Option<i64>)] = &[
        ("0", Some(0)),
        ("-3", Some(-3)),
        ("+4", Some(4)),
        ("007", Some(7)),
        ("9223372036854775807", Some(i64::MAX)),
        ("-9223372036854775808", Some(i64::MIN)),
        ("9223372036854775808", None),
        ("-9223372036854775809", None),
        ("", None),
        ("-", None),
        ("+", None),
        (" 5", None),
        ("5 ", None),
        ("1_000", None),
        ("12a", None),
        ("1.5", None),
    ];
    for (text, expected) in cases {
        let env = vars(&[("ADBC_BIGQUERY_RESULT_BUFFER_SIZE", text)]);
        let b = connection::Builder::from_vars(&env);
        assert_eq!(b.result_buffer_size, *expected, "text {text:?}");
    }
}

#[test]
fn blank_builders_emit_nothing() {
    assert!(database::Builder::default().into_options().is_empty());
    assert!(connection::Builder::default().into_options().is_empty());
    assert!(database::Builder::from_vars(&Vec::new()).into_options().is_empty());
    assert!(connection::Builder::from_vars(&Vec::new()).into_options().is_empty());
}

#[test]
fn database_options_in_declared_order() {
    let mut b = database::Builder::default();
    b.table_id = Some("t".to_string());
    b.auth_type = Some("user".to_string());
    b.project_id = Some("p".to_string());
    b.other.push(("zeta".to_string(), Value::Int(1)));
    b.other.push(("adbc.bigquery.sql.project_id".to_string(), Value::String("q".to_string())));
    b.other.push(("alpha".to_string(), Value::Bytes(vec![1, 2])));
    let opts = b.into_options();
    assert_eq!(opts.len(), 3 + 3);
    assert_eq!(
        keys(&opts),
        vec![
            "adbc.bigquery.sql.auth_type",
            "adbc.bigquery.sql.project_id",
            "adbc.bigquery.sql.table_id",
            "zeta",
            "adbc.bigquery.sql.project_id",
            "alpha",
        ]
    );
    assert_eq!(opts[0].1, Value::String("user".to_string()));
    assert_eq!(opts[1].1, Value::String("p".to_string()));
    assert_eq!(opts[2].1, Value::String("t".to_string()));
    assert_eq!(opts[3].1, Value::Int(1));
    assert_eq!(opts[4].1, Value::String("q".to_string()));
    assert_eq!(opts[5].1, Value::Bytes(vec![1, 2]));
}

#[test]
fn database_all_named_keys() {
    let b = database::Builder {
        auth_type: Some("1".to_string()),
        credentials: Some("2".to_string()),
        client_id: Some("3".to_string()),
        client_secret: Some("4".to_string()),
        refresh_token: Some("5".to_string()),
        project_id: Some("6".to_string()),
        dataset_id: Some("7".to_string()),
        table_id: Some("8".to_string()),
        other: Vec::new(),
    };
    let opts = b.into_options();
    assert_eq!(
        keys(&opts),
        vec![
            "adbc.bigquery.sql.auth_type",
            "adbc.bigquery.sql.auth_credentials",
            "adbc.bigquery.sql.auth.client_id",
            "adbc.bigquery.sql.auth.client_secret",
            "adbc.bigquery.sql.auth.refresh_token",
            "adbc.bigquery.sql.project_id",
            "adbc.bigquery.sql.dataset_id",
            "adbc.bigquery.sql.table_id",
        ]
    );
    for (i, (_, v)) in opts.iter().enumerate() {
        assert_eq!(*v, Value::String((i + 1).to_string()));
    }
}

#[test]
fn connection_options_in_declared_order() {
    let mut b = connection::Builder::default();
    b.prefetch_concurrency = Some(4);
    b.result_buffer_size = Some(-1);
    b.other.push(("extra".to_string(), Value::String("v".to_string())));
    let opts = b.into_options();
    assert_eq!(
        keys(&opts),
        vec![
            "adbc.bigquery.sql.query.result_buffer_size",
            "adbc.bigquery.sql.query.prefetch_concurrency",
            "extra",
        ]
    );
    assert_eq!(opts[0].1, Value::Int(-1));
    assert_eq!(opts[1].1, Value::Int(4));
    assert_eq!(opts[2].1, Value::String("v".to_string()));
}

#[test]
fn only_overflow_entries_pass_through() {
    let mut b = connection::Builder::default();
    b.other.push(("b".to_string(), Value::Int(2)));
    b.other.push(("a".to_string(), Value::Int(1)));
    let opts = b.into_options();
    assert_eq!(keys(&opts), vec!["b", "a"]);
}
