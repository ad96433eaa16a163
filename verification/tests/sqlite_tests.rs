use basic_cli::sqlite::{
    binding_name_check, column_count, column_index_check, column_kind, parameter_index_check,
    paths_equal, sqlite_errmsg, HostKind, sqlite_open_precheck, sqlite_path_from_native, sqlite_step_result,
    sqlite_unit_result, sqlite_value_real, ColumnKind, ConnectionCache, NativePath, SqlitePath,
    SqliteValue, SQLITE_CANTOPEN, SQLITE_DONE, SQLITE_ERROR, SQLITE_ROW,
};

#[test]
fn step_codes() {
    assert_eq!(sqlite_step_result(SQLITE_ROW, "unused"), Ok(true));
    assert_eq!(sqlite_step_result(SQLITE_DONE, "unused"), Ok(false));
    let e = sqlite_step_result(19, "constraint failed").unwrap_err();
    assert_eq!((e.code, e.message.as_str()), (19, "constraint failed"));
    assert_eq!(sqlite_unit_result(0, "unused"), Ok(()));
    assert_eq!(sqlite_unit_result(5, "database is locked").unwrap_err().code, 5);
}

#[test]
fn column_checks() {
    assert_eq!(column_count(-3), 0);
    assert_eq!(column_count(4), 4);
    assert_eq!(column_index_check(1, 2), Ok(1));
    let e = column_index_check(5, 2).unwrap_err();
    assert_eq!(e.code, SQLITE_ERROR as i64);
    assert_eq!(e.message, "column index out of range: 5 of 2");
    assert_eq!(column_kind(1), ColumnKind::Integer);
    assert_eq!(column_kind(2), ColumnKind::Float);
    assert_eq!(column_kind(3), ColumnKind::Text);
    assert_eq!(column_kind(4), ColumnKind::Blob);
    assert_eq!(column_kind(5), ColumnKind::Null);
    assert_eq!(column_kind(77), ColumnKind::Null);
}

#[test]
fn binding_checks() {
    assert!(binding_name_check(":name").is_ok());
    let e = binding_name_check("bad\0name").unwrap_err();
    assert_eq!(e.message, "binding name contained an interior nul byte");
    assert_eq!(parameter_index_check(2, ":x"), Ok(2));
    assert_eq!(parameter_index_check(0, ":missing").unwrap_err().message, "unknown parameter: :missing");
}

#[test]
fn real_values_travel_as_bits() {
    let v = sqlite_value_real(1.5f64.to_bits());
    assert_eq!(v, SqliteValue::Real(1.5f64.to_bits()));
    if let SqliteValue::Real(bits) = v {
        assert_eq!(f64::from_bits(bits), 1.5);
    }
}

#[test]
fn paths_and_prechecks() {
    assert_eq!(sqlite_path_from_native(NativePath::Utf8("db.sqlite".to_string()), HostKind::Unix), Ok(SqlitePath::Unix(b"db.sqlite".to_vec())));
    assert_eq!(sqlite_path_from_native(NativePath::UnixBytes(vec![1, 2]), HostKind::Unix), Ok(SqlitePath::Unix(vec![1, 2])));
    assert_eq!(sqlite_path_from_native(NativePath::WindowsU16s(vec![65]), HostKind::Unix), Ok(SqlitePath::Windows(vec![65])));
    assert!(sqlite_open_precheck(&SqlitePath::Unix(b"ok.db".to_vec()), HostKind::Unix).is_ok());
    let (code, message) = sqlite_open_precheck(&SqlitePath::Unix(b"a\0b".to_vec()), HostKind::Unix).unwrap_err();
    assert_eq!((code, message.as_str()), (SQLITE_ERROR, "database path contained an interior nul byte"));
    let (code, message) = sqlite_open_precheck(&SqlitePath::Windows(vec![65]), HostKind::Unix).unwrap_err();
    assert_eq!((code, message.as_str()), (SQLITE_CANTOPEN, "Windows database paths are not supported on this host"));
    assert!(paths_equal(&SqlitePath::Unix(vec![1]), &SqlitePath::Unix(vec![1])));
    assert!(!paths_equal(&SqlitePath::Unix(vec![1]), &SqlitePath::Windows(vec![1])));
}

#[test]
fn paths_on_other_hosts() {
    let utf16: Vec<u16> = "db\u{e9}\u{1F600}".encode_utf16().collect();
    assert_eq!(sqlite_path_from_native(NativePath::Utf8("db\u{e9}\u{1F600}".to_string()), HostKind::Windows), Ok(SqlitePath::Windows(utf16)));
    let (code, message) = sqlite_path_from_native(NativePath::Utf8("db".to_string()), HostKind::Other).unwrap_err();
    assert_eq!((code, message.as_str()), (SQLITE_CANTOPEN, "UTF-8 database paths are not supported on this host"));
    assert!(sqlite_open_precheck(&SqlitePath::Windows(vec![65, 66]), HostKind::Windows).is_ok());
    let (code, message) = sqlite_open_precheck(&SqlitePath::Windows(vec![65, 0]), HostKind::Windows).unwrap_err();
    assert_eq!((code, message.as_str()), (SQLITE_ERROR, "database path contained an interior nul code unit"));
    let (code, message) = sqlite_open_precheck(&SqlitePath::Unix(vec![65]), HostKind::Windows).unwrap_err();
    assert_eq!((code, message.as_str()), (SQLITE_CANTOPEN, "Unix database paths are not supported on this host"));
}

#[test]
fn a_remembered_connection_is_found_again() {
    let mut cache: ConnectionCache<u32> = ConnectionCache::new();
    let path = SqlitePath::Unix(b"a.db".to_vec());
    assert_eq!(cache.lookup(&path), None);
    cache.remember(path.clone(), 7);
    cache.remember(SqlitePath::Unix(b"b.db".to_vec()), 8);
    assert_eq!(cache.lookup(&SqlitePath::Unix(b"a.db".to_vec())), Some(7));
    assert_eq!(cache.lookup(&SqlitePath::Unix(b"b.db".to_vec())), Some(8));
    assert_eq!(cache.lookup(&SqlitePath::Windows(vec![97])), None);
}

#[test]
fn detailed_messages_win() {
    assert_eq!(sqlite_errmsg("generic".to_string(), Some("detail".to_string())), "detail");
    assert_eq!(sqlite_errmsg("generic".to_string(), None), "generic");
}
