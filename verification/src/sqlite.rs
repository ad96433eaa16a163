//! SQLite: values and errors as Roc sees them, database paths, the
//! connection cache, and the decisions taken on SQLite's result codes.
//!
//! The SQLite calls themselves stay with the caller; their result codes
//! come here to be turned into results.
use vstd::prelude::*;
use crate::text::{spec_decimal, u64_to_decimal};

verus! {

/// SQLite's result code for success.
pub const SQLITE_OK: i32 = 0;

/// SQLite's generic error code.
pub const SQLITE_ERROR: i32 = 1;

/// SQLite's code for a database that cannot be opened.
pub const SQLITE_CANTOPEN: i32 = 14;

/// SQLite's code for a step that produced a row.
pub const SQLITE_ROW: i32 = 100;

/// SQLite's code for a step that finished the statement.
pub const SQLITE_DONE: i32 = 101;

/// SQLite's column type codes.
pub const SQLITE_INTEGER: i32 = 1;

pub const SQLITE_FLOAT: i32 = 2;

pub const SQLITE_TEXT: i32 = 3;

pub const SQLITE_BLOB: i32 = 4;

/// A value read from or bound to a statement. A real number travels as
/// the bits of its IEEE 754 double.
#[derive(Debug, Clone, PartialEq, Eq)]
pub enum SqliteValue {
    Bytes(Vec<u8>),
    Integer(i64),
    Null,
    Real(u64),
    String(String),
}

/// A SQLite failure: its result code and message.
#[derive(Debug, Clone, PartialEq, Eq)]
pub struct SqliteError {
    pub code: i64,
    pub message: String,
}

/// A database path as Roc hands it over.
#[derive(Debug, Clone, PartialEq, Eq)]
pub enum NativePath {
    UnixBytes(Vec<u8>),
    Utf8(String),
    WindowsU16s(Vec<u16>),
}

/// A database path in the form the host opens it by.
#[derive(Debug, Clone, PartialEq, Eq)]
pub enum SqlitePath {
    Unix(Vec<u8>),
    Windows(Vec<u16>),
}

/// The kind of value a result column holds.
#[derive(Debug, Clone, Copy, PartialEq, Eq)]
pub enum ColumnKind {
    Integer,
    Float,
    Text,
    Blob,
    Null,
}

pub type SqlitePrepareResult = Result<u64, SqliteError>;

pub type SqliteUnitResult = Result<(), SqliteError>;

pub type SqliteValueResult = Result<SqliteValue, SqliteError>;

pub type SqliteStepResult = Result<bool, SqliteError>;

pub fn sqlite_value_integer(value: i64) -> (r: SqliteValue)
    ensures
        r == SqliteValue::Integer(value),
{
    SqliteValue::Integer(value)
}

/// A real number, by the bits of its double.
pub fn sqlite_value_real(bits: u64) -> (r: SqliteValue)
    ensures
        r == SqliteValue::Real(bits),
{
    SqliteValue::Real(bits)
}

pub fn sqlite_value_string(value: String) -> (r: SqliteValue)
    ensures
        r == SqliteValue::String(value),
{
    SqliteValue::String(value)
}

pub fn sqlite_value_bytes(value: Vec<u8>) -> (r: SqliteValue)
    ensures
        r == SqliteValue::Bytes(value),
{
    SqliteValue::Bytes(value)
}

pub fn sqlite_value_null() -> (r: SqliteValue)
    ensures
        r == SqliteValue::Null,
{
    SqliteValue::Null
}

pub fn try_sqlite_prepare_ok(handle: u64) -> (r: SqlitePrepareResult)
    ensures
        r == Ok::<u64, SqliteError>(handle),
{
    Ok(handle)
}

pub fn try_sqlite_prepare_err(error: SqliteError) -> (r: SqlitePrepareResult)
    ensures
        r == Err::<u64, SqliteError>(error),
{
    Err(error)
}

pub fn try_sqlite_unit_ok() -> (r: SqliteUnitResult)
    ensures
        r == Ok::<(), SqliteError>(()),
{
    Ok(())
}

pub fn try_sqlite_unit_err(error: SqliteError) -> (r: SqliteUnitResult)
    ensures
        r == Err::<(), SqliteError>(error),
{
    Err(error)
}

pub fn try_sqlite_value_ok(value: SqliteValue) -> (r: SqliteValueResult)
    ensures
        r == Ok::<SqliteValue, SqliteError>(value),
{
    Ok(value)
}

pub fn try_sqlite_value_err(error: SqliteError) -> (r: SqliteValueResult)
    ensures
        r == Err::<SqliteValue, SqliteError>(error),
{
    Err(error)
}

/// A step's success: `true` when a row is ready, `false` when the
/// statement is done.
pub fn try_sqlite_step_ok(has_row: bool) -> (r: SqliteStepResult)
    ensures
        r == Ok::<bool, SqliteError>(has_row),
{
    Ok(has_row)
}

pub fn try_sqlite_step_err(error: SqliteError) -> (r: SqliteStepResult)
    ensures
        r == Err::<bool, SqliteError>(error),
{
    Err(error)
}

/// A failure with a result code and a message.
pub fn sqlite_error(code: i32, message: &str) -> (r: SqliteError)
    ensures
        r.code == code,
        r.message@ == message@,
{
    SqliteError { code: code as i64, message: String::from_str(message) }
}

/// The message for a failed call: SQLite's generic text for the code,
/// unless the connection holds a detailed one.
pub fn sqlite_errmsg(generic: String, detailed: Option<String>) -> (r: String)
    ensures
        match detailed {
            Some(d) => r == d,
            None => r == generic,
        },
{
    match detailed {
        Some(d) => d,
        None => generic,
    }
}

/// The kind of operating system the host runs on, which decides how a
/// database path is handed to SQLite.
#[derive(Debug, Clone, Copy, PartialEq, Eq, Structural)]
pub enum HostKind {
    Unix,
    Windows,
    Other,
}

/// The UTF-16 code units of one character.
pub open spec fn spec_utf16_char(c: char) -> Seq<u16> {
    let u = c as u32;
    if u < 0x10000 {
        seq![u as u16]
    } else {
        seq![(0xD800 + (u - 0x10000) / 0x400) as u16, (0xDC00 + (u - 0x10000) % 0x400) as u16]
    }
}

/// The UTF-16 code units of a text (what `str::encode_utf16` yields).
pub open spec fn spec_utf16(s: Seq<char>) -> Seq<u16>
    decreases s.len(),
{
    if s.len() == 0 {
        Seq::<u16>::empty()
    } else {
        spec_utf16(s.drop_last()) + spec_utf16_char(s.last())
    }
}

/// The UTF-16 code units of a text.
fn utf16_units(text: &str) -> (r: Vec<u16>)
    ensures
        r@ == spec_utf16(text@),
{
    let n = text.unicode_len();
    let mut units: Vec<u16> = Vec::new();
    let mut i: usize = 0;
    assert(text@.take(0) =~= Seq::<char>::empty());
    while i < n
        invariant
            n == text@.len(),
            i <= n,
            units@ == spec_utf16(text@.take(i as int)),
        decreases n - i,
    {
        let c = text.get_char(i);
        let u = c as u32;
        proof {
            assert(text@.take(i + 1).drop_last() =~= text@.take(i as int));
            assert(text@.take(i + 1).last() == c);
        }
        if u < 0x10000 {
            units.push(u as u16);
            assert(units@ =~= spec_utf16(text@.take(i as int)) + spec_utf16_char(c));
        } else {
            let offset = u - 0x10000;
            units.push((0xD800 + offset / 0x400) as u16);
            units.push((0xDC00 + offset % 0x400) as u16);
            assert(units@ =~= spec_utf16(text@.take(i as int)) + spec_utf16_char(c));
        }
        i = i + 1;
    }
    assert(text@.take(n as int) =~= text@);
    units
}

/// A database path in the form the host opens it by: a Unix host opens a
/// UTF-8 path by its bytes, a Windows host by its UTF-16 code units, and
/// another host cannot open one.
pub fn sqlite_path_from_native(path: NativePath, host: HostKind) -> (r: Result<SqlitePath, (i32, String)>)
    ensures
        path matches NativePath::UnixBytes(b) ==> r == Ok::<SqlitePath, (i32, String)>(SqlitePath::Unix(b)),
        path matches NativePath::WindowsU16s(u) ==> r == Ok::<SqlitePath, (i32, String)>(SqlitePath::Windows(u)),
        (path matches NativePath::Utf8(s) && host == HostKind::Unix) ==> (r matches Ok(SqlitePath::Unix(b))
            && b@ == vstd::utf8::encode_utf8(path->Utf8_0@)),
        (path matches NativePath::Utf8(s) && host == HostKind::Windows) ==> (r matches Ok(SqlitePath::Windows(u))
            && u@ == spec_utf16(path->Utf8_0@)),
        (path matches NativePath::Utf8(s) && host == HostKind::Other) ==> (r matches Err((code, m)) && code == 14
            && m@ == "UTF-8 database paths are not supported on this host"@),
{
    match path {
        NativePath::UnixBytes(bytes) => Ok(SqlitePath::Unix(bytes)),
        NativePath::Utf8(text) => match host {
            HostKind::Unix => Ok(SqlitePath::Unix(text.as_str().as_bytes_vec())),
            HostKind::Windows => Ok(SqlitePath::Windows(utf16_units(text.as_str()))),
            HostKind::Other => Err(
                (SQLITE_CANTOPEN, String::from_str("UTF-8 database paths are not supported on this host")),
            ),
        },
        NativePath::WindowsU16s(units) => Ok(SqlitePath::Windows(units)),
    }
}

/// Whether a sequence holds a zero.
pub open spec fn has_nul<T>(s: Seq<T>, zero: T) -> bool {
    exists|i: int| 0 <= i < s.len() && s[i] == zero
}

fn contains_nul(bytes: &Vec<u8>) -> (r: bool)
    ensures
        r == has_nul(bytes@, 0u8),
{
    let mut i: usize = 0;
    while i < bytes.len()
        invariant
            i <= bytes@.len(),
            forall|j: int| 0 <= j < i ==> bytes@[j] != 0u8,
        decreases bytes@.len() - i,
    {
        if bytes[i] == 0 {
            return true;
        }
        i = i + 1;
    }
    false
}

fn contains_nul_unit(units: &Vec<u16>) -> (r: bool)
    ensures
        r == has_nul(units@, 0u16),
{
    let mut i: usize = 0;
    while i < units.len()
        invariant
            i <= units@.len(),
            forall|j: int| 0 <= j < i ==> units@[j] != 0u16,
        decreases units@.len() - i,
    {
        if units[i] == 0 {
            return true;
        }
        i = i + 1;
    }
    false
}

/// Why a path cannot be opened on this host, if it cannot: a Unix path
/// opens only on a Unix host and a Windows path only on a Windows host,
/// and neither can hold a zero (SQLite takes it NUL-terminated).
pub fn sqlite_open_precheck(path: &SqlitePath, host: HostKind) -> (r: Result<(), (i32, String)>)
    ensures
        (path matches SqlitePath::Unix(b) && host == HostKind::Unix) ==> if has_nul(path->Unix_0@, 0u8) {
            r matches Err((code, m)) && code == 1 && m@ == "database path contained an interior nul byte"@
        } else {
            r is Ok
        },
        (path is Unix && host != HostKind::Unix) ==> (r matches Err((code, m)) && code == 14
            && m@ == "Unix database paths are not supported on this host"@),
        (path matches SqlitePath::Windows(u) && host == HostKind::Windows) ==> if has_nul(path->Windows_0@, 0u16) {
            r matches Err((code, m)) && code == 1 && m@ == "database path contained an interior nul code unit"@
        } else {
            r is Ok
        },
        (path is Windows && host != HostKind::Windows) ==> (r matches Err((code, m)) && code == 14
            && m@ == "Windows database paths are not supported on this host"@),
{
    match path {
        SqlitePath::Unix(bytes) => {
            if host != HostKind::Unix {
                Err((SQLITE_CANTOPEN, String::from_str("Unix database paths are not supported on this host")))
            } else if contains_nul(bytes) {
                Err((SQLITE_ERROR, String::from_str("database path contained an interior nul byte")))
            } else {
                Ok(())
            }
        },
        SqlitePath::Windows(units) => {
            if host != HostKind::Windows {
                Err((SQLITE_CANTOPEN, String::from_str("Windows database paths are not supported on this host")))
            } else if contains_nul_unit(units) {
                Err((SQLITE_ERROR, String::from_str("database path contained an interior nul code unit")))
            } else {
                Ok(())
            }
        },
    }
}

/// Two paths name the same database when they are the same kind of path
/// with the same units.
pub open spec fn same_path(a: SqlitePath, b: SqlitePath) -> bool {
    match (a, b) {
        (SqlitePath::Unix(x), SqlitePath::Unix(y)) => x@ == y@,
        (SqlitePath::Windows(x), SqlitePath::Windows(y)) => x@ == y@,
        _ => false,
    }
}

fn same_bytes(x: &Vec<u8>, y: &Vec<u8>) -> (r: bool)
    ensures
        r == (x@ == y@),
{
    if x.len() != y.len() {
        return false;
    }
    let mut i: usize = 0;
    while i < x.len()
        invariant
            x@.len() == y@.len(),
            i <= x@.len(),
            forall|j: int| 0 <= j < i ==> x@[j] == y@[j],
        decreases x@.len() - i,
    {
        if x[i] != y[i] {
            return false;
        }
        i = i + 1;
    }
    assert(x@ =~= y@);
    true
}

fn same_units(x: &Vec<u16>, y: &Vec<u16>) -> (r: bool)
    ensures
        r == (x@ == y@),
{
    if x.len() != y.len() {
        return false;
    }
    let mut i: usize = 0;
    while i < x.len()
        invariant
            x@.len() == y@.len(),
            i <= x@.len(),
            forall|j: int| 0 <= j < i ==> x@[j] == y@[j],
        decreases x@.len() - i,
    {
        if x[i] != y[i] {
            return false;
        }
        i = i + 1;
    }
    assert(x@ =~= y@);
    true
}

pub fn paths_equal(a: &SqlitePath, b: &SqlitePath) -> (r: bool)
    ensures
        r == same_path(*a, *b),
        (a is Unix && b is Unix) ==> (r <==> a->Unix_0@ == b->Unix_0@),
        (a is Windows && b is Windows) ==> (r <==> a->Windows_0@ == b->Windows_0@),
        (a is Unix) != (b is Unix) ==> !r,
{
    match (a, b) {
        (SqlitePath::Unix(x), SqlitePath::Unix(y)) => same_bytes(x, y),
        (SqlitePath::Windows(x), SqlitePath::Windows(y)) => same_units(x, y),
        _ => false,
    }
}

/// The connections opened so far, one per database path, kept until the
/// process exits.
pub struct ConnectionCache<C> {
    entries: Vec<(SqlitePath, C)>,
}

impl<C: Copy> ConnectionCache<C> {
    pub closed spec fn entries(&self) -> Seq<(SqlitePath, C)> {
        self.entries@
    }

    /// No database is opened twice.
    pub open spec fn wf(&self) -> bool {
        forall|i: int, j: int|
            0 <= i < j < self.entries().len() ==> !same_path(#[trigger] self.entries()[i].0, #[trigger] self.entries()[j].0)
    }

    /// The cached connection for a path, if any.
    pub open spec fn cached(&self, path: SqlitePath) -> Option<C> {
        if exists|i: int| 0 <= i < self.entries().len() && same_path(#[trigger] self.entries()[i].0, path) {
            let i = choose|i: int| 0 <= i < self.entries().len() && same_path(#[trigger] self.entries()[i].0, path);
            Some(self.entries()[i].1)
        } else {
            None
        }
    }

    pub fn new() -> (r: ConnectionCache<C>)
        ensures
            r.wf(),
            r.entries() == Seq::<(SqlitePath, C)>::empty(),
    {
        ConnectionCache { entries: Vec::new() }
    }

    /// The connection already open for this path.
    pub fn lookup(&self, path: &SqlitePath) -> (r: Option<C>)
        requires
            self.wf(),
        ensures
            r == self.cached(*path),
    {
        let mut i: usize = 0;
        while i < self.entries.len()
            invariant
                self.wf(),
                i <= self.entries@.len(),
                forall|j: int| 0 <= j < i ==> !same_path(#[trigger] self.entries@[j].0, *path),
            decreases self.entries@.len() - i,
        {
            if paths_equal(&self.entries[i].0, path) {
                proof {
                    let k = choose|k: int| 0 <= k < self.entries().len() && same_path(#[trigger] self.entries()[k].0, *path);
                    if k != i {
                        if k < i {
                            assert(!same_path(self.entries@[k].0, *path));
                        } else {
                            assert(same_path(self.entries()[i as int].0, *path));
                            lemma_same_path_transitive(self.entries()[i as int].0, *path, self.entries()[k].0);
                        }
                    }
                }
                return Some(self.entries[i].1);
            }
            i = i + 1;
        }
        None
    }

    /// Keeps a connection just opened for a path that had none.
    pub fn remember(&mut self, path: SqlitePath, connection: C)
        requires
            old(self).wf(),
            old(self).cached(path) is None,
        ensures
            final(self).wf(),
            final(self).entries() == old(self).entries().push((path, connection)),
    {
        proof {
            assert forall|i: int| 0 <= i < old(self).entries().len() implies !same_path(
                #[trigger] old(self).entries()[i].0,
                path,
            ) by {}
        }
        self.entries.push((path, connection));
        proof {
            assert forall|i: int, j: int| 0 <= i < j < self.entries().len() implies !same_path(
                #[trigger] self.entries()[i].0,
                #[trigger] self.entries()[j].0,
            ) by {
                if j == self.entries().len() - 1 {
                    assert(self.entries()[j].0 == path);
                    assert(self.entries()[i].0 == old(self).entries()[i].0);
                } else {
                    assert(self.entries()[i].0 == old(self).entries()[i].0);
                    assert(self.entries()[j].0 == old(self).entries()[j].0);
                }
            }
        }
    }
}

proof fn lemma_same_path_transitive(a: SqlitePath, b: SqlitePath, c: SqlitePath)
    requires
        same_path(a, b),
        same_path(b, c),
    ensures
        same_path(a, c),
{
}

/// Law: a connection remembered for a path is the one every later lookup
/// of that path (or of an equal path) finds. `after` is the cache that
/// remembering `connection` for `path` leaves, `before` the one it found.
pub proof fn lemma_remembered_connection_is_found<C: Copy>(
    before: ConnectionCache<C>,
    after: ConnectionCache<C>,
    path: SqlitePath,
    probe: SqlitePath,
    connection: C,
)
    requires
        before.wf(),
        before.cached(path) is None,
        after.entries() == before.entries().push((path, connection)),
        same_path(path, probe),
    ensures
        after.wf(),
        after.cached(probe) == Some(connection),
{
    let entries = before.entries();
    let after_entries = after.entries();
    assert forall|i: int| 0 <= i < entries.len() implies !same_path(#[trigger] entries[i].0, path) by {}
    assert(after_entries[entries.len() as int].0 == path);
    assert(same_path(after_entries[entries.len() as int].0, probe));
    assert forall|i: int| 0 <= i < after_entries.len() && same_path(#[trigger] after_entries[i].0, probe) implies
        after_entries[i].1 == connection by {
        if i < entries.len() {
            assert(after_entries[i].0 == entries[i].0);
            lemma_same_path_symmetric(path, probe);
            lemma_same_path_transitive(entries[i].0, probe, path);
        }
    }
    assert forall|i: int, j: int| 0 <= i < j < after_entries.len() implies !same_path(
        #[trigger] after_entries[i].0,
        #[trigger] after_entries[j].0,
    ) by {
        if j == after_entries.len() - 1 {
            assert(after_entries[i].0 == entries[i].0);
            if same_path(after_entries[i].0, after_entries[j].0) {
                assert(same_path(entries[i].0, path));
            }
        } else {
            assert(after_entries[i].0 == entries[i].0);
            assert(after_entries[j].0 == entries[j].0);
        }
    }
}

/// Law: two database paths are the same database exactly when they are
/// the same kind of path with the same units, unit for unit; so a cached
/// connection is found only for a path equal to the one it was opened
/// for, and two different paths never share a connection.
pub proof fn lemma_same_path_is_equality<C: Copy>(a: SqlitePath, b: SqlitePath, cache: ConnectionCache<C>, probe: SqlitePath)
    ensures
        (a is Unix && b is Unix) ==> (same_path(a, b) <==> a->Unix_0@ == b->Unix_0@),
        (a is Windows && b is Windows) ==> (same_path(a, b) <==> a->Windows_0@ == b->Windows_0@),
        (a is Unix && b is Windows) ==> !same_path(a, b),
        (a is Windows && b is Unix) ==> !same_path(a, b),
        cache.cached(probe) is Some ==> exists|i: int|
            0 <= i < cache.entries().len() && cache.entries()[i].1 == cache.cached(probe)->Some_0 && ((
            #[trigger] cache.entries()[i].0 is Unix && probe is Unix && cache.entries()[i].0->Unix_0@
                == probe->Unix_0@) || (cache.entries()[i].0 is Windows && probe is Windows
                && cache.entries()[i].0->Windows_0@ == probe->Windows_0@)),
{
    if cache.cached(probe) is Some {
        let i = choose|i: int| 0 <= i < cache.entries().len() && same_path(#[trigger] cache.entries()[i].0, probe);
        assert(cache.entries()[i].1 == cache.cached(probe)->Some_0);
    }
}

proof fn lemma_same_path_symmetric(a: SqlitePath, b: SqlitePath)
    requires
        same_path(a, b),
    ensures
        same_path(b, a),
{
}

/// The column count SQLite reports, never negative.
pub fn column_count(raw: i32) -> (r: u64)
    ensures
        r == (if raw < 0 { 0 } else { raw as int }),
{
    if raw < 0 {
        0
    } else {
        raw as u64
    }
}

/// What a column's type code means; any code SQLite does not list as a
/// value type reads as NULL.
pub fn column_kind(type_code: i32) -> (r: ColumnKind)
    ensures
        type_code == 1 ==> r == ColumnKind::Integer,
        type_code == 2 ==> r == ColumnKind::Float,
        type_code == 3 ==> r == ColumnKind::Text,
        type_code == 4 ==> r == ColumnKind::Blob,
        !(1 <= type_code <= 4) ==> r == ColumnKind::Null,
{
    if type_code == SQLITE_INTEGER {
        ColumnKind::Integer
    } else if type_code == SQLITE_FLOAT {
        ColumnKind::Float
    } else if type_code == SQLITE_TEXT {
        ColumnKind::Text
    } else if type_code == SQLITE_BLOB {
        ColumnKind::Blob
    } else {
        ColumnKind::Null
    }
}

/// The message for a column index past the last column.
pub open spec fn spec_column_range_message(i: u64, count: u64) -> Seq<char> {
    "column index out of range: "@ + spec_decimal(i as nat) + " of "@ + spec_decimal(count as nat)
}

/// A column index checked against the column count: in range it is the
/// index SQLite takes; otherwise an error.
pub fn column_index_check(i: u64, count: u64) -> (r: Result<i32, SqliteError>)
    requires
        count <= i32::MAX,
    ensures
        i < count ==> r == Ok::<i32, SqliteError>(i as i32),
        i >= count ==> (r matches Err(e) && e.code == 1 && e.message@ == spec_column_range_message(i, count)),
{
    if i >= count {
        let message = String::from_str("column index out of range: ")
            .concat(u64_to_decimal(i).as_str())
            .concat(" of ")
            .concat(u64_to_decimal(count).as_str());
        Err(SqliteError { code: 1i64, message })
    } else {
        Ok(i as i32)
    }
}

/// Whether a binding name can be handed to SQLite: it cannot hold a NUL.
pub fn binding_name_check(name: &str) -> (r: Result<(), SqliteError>)
    ensures
        has_nul(name@, '\0') ==> (r matches Err(e) && e.code == 1
            && e.message@ == "binding name contained an interior nul byte"@),
        !has_nul(name@, '\0') ==> r is Ok,
{
    let n = name.unicode_len();
    let mut i: usize = 0;
    while i < n
        invariant
            n == name@.len(),
            i <= n,
            forall|j: int| 0 <= j < i ==> name@[j] != '\0',
        decreases n - i,
    {
        if name.get_char(i) == '\0' {
            return Err(sqlite_error(SQLITE_ERROR, "binding name contained an interior nul byte"));
        }
        i = i + 1;
    }
    Ok(())
}

/// A parameter index looked up by name: 0 means the statement has no
/// parameter of that name.
pub fn parameter_index_check(index: i32, name: &str) -> (r: Result<i32, SqliteError>)
    ensures
        index != 0 ==> r == Ok::<i32, SqliteError>(index),
        index == 0 ==> (r matches Err(e) && e.code == 1 && e.message@ == "unknown parameter: "@ + name@),
{
    if index == 0 {
        let message = String::from_str("unknown parameter: ").concat(name);
        Err(SqliteError { code: 1i64, message })
    } else {
        Ok(index)
    }
}

/// Whether a result code is a success for a call that returns nothing.
pub fn is_ok_code(code: i32) -> (r: bool)
    ensures
        r == (code == 0),
{
    code == SQLITE_OK
}

/// The result of a call that returns nothing, given its code and the
/// message SQLite holds for it.
pub fn sqlite_unit_result(code: i32, message: &str) -> (r: SqliteUnitResult)
    ensures
        code == 0 ==> r == Ok::<(), SqliteError>(()),
        code != 0 ==> (r matches Err(e) && e.code == code && e.message@ == message@),
{
    if code == SQLITE_OK {
        try_sqlite_unit_ok()
    } else {
        try_sqlite_unit_err(sqlite_error(code, message))
    }
}

/// Whether a step's code is a success (a row, or the end of the rows).
pub fn is_step_success(code: i32) -> (r: bool)
    ensures
        r == (code == 100 || code == 101),
{
    code == SQLITE_ROW || code == SQLITE_DONE
}

/// The result of a step: a row is ready, the statement is done, or an
/// error with the message SQLite holds for it.
pub fn sqlite_step_result(code: i32, message: &str) -> (r: SqliteStepResult)
    ensures
        code == 100 ==> r == Ok::<bool, SqliteError>(true),
        code == 101 ==> r == Ok::<bool, SqliteError>(false),
        code != 100 && code != 101 ==> (r matches Err(e) && e.code == code && e.message@ == message@),
{
    if code == SQLITE_ROW {
        try_sqlite_step_ok(true)
    } else if code == SQLITE_DONE {
        try_sqlite_step_ok(false)
    } else {
        try_sqlite_step_err(sqlite_error(code, message))
    }
}

} // verus!
