//! Table definitions for the create-table dialog and the DDL they produce.
use vstd::prelude::*;
use crate::database::DatabaseType;
use crate::text::{decimal, double_char, join, push_decimal, push_doubled, to_lowercase, str_to_lowercase, str_eq, views, join_strings};
use crate::ui::dialogs::keyboard::{
    closes, dialog_action, handle_close_keys, handle_dialog_keys, handle_list_navigation, list_navigation,
    DialogAction, ListNavigation,
};
use crate::ui::input::{Key, KeyInput};

verus! {

// ---------------------------------------------------------------------------
// Column types
// ---------------------------------------------------------------------------

/// A column's data type, as offered for the common engines.
#[derive(Debug, Clone, PartialEq)]
pub enum ColumnType {
    Integer,
    BigInt,
    SmallInt,
    TinyInt,
    Float,
    Double,
    Decimal { precision: u8, scale: u8 },
    Varchar(u16),
    Char(u16),
    Text,
    Date,
    Time,
    DateTime,
    Timestamp,
    Blob,
    Binary(u16),
    Boolean,
    Json,
    Uuid,
    /// A raw SQL type, used as written.
    Custom(String),
}

/// `prefix` followed by the number and a closing parenthesis.
pub open spec fn sized(prefix: Seq<char>, n: nat) -> Seq<char> {
    prefix + decimal(n) + ")"@
}

/// `prefix` followed by `p,s` and a closing parenthesis.
pub open spec fn sized2(prefix: Seq<char>, p: nat, s: nat) -> Seq<char> {
    prefix + decimal(p) + ","@ + decimal(s) + ")"@
}

/// The name a type is shown by.
pub open spec fn type_display(t: ColumnType) -> Seq<char> {
    match t {
        ColumnType::Integer => "INTEGER"@,
        ColumnType::BigInt => "BIGINT"@,
        ColumnType::SmallInt => "SMALLINT"@,
        ColumnType::TinyInt => "TINYINT"@,
        ColumnType::Float => "FLOAT"@,
        ColumnType::Double => "DOUBLE"@,
        ColumnType::Decimal { precision, scale } => sized2("DECIMAL("@, precision as nat, scale as nat),
        ColumnType::Varchar(n) => sized("VARCHAR("@, n as nat),
        ColumnType::Char(n) => sized("CHAR("@, n as nat),
        ColumnType::Text => "TEXT"@,
        ColumnType::Date => "DATE"@,
        ColumnType::Time => "TIME"@,
        ColumnType::DateTime => "DATETIME"@,
        ColumnType::Timestamp => "TIMESTAMP"@,
        ColumnType::Blob => "BLOB"@,
        ColumnType::Binary(n) => sized("BINARY("@, n as nat),
        ColumnType::Boolean => "BOOLEAN"@,
        ColumnType::Json => "JSON"@,
        ColumnType::Uuid => "UUID"@,
        ColumnType::Custom(s) => s@,
    }
}

/// The SQLite storage class of a type.
pub open spec fn sqlite_type(t: ColumnType) -> Seq<char> {
    match t {
        ColumnType::Integer | ColumnType::BigInt | ColumnType::SmallInt | ColumnType::TinyInt
        | ColumnType::Boolean => "INTEGER"@,
        ColumnType::Float | ColumnType::Double | ColumnType::Decimal { .. } => "REAL"@,
        ColumnType::Blob | ColumnType::Binary(_) => "BLOB"@,
        ColumnType::Custom(s) => s@,
        _ => "TEXT"@,
    }
}

/// The MySQL spelling of a type.
pub open spec fn mysql_type(t: ColumnType) -> Seq<char> {
    match t {
        ColumnType::Integer => "INT"@,
        ColumnType::Boolean => "TINYINT(1)"@,
        ColumnType::Uuid => "CHAR(36)"@,
        _ => type_display(t),
    }
}

/// The PostgreSQL spelling of a type.
pub open spec fn postgres_type(t: ColumnType) -> Seq<char> {
    match t {
        ColumnType::TinyInt => "SMALLINT"@,
        ColumnType::Float => "REAL"@,
        ColumnType::Double => "DOUBLE PRECISION"@,
        ColumnType::Decimal { precision, scale } => sized2("NUMERIC("@, precision as nat, scale as nat),
        ColumnType::DateTime => "TIMESTAMP"@,
        ColumnType::Timestamp => "TIMESTAMPTZ"@,
        ColumnType::Blob | ColumnType::Binary(_) => "BYTEA"@,
        ColumnType::Json => "JSONB"@,
        _ => type_display(t),
    }
}

/// The type as the given engine writes it.
pub open spec fn type_sql(t: ColumnType, db: DatabaseType) -> Seq<char> {
    match db {
        DatabaseType::SQLite => sqlite_type(t),
        DatabaseType::MySQL => mysql_type(t),
        DatabaseType::PostgreSQL => postgres_type(t),
    }
}

fn sized_exec(prefix: &str, n: u64) -> (r: String)
    ensures
        r@ == sized(prefix@, n as nat),
{
    let mut s = String::from_str(prefix);
    push_decimal(&mut s, n);
    s.append(")");
    s
}

fn sized2_exec(prefix: &str, p: u64, q: u64) -> (r: String)
    ensures
        r@ == sized2(prefix@, p as nat, q as nat),
{
    let mut s = String::from_str(prefix);
    push_decimal(&mut s, p);
    s.append(",");
    push_decimal(&mut s, q);
    s.append(")");
    s
}

impl ColumnType {
    /// The name the type is shown by.
    pub fn display_name(&self) -> (r: String)
        ensures
            r@ == type_display(*self),
    {
        match self {
            ColumnType::Integer => String::from_str("INTEGER"),
            ColumnType::BigInt => String::from_str("BIGINT"),
            ColumnType::SmallInt => String::from_str("SMALLINT"),
            ColumnType::TinyInt => String::from_str("TINYINT"),
            ColumnType::Float => String::from_str("FLOAT"),
            ColumnType::Double => String::from_str("DOUBLE"),
            ColumnType::Decimal { precision, scale } => sized2_exec(
                "DECIMAL(",
                *precision as u64,
                *scale as u64,
            ),
            ColumnType::Varchar(n) => sized_exec("VARCHAR(", *n as u64),
            ColumnType::Char(n) => sized_exec("CHAR(", *n as u64),
            ColumnType::Text => String::from_str("TEXT"),
            ColumnType::Date => String::from_str("DATE"),
            ColumnType::Time => String::from_str("TIME"),
            ColumnType::DateTime => String::from_str("DATETIME"),
            ColumnType::Timestamp => String::from_str("TIMESTAMP"),
            ColumnType::Blob => String::from_str("BLOB"),
            ColumnType::Binary(n) => sized_exec("BINARY(", *n as u64),
            ColumnType::Boolean => String::from_str("BOOLEAN"),
            ColumnType::Json => String::from_str("JSON"),
            ColumnType::Uuid => String::from_str("UUID"),
            ColumnType::Custom(s) => s.clone(),
        }
    }

    /// The type as the given engine writes it.
    pub fn to_sql(&self, db_type: &DatabaseType) -> (r: String)
        ensures
            r@ == type_sql(*self, *db_type),
    {
        match db_type {
            DatabaseType::SQLite => self.to_sqlite_sql(),
            DatabaseType::MySQL => self.to_mysql_sql(),
            DatabaseType::PostgreSQL => self.to_postgres_sql(),
        }
    }

    fn to_sqlite_sql(&self) -> (r: String)
        ensures
            r@ == sqlite_type(*self),
    {
        match self {
            ColumnType::Integer | ColumnType::BigInt | ColumnType::SmallInt | ColumnType::TinyInt => {
                String::from_str("INTEGER")
            },
            ColumnType::Float | ColumnType::Double => String::from_str("REAL"),
            ColumnType::Decimal { .. } => String::from_str("REAL"),
            ColumnType::Varchar(_) | ColumnType::Char(_) | ColumnType::Text => String::from_str(
                "TEXT",
            ),
            ColumnType::Date | ColumnType::Time | ColumnType::DateTime | ColumnType::Timestamp => {
                String::from_str("TEXT")
            },
            ColumnType::Blob | ColumnType::Binary(_) => String::from_str("BLOB"),
            ColumnType::Boolean => String::from_str("INTEGER"),
            ColumnType::Json => String::from_str("TEXT"),
            ColumnType::Uuid => String::from_str("TEXT"),
            ColumnType::Custom(s) => s.clone(),
        }
    }

    fn to_mysql_sql(&self) -> (r: String)
        ensures
            r@ == mysql_type(*self),
    {
        match self {
            ColumnType::Integer => String::from_str("INT"),
            ColumnType::Boolean => String::from_str("TINYINT(1)"),
            ColumnType::Uuid => String::from_str("CHAR(36)"),
            _ => self.display_name(),
        }
    }

    fn to_postgres_sql(&self) -> (r: String)
        ensures
            r@ == postgres_type(*self),
    {
        match self {
            ColumnType::TinyInt => String::from_str("SMALLINT"),
            ColumnType::Float => String::from_str("REAL"),
            ColumnType::Double => String::from_str("DOUBLE PRECISION"),
            ColumnType::Decimal { precision, scale } => sized2_exec(
                "NUMERIC(",
                *precision as u64,
                *scale as u64,
            ),
            ColumnType::DateTime => String::from_str("TIMESTAMP"),
            ColumnType::Timestamp => String::from_str("TIMESTAMPTZ"),
            ColumnType::Blob | ColumnType::Binary(_) => String::from_str("BYTEA"),
            ColumnType::Json => String::from_str("JSONB"),
            _ => self.display_name(),
        }
    }

    /// The types offered first in the type picker.
    pub fn common_types() -> (r: Vec<ColumnType>)
        ensures
            r@ == seq![
                ColumnType::Integer,
                ColumnType::BigInt,
                ColumnType::Varchar(255),
                ColumnType::Text,
                ColumnType::Boolean,
                ColumnType::Date,
                ColumnType::DateTime,
                ColumnType::Decimal { precision: 10, scale: 2 },
                ColumnType::Float,
                ColumnType::Json,
            ],
    {
        let r = vec![
            ColumnType::Integer,
            ColumnType::BigInt,
            ColumnType::Varchar(255),
            ColumnType::Text,
            ColumnType::Boolean,
            ColumnType::Date,
            ColumnType::DateTime,
            ColumnType::Decimal { precision: 10, scale: 2 },
            ColumnType::Float,
            ColumnType::Json,
        ];
        assert(r@ =~= seq![
            ColumnType::Integer,
            ColumnType::BigInt,
            ColumnType::Varchar(255),
            ColumnType::Text,
            ColumnType::Boolean,
            ColumnType::Date,
            ColumnType::DateTime,
            ColumnType::Decimal { precision: 10, scale: 2 },
            ColumnType::Float,
            ColumnType::Json,
        ]);
        r
    }
}

impl Default for ColumnType {
    fn default() -> (r: Self)
        ensures
            r == ColumnType::Varchar(255),
    {
        ColumnType::Varchar(255)
    }
}

// ---------------------------------------------------------------------------
// Columns
// ---------------------------------------------------------------------------

/// One column of a table being defined.
#[derive(Debug, Clone)]
pub struct ColumnDefinition {
    pub name: String,
    pub data_type: ColumnType,
    pub nullable: bool,
    pub primary_key: bool,
    pub auto_increment: bool,
    pub unique: bool,
    /// A default value, written into the DDL as given (empty: none).
    pub default_value: String,
    /// A comment (written by MySQL only; empty: none).
    pub comment: String,
}

impl Default for ColumnDefinition {
    fn default() -> (r: Self)
        ensures
            r.name@.len() == 0,
            r.data_type == ColumnType::Varchar(255),
            r.nullable,
            !r.primary_key,
            !r.auto_increment,
            !r.unique,
            r.default_value@.len() == 0,
            r.comment@.len() == 0,
    {
        ColumnDefinition {
            name: String::new(),
            data_type: ColumnType::Varchar(255),
            nullable: true,
            primary_key: false,
            auto_increment: false,
            unique: false,
            default_value: String::new(),
            comment: String::new(),
        }
    }
}

/// An identifier in the engine's quotes, with the quote character doubled.
pub open spec fn quoted_name(name: Seq<char>, db: DatabaseType) -> Seq<char> {
    match db {
        DatabaseType::MySQL => "`"@ + double_char(name, '`') + "`"@,
        _ => "\""@ + double_char(name, '"') + "\""@,
    }
}

/// Text with single quotes doubled, for use inside a SQL string literal.
pub open spec fn quote_escaped(s: Seq<char>) -> Seq<char> {
    double_char(s, '\'')
}

/// The words of a column's definition, in order.
pub open spec fn column_parts(c: ColumnDefinition, db: DatabaseType) -> Seq<Seq<char>> {
    let base = seq![quoted_name(c.name@, db), type_sql(c.data_type, db)];
    let a = if c.primary_key {
        base.push("PRIMARY KEY"@)
    } else {
        base
    };
    let b = if c.auto_increment && db == DatabaseType::SQLite && c.primary_key {
        a.push("AUTOINCREMENT"@)
    } else if c.auto_increment && db == DatabaseType::MySQL {
        a.push("AUTO_INCREMENT"@)
    } else {
        a
    };
    let d = if !c.nullable && !c.primary_key {
        b.push("NOT NULL"@)
    } else {
        b
    };
    let e = if c.unique && !c.primary_key {
        d.push("UNIQUE"@)
    } else {
        d
    };
    let f = if c.default_value@.len() > 0 {
        e.push("DEFAULT "@ + c.default_value@)
    } else {
        e
    };
    if c.comment@.len() > 0 && db == DatabaseType::MySQL {
        f.push("COMMENT '"@ + quote_escaped(c.comment@) + "'"@)
    } else {
        f
    }
}

/// Whatever the engine, a column that is neither nullable nor the primary
/// key carries the word `NOT NULL` after its name and type, and any other
/// column does not.
pub proof fn lemma_not_null_exactly_when_required(c: ColumnDefinition, db: DatabaseType)
    ensures
        column_parts(c, db).skip(2).contains("NOT NULL"@) <==> (!c.nullable && !c.primary_key),
{
    reveal_strlit("NOT NULL");
    reveal_strlit("PRIMARY KEY");
    reveal_strlit("AUTOINCREMENT");
    reveal_strlit("AUTO_INCREMENT");
    reveal_strlit("UNIQUE");
    reveal_strlit("DEFAULT ");
    reveal_strlit("COMMENT '");
    reveal_strlit("'");
    let p = column_parts(c, db).skip(2);
    if !c.nullable && !c.primary_key {
        let k = if c.auto_increment && (db == DatabaseType::MySQL) {
            1int
        } else {
            0int
        };
        assert(p[k] == "NOT NULL"@);
    } else {
        assert forall|k: int| 0 <= k < p.len() implies p[k].len() != 8 by {}
    }
}

/// The words of a column's definition: its quoted name and its type first;
/// after them `PRIMARY KEY` exactly for the key, `UNIQUE` exactly for a
/// unique column that is not the key, `AUTO_INCREMENT` exactly for an
/// auto-increment column in MySQL, `AUTOINCREMENT` exactly for an
/// auto-increment key in SQLite, and `DEFAULT` with the default value
/// exactly when there is one.
pub proof fn lemma_column_words(c: ColumnDefinition, db: DatabaseType)
    ensures
        column_parts(c, db)[0] == quoted_name(c.name@, db),
        column_parts(c, db)[1] == type_sql(c.data_type, db),
        column_parts(c, db).skip(2).contains("PRIMARY KEY"@) <==> c.primary_key,
        column_parts(c, db).skip(2).contains("UNIQUE"@) <==> (c.unique && !c.primary_key),
        column_parts(c, db).skip(2).contains("AUTO_INCREMENT"@) <==> (c.auto_increment && db
            == DatabaseType::MySQL),
        column_parts(c, db).skip(2).contains("AUTOINCREMENT"@) <==> (c.auto_increment && db
            == DatabaseType::SQLite && c.primary_key),
        column_parts(c, db).skip(2).contains("DEFAULT "@ + c.default_value@) <==> c.default_value@.len()
            > 0,
{
    reveal_strlit("NOT NULL");
    reveal_strlit("PRIMARY KEY");
    reveal_strlit("AUTOINCREMENT");
    reveal_strlit("AUTO_INCREMENT");
    reveal_strlit("UNIQUE");
    reveal_strlit("DEFAULT ");
    reveal_strlit("COMMENT '");
    reveal_strlit("'");
    let p = column_parts(c, db).skip(2);
    let d = "DEFAULT "@ + c.default_value@;
    assert forall|k: int| 0 <= k < p.len() implies {
        ||| (p[k] == "PRIMARY KEY"@ && c.primary_key)
        ||| (p[k] == "AUTOINCREMENT"@ && c.auto_increment && db == DatabaseType::SQLite
            && c.primary_key)
        ||| (p[k] == "AUTO_INCREMENT"@ && c.auto_increment && db == DatabaseType::MySQL)
        ||| p[k] == "NOT NULL"@
        ||| (p[k] == "UNIQUE"@ && c.unique && !c.primary_key)
        ||| (p[k] == d && c.default_value@.len() > 0)
        ||| (p[k].len() >= 10 && p[k][0] == 'C')
    } by {}
    assert(("PRIMARY KEY"@)[0] == 'P' && ("UNIQUE"@)[0] == 'U');
    assert(("AUTOINCREMENT"@).len() == 13 && ("AUTO_INCREMENT"@).len() == 14);
    assert(("AUTOINCREMENT"@)[0] == 'A' && ("AUTO_INCREMENT"@)[0] == 'A');
    assert(d[0] == 'D' && d.len() == c.default_value@.len() + 8);
    let i_pk = 0int;
    let i_auto = if c.primary_key { 1int } else { 0int };
    let present_auto = (c.auto_increment && db == DatabaseType::SQLite && c.primary_key) || (
    c.auto_increment && db == DatabaseType::MySQL);
    let i_nn = i_auto + if present_auto { 1int } else { 0int };
    let i_u = i_nn + if !c.nullable && !c.primary_key { 1int } else { 0int };
    let i_d = i_u + if c.unique && !c.primary_key { 1int } else { 0int };
    if c.primary_key {
        assert(p[i_pk] == "PRIMARY KEY"@);
    }
    if present_auto {
        assert(p[i_auto] == (if db == DatabaseType::MySQL { "AUTO_INCREMENT"@ } else { "AUTOINCREMENT"@ }));
    }
    if c.unique && !c.primary_key {
        assert(p[i_u] == "UNIQUE"@);
    }
    if c.default_value@.len() > 0 {
        assert(p[i_d] == d);
    }
}

/// A column's definition in DDL: its parts separated by spaces.
pub open spec fn column_sql(c: ColumnDefinition, db: DatabaseType) -> Seq<char> {
    join(column_parts(c, db), " "@)
}

/// Quotes an identifier for the engine: backticks for MySQL, double quotes
/// otherwise, the quote character doubled inside.
fn quote_name(name: &str, db: &DatabaseType) -> (r: String)
    ensures
        r@ == quoted_name(name@, *db),
{
    match db {
        DatabaseType::MySQL => {
            let mut s = String::from_str("`");
            push_doubled(&mut s, name, '`');
            s.append("`");
            s
        },
        _ => {
            let mut s = String::from_str("\"");
            push_doubled(&mut s, name, '"');
            s.append("\"");
            s
        },
    }
}

impl ColumnDefinition {
    /// The column's definition in DDL for the engine.
    pub fn to_sql(&self, db_type: &DatabaseType) -> (r: String)
        ensures
            r@ == column_sql(*self, *db_type),
    {
        let mut parts: Vec<String> = Vec::new();
        parts.push(quote_name(self.name.as_str(), db_type));
        parts.push(self.data_type.to_sql(db_type));
        let ghost db = *db_type;
        let ghost base = seq![quoted_name(self.name@, db), type_sql(self.data_type, db)];
        assert(views(parts@) =~= base);
        if self.primary_key {
            parts.push(String::from_str("PRIMARY KEY"));
        }
        let ghost a = if self.primary_key {
            base.push("PRIMARY KEY"@)
        } else {
            base
        };
        assert(views(parts@) =~= a);
        if self.auto_increment {
            match db_type {
                DatabaseType::SQLite => {
                    if self.primary_key {
                        parts.push(String::from_str("AUTOINCREMENT"));
                    }
                },
                DatabaseType::MySQL => parts.push(String::from_str("AUTO_INCREMENT")),
                DatabaseType::PostgreSQL => {},
            }
        }
        let ghost b = if self.auto_increment && db == DatabaseType::SQLite && self.primary_key {
            a.push("AUTOINCREMENT"@)
        } else if self.auto_increment && db == DatabaseType::MySQL {
            a.push("AUTO_INCREMENT"@)
        } else {
            a
        };
        assert(views(parts@) =~= b);
        if !self.nullable && !self.primary_key {
            parts.push(String::from_str("NOT NULL"));
        }
        let ghost d = if !self.nullable && !self.primary_key {
            b.push("NOT NULL"@)
        } else {
            b
        };
        assert(views(parts@) =~= d);
        if self.unique && !self.primary_key {
            parts.push(String::from_str("UNIQUE"));
        }
        let ghost e = if self.unique && !self.primary_key {
            d.push("UNIQUE"@)
        } else {
            d
        };
        assert(views(parts@) =~= e);
        if !self.default_value.as_str().is_empty() {
            let mut p = String::from_str("DEFAULT ");
            p.append(self.default_value.as_str());
            parts.push(p);
        }
        let ghost f = if self.default_value@.len() > 0 {
            e.push("DEFAULT "@ + self.default_value@)
        } else {
            e
        };
        assert(views(parts@) =~= f);
        let is_mysql = match db_type {
            DatabaseType::MySQL => true,
            _ => false,
        };
        if !self.comment.as_str().is_empty() && is_mysql {
            let mut p = String::from_str("COMMENT '");
            push_doubled(&mut p, self.comment.as_str(), '\'');
            p.append("'");
            parts.push(p);
        }
        assert(views(parts@) =~= column_parts(*self, db));
        join_strings(&parts, " ")
    }
}

// ---------------------------------------------------------------------------
// Tables
// ---------------------------------------------------------------------------

/// A table being defined: its name, columns, comment and engine.
#[derive(Debug, Clone)]
pub struct TableDefinition {
    pub name: String,
    pub columns: Vec<ColumnDefinition>,
    pub comment: String,
    pub db_type: DatabaseType,
}

impl Default for TableDefinition {
    fn default() -> (r: Self)
        ensures
            r.name@.len() == 0,
            r.columns@.len() == 0,
            r.comment@.len() == 0,
            r.db_type == DatabaseType::SQLite,
    {
        TableDefinition {
            name: String::new(),
            columns: Vec::new(),
            comment: String::new(),
            db_type: DatabaseType::SQLite,
        }
    }
}

/// The indented definition line of each column.
pub open spec fn column_lines(cols: Seq<ColumnDefinition>, db: DatabaseType) -> Seq<Seq<char>> {
    cols.map_values(|c: ColumnDefinition| "    "@ + column_sql(c, db))
}

/// The `CREATE TABLE` statement of a table, with its comment (a MySQL table
/// option, or a separate PostgreSQL statement); empty without a name or columns.
pub open spec fn create_sql(t: TableDefinition) -> Seq<char> {
    if t.name@.len() == 0 || t.columns@.len() == 0 {
        seq![]
    } else {
        let q = quoted_name(t.name@, t.db_type);
        let c = t.comment@;
        let body = "CREATE TABLE "@ + q + " (\n"@ + join(column_lines(t.columns@, t.db_type), ",\n"@)
            + "\n)"@;
        let with_option = if c.len() > 0 && t.db_type == DatabaseType::MySQL {
            body + " COMMENT='"@ + quote_escaped(c) + "'"@
        } else {
            body
        };
        let terminated = with_option + ";"@;
        if c.len() > 0 && t.db_type == DatabaseType::PostgreSQL {
            terminated + "\nCOMMENT ON TABLE "@ + q + " IS '"@ + quote_escaped(c) + "';"@
        } else {
            terminated
        }
    }
}

/// The column names of a table.
pub open spec fn column_names(cols: Seq<ColumnDefinition>) -> Seq<Seq<char>> {
    cols.map_values(|c: ColumnDefinition| c.name@)
}

/// Whether column `i` has no name or the name of an earlier column, letter
/// case aside.
pub open spec fn bad_column(names: Seq<Seq<char>>, i: int) -> bool {
    names[i].len() == 0 || exists|j: int|
        0 <= j < i && #[trigger] str_to_lowercase(names[j]) == str_to_lowercase(names[i])
}

/// The first bad column at or after `i`, or the count.
pub open spec fn first_bad_column(names: Seq<Seq<char>>, i: int) -> int
    decreases names.len() - i,
{
    if i >= names.len() {
        names.len() as int
    } else if bad_column(names, i) {
        i
    } else {
        first_bad_column(names, i + 1)
    }
}

/// The number of primary-key columns.
pub open spec fn primary_key_count(cols: Seq<ColumnDefinition>) -> nat
    decreases cols.len(),
{
    if cols.len() == 0 {
        0
    } else {
        primary_key_count(cols.drop_last()) + (if cols.last().primary_key {
            1nat
        } else {
            0nat
        })
    }
}

/// What validating a table answers: the first problem found, in this order —
/// no name, no column, a column without a name or with a repeated name (the
/// first such column), more than one primary key.
pub open spec fn validation(t: TableDefinition) -> Result<(), Seq<char>> {
    let names = column_names(t.columns@);
    let k = first_bad_column(names, 0);
    if t.name@.len() == 0 {
        Err("表名不能为空"@)
    } else if t.columns@.len() == 0 {
        Err("至少需要一个列"@)
    } else if k < names.len() {
        if names[k].len() == 0 {
            Err("列名不能为空"@)
        } else {
            Err("列名 '"@ + names[k] + "' 重复"@)
        }
    } else if primary_key_count(t.columns@) > 1 {
        Err("只能有一个主键列"@)
    } else {
        Ok(())
    }
}

proof fn lemma_no_bad_column_from(names: Seq<Seq<char>>, i: int)
    requires
        0 <= i <= names.len(),
    ensures
        (first_bad_column(names, i) == names.len()) <==> (forall|k: int|
            i <= k < names.len() ==> !bad_column(names, k)),
        first_bad_column(names, i) <= names.len(),
        first_bad_column(names, i) < names.len() ==> i <= first_bad_column(names, i) && bad_column(
            names,
            first_bad_column(names, i),
        ),
    decreases names.len() - i,
{
    if i < names.len() {
        lemma_no_bad_column_from(names, i + 1);
    }
}

proof fn lemma_primary_key_count(cols: Seq<ColumnDefinition>)
    ensures
        (primary_key_count(cols) == 0) <==> (forall|a: int| 0 <= a < cols.len() ==> !(#[trigger] cols[a]).primary_key),
        (primary_key_count(cols) <= 1) <==> (forall|a: int, b: int|
            0 <= a < b < cols.len() ==> !((#[trigger] cols[a]).primary_key && (#[trigger] cols[b]).primary_key)),
    decreases cols.len(),
{
    if cols.len() > 0 {
        let dl = cols.drop_last();
        lemma_primary_key_count(dl);
        assert forall|a: int| 0 <= a < dl.len() implies dl[a] == cols[a] by {}
        if primary_key_count(cols) > 1 {
            if cols.last().primary_key {
                let a = choose|a: int| 0 <= a < dl.len() && (#[trigger] dl[a]).primary_key;
                assert(cols[a].primary_key && cols[cols.len() - 1].primary_key);
            } else {
                let (a, b) = choose|a: int, b: int|
                    0 <= a < b < dl.len() && (#[trigger] dl[a]).primary_key && (#[trigger] dl[b]).primary_key;
                assert(cols[a].primary_key && cols[b].primary_key);
            }
        }
    }
}

/// A table passes validation exactly when it has a name and at least one
/// column, every column has a name, no two columns have the same name once
/// lower-cased, and no two columns are both primary keys.
pub proof fn lemma_validation_ok_exactly_when(t: TableDefinition)
    ensures
        (validation(t) is Ok) <==> {
            &&& t.name@.len() > 0
            &&& t.columns@.len() > 0
            &&& forall|i: int| 0 <= i < t.columns@.len() ==> (#[trigger] t.columns@[i]).name@.len() > 0
            &&& forall|i: int, j: int|
                0 <= j < i < t.columns@.len() ==> str_to_lowercase((#[trigger] t.columns@[j]).name@)
                    != str_to_lowercase((#[trigger] t.columns@[i]).name@)
            &&& forall|a: int, b: int|
                0 <= a < b < t.columns@.len() ==> !((#[trigger] t.columns@[a]).primary_key
                    && (#[trigger] t.columns@[b]).primary_key)
        },
{
    let cols = t.columns@;
    let names = column_names(cols);
    lemma_no_bad_column_from(names, 0);
    lemma_primary_key_count(cols);
    assert forall|i: int| 0 <= i < cols.len() implies names[i] == (#[trigger] cols[i]).name@ by {}
    if validation(t) is Ok {
        assert forall|i: int, j: int|
            0 <= j < i < cols.len() implies str_to_lowercase((#[trigger] cols[j]).name@)
                != str_to_lowercase((#[trigger] cols[i]).name@) by {
            assert(!bad_column(names, i));
            assert(names[j] == cols[j].name@);
        }
        assert forall|i: int| 0 <= i < cols.len() implies (#[trigger] cols[i]).name@.len() > 0 by {
            assert(!bad_column(names, i));
        }
    } else if t.name@.len() > 0 && cols.len() > 0 && first_bad_column(names, 0) < names.len() {
        let k = first_bad_column(names, 0);
        assert(bad_column(names, k));
        if names[k].len() != 0 {
            let j = choose|j: int|
                0 <= j < k && #[trigger] str_to_lowercase(names[j]) == str_to_lowercase(names[k]);
            assert(names[j] == cols[j].name@);
            assert(str_to_lowercase(cols[j].name@) == str_to_lowercase(cols[k].name@));
        } else {
            assert(cols[k].name@.len() == 0);
        }
    }
}

/// The view of a result whose error is a string.
pub open spec fn result_view(r: Result<(), String>) -> Result<(), Seq<char>> {
    match r {
        Ok(()) => Ok(()),
        Err(e) => Err(e@),
    }
}

impl TableDefinition {
    /// An empty definition for the engine.
    pub fn new(db_type: DatabaseType) -> (r: Self)
        ensures
            r.name@.len() == 0,
            r.columns@.len() == 0,
            r.comment@.len() == 0,
            r.db_type == db_type,
    {
        TableDefinition { name: String::new(), columns: Vec::new(), comment: String::new(), db_type }
    }

    /// The `CREATE TABLE` statement (see `create_sql`).
    pub fn to_create_sql(&self) -> (r: String)
        ensures
            r@ == create_sql(*self),
    {
        if self.name.as_str().is_empty() || self.columns.len() == 0 {
            return String::new();
        }
        let q = quote_name(self.name.as_str(), &self.db_type);
        let mut lines: Vec<String> = Vec::new();
        let mut i: usize = 0;
        while i < self.columns.len()
            invariant
                i <= self.columns@.len(),
                views(lines@) == column_lines(self.columns@.take(i as int), self.db_type),
            decreases self.columns@.len() - i,
        {
            let mut line = String::from_str("    ");
            let col = self.columns[i].to_sql(&self.db_type);
            line.append(col.as_str());
            let ghost before = lines@;
            lines.push(line);
            assert(views(lines@) =~= views(before).push(line@));
            assert(column_lines(self.columns@.take(i + 1), self.db_type) =~= column_lines(
                self.columns@.take(i as int),
                self.db_type,
            ).push("    "@ + column_sql(self.columns@[i as int], self.db_type)));
            i = i + 1;
        }
        assert(self.columns@.take(self.columns@.len() as int) == self.columns@);
        let mut sql = String::from_str("CREATE TABLE ");
        sql.append(q.as_str());
        sql.append(" (\n");
        let body = join_strings(&lines, ",\n");
        sql.append(body.as_str());
        sql.append("\n)");
        let has_comment = !self.comment.as_str().is_empty();
        let (is_mysql, is_postgres) = match self.db_type {
            DatabaseType::MySQL => (true, false),
            DatabaseType::PostgreSQL => (false, true),
            DatabaseType::SQLite => (false, false),
        };
        if has_comment && is_mysql {
            sql.append(" COMMENT='");
            push_doubled(&mut sql, self.comment.as_str(), '\'');
            sql.append("'");
        }
        sql.append(";");
        if has_comment && is_postgres {
            sql.append("\nCOMMENT ON TABLE ");
            sql.append(q.as_str());
            sql.append(" IS '");
            push_doubled(&mut sql, self.comment.as_str(), '\'');
            sql.append("';");
        }
        sql
    }

    /// Checks the definition (see `validation`).
    pub fn validate(&self) -> (r: Result<(), String>)
        ensures
            result_view(r) == validation(*self),
    {
        if self.name.as_str().is_empty() {
            return Err(String::from_str("表名不能为空"));
        }
        if self.columns.len() == 0 {
            return Err(String::from_str("至少需要一个列"));
        }
        let k = first_bad_index(&self.columns);
        if k < self.columns.len() {
            let name = self.columns[k].name.as_str();
            if name.is_empty() {
                return Err(String::from_str("列名不能为空"));
            }
            let mut e = String::from_str("列名 '");
            e.append(name);
            e.append("' 重复");
            return Err(e);
        }
        if count_primary_keys(&self.columns) > 1 {
            return Err(String::from_str("只能有一个主键列"));
        }
        Ok(())
    }
}

/// The first column without a name or with the name of an earlier column.
fn first_bad_index(cols: &Vec<ColumnDefinition>) -> (k: usize)
    ensures
        k == first_bad_column(column_names(cols@), 0),
{
    let ghost names = column_names(cols@);
    let mut lowered: Vec<String> = Vec::new();
    let mut i: usize = 0;
    while i < cols.len()
        invariant
            i <= cols@.len(),
            names == column_names(cols@),
            lowered@.len() == i,
            forall|j: int| 0 <= j < i ==> (#[trigger] lowered@[j])@ == str_to_lowercase(names[j]),
            first_bad_column(names, 0) == first_bad_column(names, i as int),
        decreases cols@.len() - i,
    {
        let name = cols[i].name.as_str();
        assert(names[i as int] == name@);
        if name.is_empty() {
            assert(first_bad_column(names, i as int) == i as int);
            return i;
        }
        let low = to_lowercase(name);
        if contains_string(&lowered, low.as_str()) {
            assert(bad_column(names, i as int));
            assert(first_bad_column(names, i as int) == i as int);
            return i;
        }
        assert(!bad_column(names, i as int)) by {
            assert forall|j: int| 0 <= j < i implies #[trigger] str_to_lowercase(names[j])
                != str_to_lowercase(names[i as int]) by {
                assert(lowered@[j]@ == str_to_lowercase(names[j]));
            }
        }
        assert(first_bad_column(names, i as int) == first_bad_column(names, i + 1));
        lowered.push(low);
        i = i + 1;
    }
    assert(first_bad_column(names, i as int) == names.len());
    i
}

/// Whether some string of the list equals `s`.
fn contains_string(list: &Vec<String>, s: &str) -> (r: bool)
    ensures
        r == exists|j: int| 0 <= j < list@.len() && (#[trigger] list@[j])@ == s@,
{
    let mut j: usize = 0;
    while j < list.len()
        invariant
            j <= list@.len(),
            forall|k: int| 0 <= k < j ==> (#[trigger] list@[k])@ != s@,
        decreases list@.len() - j,
    {
        if str_eq(list[j].as_str(), s) {
            return true;
        }
        j = j + 1;
    }
    false
}

/// The number of primary-key columns.
fn count_primary_keys(cols: &Vec<ColumnDefinition>) -> (n: usize)
    ensures
        n == primary_key_count(cols@),
{
    let mut count: usize = 0;
    let mut k: usize = 0;
    while k < cols.len()
        invariant
            k <= cols@.len(),
            count == primary_key_count(cols@.take(k as int)),
            count <= k,
        decreases cols@.len() - k,
    {
        assert(cols@.take(k + 1).drop_last() == cols@.take(k as int));
        if cols[k].primary_key {
            count = count + 1;
        }
        k = k + 1;
    }
    assert(cols@.take(cols@.len() as int) == cols@);
    count
}

// ---------------------------------------------------------------------------
// Dialog state
// ---------------------------------------------------------------------------

/// The create-table dialog widget.
pub struct DdlDialog;

/// The state of the create-table dialog.
pub struct DdlDialogState {
    pub table: TableDefinition,
    pub show: bool,
    pub type_dropdown_open: Option<usize>,
    pub error: Option<String>,
    pub generated_sql: String,
    /// The column the keyboard cursor is on.
    pub selected_column: usize,
}

/// Whether `t` is an empty definition for `db`.
pub open spec fn empty_table(t: TableDefinition, db: DatabaseType) -> bool {
    &&& t.name@.len() == 0
    &&& t.columns@.len() == 0
    &&& t.comment@.len() == 0
    &&& t.db_type == db
}

impl Default for DdlDialogState {
    fn default() -> (r: Self)
        ensures
            empty_table(r.table, DatabaseType::SQLite),
            !r.show,
            r.type_dropdown_open is None,
            r.error is None,
            r.generated_sql@.len() == 0,
            r.selected_column == 0,
    {
        DdlDialogState {
            table: TableDefinition::default(),
            show: false,
            type_dropdown_open: None,
            error: None,
            generated_sql: String::new(),
            selected_column: 0,
        }
    }
}

impl DdlDialogState {
    /// A closed dialog with an empty definition.
    pub fn new() -> (r: Self)
        ensures
            empty_table(r.table, DatabaseType::SQLite),
            !r.show,
            r.type_dropdown_open is None,
            r.error is None,
            r.generated_sql@.len() == 0,
            r.selected_column == 0,
    {
        DdlDialogState::default()
    }

    /// Opens the dialog on a new table for the engine, with one column
    /// `id INTEGER` that is an auto-incremented, non-null primary key.
    pub fn open_create_table(&mut self, db_type: DatabaseType)
        ensures
            final(self).table.name@.len() == 0,
            final(self).table.comment@.len() == 0,
            final(self).table.db_type == db_type,
            final(self).table.columns@.len() == 1,
            ({
                let c = final(self).table.columns@[0];
                &&& c.name@ == "id"@
                &&& c.data_type == ColumnType::Integer
                &&& c.primary_key && c.auto_increment && !c.nullable && !c.unique
                &&& c.default_value@.len() == 0 && c.comment@.len() == 0
            }),
            final(self).show,
            final(self).error is None,
            final(self).generated_sql@.len() == 0,
            final(self).selected_column == 0,
            final(self).type_dropdown_open == old(self).type_dropdown_open,
    {
        self.table = TableDefinition::new(db_type);
        self.table.columns.push(
            ColumnDefinition {
                name: String::from_str("id"),
                data_type: ColumnType::Integer,
                nullable: false,
                primary_key: true,
                auto_increment: true,
                unique: false,
                default_value: String::new(),
                comment: String::new(),
            },
        );
        self.show = true;
        self.error = None;
        self.generated_sql = String::new();
        self.selected_column = 0;
    }

    /// Closes the dialog and forgets the definition.
    pub fn close(&mut self)
        ensures
            !final(self).show,
            empty_table(final(self).table, DatabaseType::SQLite),
            final(self).error is None,
            final(self).generated_sql@.len() == 0,
            final(self).selected_column == old(self).selected_column,
            final(self).type_dropdown_open == old(self).type_dropdown_open,
    {
        self.show = false;
        self.table = TableDefinition::default();
        self.error = None;
        self.generated_sql = String::new();
    }
}

// ---------------------------------------------------------------------------
// The dialog's keys
// ---------------------------------------------------------------------------

/// An optional text by its characters.
pub open spec fn opt_text(o: Option<String>) -> Option<Seq<char>> {
    match o {
        Some(t) => Some(t@),
        None => None,
    }
}

/// The model of a column definition: every field by its plain value.
pub struct ColumnView {
    pub name: Seq<char>,
    pub data_type: ColumnType,
    pub nullable: bool,
    pub primary_key: bool,
    pub auto_increment: bool,
    pub unique: bool,
    pub default_value: Seq<char>,
    pub comment: Seq<char>,
}

/// The model of a column definition.
pub open spec fn column_view(c: ColumnDefinition) -> ColumnView {
    ColumnView {
        name: c.name@,
        data_type: c.data_type,
        nullable: c.nullable,
        primary_key: c.primary_key,
        auto_increment: c.auto_increment,
        unique: c.unique,
        default_value: c.default_value@,
        comment: c.comment@,
    }
}

/// The models of the columns.
pub open spec fn column_views(cols: Seq<ColumnDefinition>) -> Seq<ColumnView> {
    cols.map_values(|c: ColumnDefinition| column_view(c))
}

/// A new column: no name, `VARCHAR(255)`, nullable, nothing else set.
pub open spec fn new_column() -> ColumnView {
    ColumnView {
        name: seq![],
        data_type: ColumnType::Varchar(255),
        nullable: true,
        primary_key: false,
        auto_increment: false,
        unique: false,
        default_value: seq![],
        comment: seq![],
    }
}

/// The primary key of the column at `s` set on or off: set on, it makes the
/// column non-null and takes the key from every other column; set off, only
/// that column changes.
pub open spec fn primary_key_set(cols: Seq<ColumnView>, s: int, on: bool) -> Seq<ColumnView> {
    if on {
        Seq::new(
            cols.len(),
            |k: int|
                if k == s {
                    ColumnView { primary_key: true, nullable: false, ..cols[k] }
                } else {
                    ColumnView { primary_key: false, ..cols[k] }
                },
        )
    } else {
        cols.update(s, ColumnView { primary_key: false, ..cols[s] })
    }
}

/// The primary key of the column at `s` switched (see `primary_key_set`).
pub open spec fn primary_key_toggled(cols: Seq<ColumnView>, s: int) -> Seq<ColumnView> {
    primary_key_set(cols, s, !cols[s].primary_key)
}

/// The columns and the column cursor after a move in the list: `k`/`j` move
/// (stopping at the ends), `g`/Home and `G`/End jump, `d` deletes the column
/// under the cursor when more than one is left, `o` adds a column below the
/// cursor and moves onto it, `O` adds one above.
pub open spec fn ddl_list_move(nav: ListNavigation, cols: Seq<ColumnView>, sel: usize) -> (Seq<ColumnView>, usize) {
    let n = cols.len();
    let last: usize = if n >= 1 { (n - 1) as usize } else { 0 };
    match nav {
        ListNavigation::Up => (cols, if sel > 0 { (sel - 1) as usize } else { sel }),
        ListNavigation::Down => (cols, if sel < last { (sel + 1) as usize } else { sel }),
        ListNavigation::Start => (cols, 0),
        ListNavigation::End => (cols, last),
        ListNavigation::Delete => if n > 1 {
            let c = cols.remove(sel as int);
            (c, if sel >= c.len() { (if c.len() >= 1 { c.len() - 1 } else { 0 }) as usize } else { sel })
        } else {
            (cols, sel)
        },
        ListNavigation::AddBelow => {
            let p: usize = if sel + 1 <= n { (sel + 1) as usize } else { n as usize };
            (cols.insert(p as int, new_column()), p)
        },
        ListNavigation::AddAbove => (cols.insert(sel as int, new_column()), sel),
        _ => (cols, sel),
    }
}

/// The columns and the column cursor after the list keys: the move (see
/// `ddl_list_move`), then Space (no modifier) switches the primary key of
/// the column under the cursor.
pub open spec fn ddl_list_keys(i: KeyInput, cols: Seq<ColumnView>, sel: usize) -> (Seq<ColumnView>, usize) {
    let (c1, s1) = ddl_list_move(list_navigation(i), cols, sel);
    if i.has(Key::Space) && i.modifiers.none_held() && s1 < c1.len() {
        (primary_key_toggled(c1, s1 as int), s1)
    } else {
        (c1, s1)
    }
}

/// The inputs on which the list keys would index past the columns (the
/// original panics there): deleting with the cursor past the end, adding
/// above it from past the end, or adding below from the largest index.
pub open spec fn ddl_keys_fit(i: KeyInput, cols_len: nat, sel: usize) -> bool {
    &&& (list_navigation(i) == ListNavigation::Delete && cols_len > 1 ==> sel < cols_len)
    &&& (list_navigation(i) == ListNavigation::AddAbove ==> sel <= cols_len)
    &&& (list_navigation(i) == ListNavigation::AddBelow ==> sel < usize::MAX)
}

fn new_column_exec() -> (r: ColumnDefinition)
    ensures
        column_view(r) == new_column(),
{
    let c = ColumnDefinition::default();
    assert(c.name@ =~= seq![]);
    assert(c.default_value@ =~= seq![]);
    assert(c.comment@ =~= seq![]);
    c
}

fn set_primary_key_exec(cols: &mut Vec<ColumnDefinition>, s: usize, on: bool)
    requires
        s < old(cols)@.len(),
    ensures
        column_views(final(cols)@) == primary_key_set(column_views(old(cols)@), s as int, on),
{
    let ghost before = column_views(cols@);
    cols[s].primary_key = on;
    if on {
        cols[s].nullable = false;
        let mut k: usize = 0;
        while k < cols.len()
            invariant
                cols@.len() == before.len(),
                s < before.len(),
                k <= cols@.len(),
                forall|j: int|
                    0 <= j < cols@.len() ==> #[trigger] column_view(cols@[j]) == (if j == s {
                        ColumnView { primary_key: true, nullable: false, ..before[j] }
                    } else if j < k {
                        ColumnView { primary_key: false, ..before[j] }
                    } else {
                        before[j]
                    }),
            decreases cols@.len() - k,
        {
            let ghost prev = cols@;
            if k != s {
                cols[k].primary_key = false;
                assert(cols@ == prev.update(k as int, ColumnDefinition { primary_key: false, ..prev[k as int] }));
                assert(column_view(cols@[k as int]) == ColumnView { primary_key: false, ..column_view(prev[k as int]) });
            }
            assert forall|j: int| 0 <= j < cols@.len() && j != k implies cols@[j] == prev[j] by {}
            k = k + 1;
        }
        assert(column_views(cols@) =~= primary_key_set(before, s as int, on));
    } else {
        assert(column_views(cols@) =~= primary_key_set(before, s as int, on));
    }
}

fn toggle_primary_key(cols: &mut Vec<ColumnDefinition>, s: usize)
    requires
        s < old(cols)@.len(),
    ensures
        column_views(final(cols)@) == primary_key_toggled(column_views(old(cols)@), s as int),
{
    let on = !cols[s].primary_key;
    set_primary_key_exec(cols, s, on);
}

fn list_move_exec(nav: ListNavigation, cols: &mut Vec<ColumnDefinition>, sel: usize) -> (r: usize)
    requires
        nav == ListNavigation::Delete && old(cols)@.len() > 1 ==> sel < old(cols)@.len(),
        nav == ListNavigation::AddAbove ==> sel <= old(cols)@.len(),
        nav == ListNavigation::AddBelow ==> sel < usize::MAX,
    ensures
        (column_views(final(cols)@), r) == ddl_list_move(nav, column_views(old(cols)@), sel),
{
    let ghost before = column_views(cols@);
    let n = cols.len();
    let last = if n >= 1 { n - 1 } else { 0 };
    match nav {
        ListNavigation::Up => {
            if sel > 0 { sel - 1 } else { sel }
        },
        ListNavigation::Down => {
            if sel < last { sel + 1 } else { sel }
        },
        ListNavigation::Start => 0,
        ListNavigation::End => last,
        ListNavigation::Delete => {
            if n > 1 {
                let _ = cols.remove(sel);
                assert(column_views(cols@) =~= before.remove(sel as int));
                if sel >= cols.len() {
                    if cols.len() >= 1 { cols.len() - 1 } else { 0 }
                } else {
                    sel
                }
            } else {
                sel
            }
        },
        ListNavigation::AddBelow => {
            let p = if sel + 1 <= n { sel + 1 } else { n };
            let c = new_column_exec();
            cols.insert(p, c);
            assert(column_views(cols@) =~= before.insert(p as int, new_column()));
            p
        },
        ListNavigation::AddAbove => {
            let c = new_column_exec();
            cols.insert(sel, c);
            assert(column_views(cols@) =~= before.insert(sel as int, new_column()));
            sel
        },
        _ => sel,
    }
}

fn list_keys_exec(input: &KeyInput, cols: &mut Vec<ColumnDefinition>, sel: usize) -> (r: usize)
    requires
        ddl_keys_fit(*input, old(cols)@.len(), sel),
    ensures
        (column_views(final(cols)@), r) == ddl_list_keys(*input, column_views(old(cols)@), sel),
{
    let nav = handle_list_navigation(input);
    let s = list_move_exec(nav, cols, sel);
    if input.key_pressed(Key::Space) && input.modifiers.is_none() && s < cols.len() {
        toggle_primary_key(cols, s);
    }
    s
}

impl DdlDialog {
    /// The primary-key box of a column ticked or unticked (see
    /// `primary_key_set`).
    pub fn set_primary_key(state: &mut DdlDialogState, idx: usize, on: bool)
        requires
            idx < old(state).table.columns@.len(),
        ensures
            column_views(final(state).table.columns@) == primary_key_set(
                column_views(old(state).table.columns@),
                idx as int,
                on,
            ),
            *final(state) == (DdlDialogState { table: final(state).table, ..*old(state) }),
            final(state).table == (TableDefinition { columns: final(state).table.columns, ..old(state).table }),
    {
        set_primary_key_exec(&mut state.table.columns, idx, on);
    }

    /// The "×" of a column: the column is removed.
    pub fn remove_column(state: &mut DdlDialogState, idx: usize)
        requires
            idx < old(state).table.columns@.len(),
        ensures
            column_views(final(state).table.columns@) == column_views(old(state).table.columns@).remove(
                idx as int,
            ),
            *final(state) == (DdlDialogState { table: final(state).table, ..*old(state) }),
            final(state).table == (TableDefinition { columns: final(state).table.columns, ..old(state).table }),
    {
        let ghost before = column_views(state.table.columns@);
        let _ = state.table.columns.remove(idx);
        assert(column_views(state.table.columns@) =~= before.remove(idx as int));
    }

    /// "+ Add column": a new column at the end.
    pub fn add_column(state: &mut DdlDialogState)
        ensures
            column_views(final(state).table.columns@) == column_views(old(state).table.columns@).push(
                new_column(),
            ),
            *final(state) == (DdlDialogState { table: final(state).table, ..*old(state) }),
            final(state).table == (TableDefinition { columns: final(state).table.columns, ..old(state).table }),
    {
        let ghost before = column_views(state.table.columns@);
        let c = new_column_exec();
        state.table.columns.push(c);
        assert(column_views(state.table.columns@) =~= before.push(new_column()));
    }

    /// "Create table": a valid definition gives its `CREATE TABLE` statement
    /// and closes the dialog; an invalid one records the problem.
    pub fn try_create(state: &mut DdlDialogState) -> (r: Option<String>)
        ensures
            match validation(old(state).table) {
                Ok(()) => {
                    &&& r matches Some(sql) && sql@ == create_sql(old(state).table)
                    &&& !final(state).show
                    &&& empty_table(final(state).table, DatabaseType::SQLite)
                    &&& final(state).error is None
                },
                Err(e) => {
                    &&& r is None
                    &&& opt_text(final(state).error) == Some(e)
                    &&& *final(state) == (DdlDialogState { error: final(state).error, ..*old(state) })
                },
            },
    {
        match state.table.validate() {
            Ok(()) => {
                let sql = state.table.to_create_sql();
                state.close();
                Some(sql)
            },
            Err(e) => {
                state.error = Some(e);
                None
            },
        }
    }
}

impl DdlDialog {
    /// One frame of the create-table dialog's keys (call it when no text
    /// field has the keyboard): Escape or `q` closes the dialog; Enter or `y`
    /// validates the definition and, when it is valid, returns its
    /// `CREATE TABLE` statement and closes the dialog, else records the
    /// problem; then the list keys edit the columns (see `ddl_list_keys`).
    pub fn handle_keys(input: &KeyInput, state: &mut DdlDialogState) -> (r: Option<String>)
        requires
            !closes(*input) && !(dialog_action(*input) == DialogAction::Confirm && validation(
                old(state).table,
            ) is Ok) ==> ddl_keys_fit(
                *input,
                old(state).table.columns@.len(),
                old(state).selected_column,
            ),
        ensures
            closes(*input) ==> {
                &&& r is None
                &&& !final(state).show
                &&& empty_table(final(state).table, DatabaseType::SQLite)
                &&& final(state).error is None
                &&& final(state).selected_column == old(state).selected_column
            },
            !closes(*input) && dialog_action(*input) == DialogAction::Confirm && validation(
                old(state).table,
            ) is Ok ==> {
                &&& r matches Some(sql) && sql@ == create_sql(old(state).table)
                &&& !final(state).show
                &&& empty_table(final(state).table, DatabaseType::SQLite)
                &&& final(state).error is None
            },
            !closes(*input) && !(dialog_action(*input) == DialogAction::Confirm && validation(
                old(state).table,
            ) is Ok) ==> {
                let (cols, sel) = ddl_list_keys(
                    *input,
                    column_views(old(state).table.columns@),
                    old(state).selected_column,
                );
                &&& r is None
                &&& column_views(final(state).table.columns@) == cols
                &&& final(state).selected_column == sel
                &&& final(state).table.name == old(state).table.name
                &&& final(state).table.comment == old(state).table.comment
                &&& final(state).table.db_type == old(state).table.db_type
                &&& final(state).show == old(state).show
                &&& final(state).type_dropdown_open == old(state).type_dropdown_open
                &&& final(state).generated_sql == old(state).generated_sql
                &&& (dialog_action(*input) == DialogAction::Confirm ==> opt_text(final(state).error)
                    == match validation(old(state).table) {
                    Err(e) => Some(e),
                    Ok(()) => None,
                })
                &&& dialog_action(*input) != DialogAction::Confirm ==> final(state).error
                    == old(state).error
            },
    {
        if handle_close_keys(input) {
            state.close();
            return None;
        }
        if let DialogAction::Confirm = handle_dialog_keys(input) {
            match state.table.validate() {
                Ok(()) => {
                    let sql = state.table.to_create_sql();
                    state.close();
                    return Some(sql);
                },
                Err(e) => {
                    state.error = Some(e);
                },
            }
        }
        let sel = list_keys_exec(input, &mut state.table.columns, state.selected_column);
        state.selected_column = sel;
        None
    }
}

/// No two columns are both the primary key.
pub open spec fn single_primary_key(cols: Seq<ColumnView>) -> bool {
    forall|a: int, b: int|
        0 <= a < b < cols.len() ==> !(#[trigger] cols[a].primary_key && #[trigger] cols[b].primary_key)
}

/// The column keys keep the table to at most one primary key: moving,
/// deleting and adding columns never make a second one, and Space on a
/// column takes the key from every other column.
pub proof fn lemma_list_keys_keep_one_primary_key(i: KeyInput, cols: Seq<ColumnView>, sel: usize)
    requires
        single_primary_key(cols),
        ddl_keys_fit(i, cols.len(), sel),
    ensures
        single_primary_key(ddl_list_keys(i, cols, sel).0),
{
    let (c1, s1) = ddl_list_move(list_navigation(i), cols, sel);
    assert(single_primary_key(c1)) by {
        match list_navigation(i) {
            ListNavigation::Delete => {
                if cols.len() > 1 {
                    assert forall|a: int, b: int| 0 <= a < b < c1.len() implies !(
                    #[trigger] c1[a].primary_key && #[trigger] c1[b].primary_key) by {
                        let a2 = if a < sel { a } else { a + 1 };
                        let b2 = if b < sel { b } else { b + 1 };
                        assert(c1[a] == cols[a2]);
                        assert(c1[b] == cols[b2]);
                    }
                }
            },
            ListNavigation::AddBelow => {
                let n = cols.len();
                let p: int = if sel + 1 <= n { sel + 1 } else { n as int };
                assert forall|a: int, b: int| 0 <= a < b < c1.len() implies !(
                #[trigger] c1[a].primary_key && #[trigger] c1[b].primary_key) by {
                    if a != p && b != p {
                        let a2 = if a < p { a } else { a - 1 };
                        let b2 = if b < p { b } else { b - 1 };
                        assert(c1[a] == cols[a2]);
                        assert(c1[b] == cols[b2]);
                    }
                }
            },
            ListNavigation::AddAbove => {
                let p: int = sel as int;
                assert forall|a: int, b: int| 0 <= a < b < c1.len() implies !(
                #[trigger] c1[a].primary_key && #[trigger] c1[b].primary_key) by {
                    if a != p && b != p {
                        let a2 = if a < p { a } else { a - 1 };
                        let b2 = if b < p { b } else { b - 1 };
                        assert(c1[a] == cols[a2]);
                        assert(c1[b] == cols[b2]);
                    }
                }
            },
            _ => {},
        }
    }
    if i.has(Key::Space) && i.modifiers.none_held() && s1 < c1.len() {
        let t = primary_key_toggled(c1, s1 as int);
        assert forall|a: int, b: int| 0 <= a < b < t.len() implies !(
        #[trigger] t[a].primary_key && #[trigger] t[b].primary_key) by {
            if c1[s1 as int].primary_key {
                assert(t[a].primary_key ==> c1[a].primary_key);
                assert(t[b].primary_key ==> c1[b].primary_key);
            }
        }
    }
}

} // verus!
