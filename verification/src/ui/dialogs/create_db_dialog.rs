//! The create-database dialog: its fields and the statement they produce.
use vstd::prelude::*;
use crate::database::DatabaseType;
use crate::text::{all_word_chars, check_all_word_chars};
use crate::ui::dialogs::keyboard::{closes, dialog_action, handle_close_keys, handle_dialog_keys, DialogAction};
use crate::ui::input::KeyInput;

verus! {

/// What the create-database dialog answered.
pub enum CreateDbDialogResult {
    /// Nothing yet.
    Idle,
    /// Create, with the statement (or, for SQLite, the file marker).
    Create(String),
    /// The user cancelled.
    Cancelled,
}

/// The create-database dialog widget.
pub struct CreateDbDialog;

/// The fields of the create-database dialog.
pub struct CreateDbDialogState {
    pub db_name: String,
    /// MySQL character set.
    pub charset: String,
    /// MySQL collation.
    pub collation: String,
    /// PostgreSQL encoding.
    pub encoding: String,
    /// PostgreSQL template.
    pub template: String,
    /// PostgreSQL owner.
    pub owner: String,
    /// SQLite file path.
    pub sqlite_path: String,
    pub show: bool,
    pub db_type: DatabaseType,
    pub error: Option<String>,
}

/// Whether every text field is empty and there is no error.
pub open spec fn fields_cleared(s: CreateDbDialogState) -> bool {
    &&& s.db_name@.len() == 0
    &&& s.charset@.len() == 0
    &&& s.collation@.len() == 0
    &&& s.encoding@.len() == 0
    &&& s.template@.len() == 0
    &&& s.owner@.len() == 0
    &&& s.sqlite_path@.len() == 0
    &&& s.error is None
}

/// ` <keyword><value>` when the value is given, nothing otherwise.
pub open spec fn clause(keyword: Seq<char>, value: Seq<char>, close: Seq<char>) -> Seq<char> {
    if value.len() == 0 {
        seq![]
    } else {
        keyword + value + close
    }
}

/// The MySQL statement.
pub open spec fn mysql_create_db(s: CreateDbDialogState) -> Seq<char> {
    "CREATE DATABASE `"@ + s.db_name@ + "`"@ + clause(" CHARACTER SET "@, s.charset@, seq![])
        + clause(" COLLATE "@, s.collation@, seq![]) + ";"@
}

/// The PostgreSQL statement.
pub open spec fn postgres_create_db(s: CreateDbDialogState) -> Seq<char> {
    "CREATE DATABASE \""@ + s.db_name@ + "\""@ + clause(" ENCODING '"@, s.encoding@, "'"@)
        + clause(" TEMPLATE "@, s.template@, seq![]) + clause(" OWNER \""@, s.owner@, "\""@)
        + ";"@
}

/// The SQLite marker: the file to create, the given path or `<name>.db`.
pub open spec fn sqlite_create_db(s: CreateDbDialogState) -> Seq<char> {
    "SQLITE_CREATE:"@ + (if s.sqlite_path@.len() == 0 {
        s.db_name@ + ".db"@
    } else {
        s.sqlite_path@
    })
}

/// What generating the statement answers: an error for an empty name or a
/// name with other than letters, digits and underscores; else the statement
/// of the engine.
pub open spec fn create_db_sql(s: CreateDbDialogState) -> Result<Seq<char>, Seq<char>> {
    if s.db_name@.len() == 0 {
        Err("数据库名称不能为空"@)
    } else if !all_word_chars(s.db_name@) {
        Err("数据库名只能包含字母、数字和下划线"@)
    } else {
        match s.db_type {
            DatabaseType::MySQL => Ok(mysql_create_db(s)),
            DatabaseType::PostgreSQL => Ok(postgres_create_db(s)),
            DatabaseType::SQLite => Ok(sqlite_create_db(s)),
        }
    }
}

/// A database is created exactly when its name is non-empty and made of
/// letters, digits and underscores. MySQL and PostgreSQL then get one
/// `CREATE DATABASE` statement ending in `;`, which for MySQL without
/// character set or collation is just the quoted name; SQLite gets the
/// file-creation marker.
pub proof fn lemma_create_db_statement(s: CreateDbDialogState)
    ensures
        (create_db_sql(s) is Ok) <==> (s.db_name@.len() > 0 && all_word_chars(s.db_name@)),
        create_db_sql(s) matches Ok(sql) ==> (s.db_type != DatabaseType::SQLite ==> sql.take(16)
            == "CREATE DATABASE "@ && sql.last() == ';'),
        create_db_sql(s) matches Ok(sql) ==> (s.db_type == DatabaseType::SQLite ==> sql.take(14)
            == "SQLITE_CREATE:"@),
        create_db_sql(s) matches Ok(sql) ==> (s.db_type == DatabaseType::MySQL && s.charset@.len()
            == 0 && s.collation@.len() == 0 ==> sql == "CREATE DATABASE `"@ + s.db_name@ + "`;"@),
{
    reveal_strlit("CREATE DATABASE `");
    reveal_strlit("CREATE DATABASE \"");
    reveal_strlit("CREATE DATABASE ");
    reveal_strlit("SQLITE_CREATE:");
    reveal_strlit("`;");
    reveal_strlit("`");
    reveal_strlit(";");
    if let Ok(sql) = create_db_sql(s) {
        match s.db_type {
            DatabaseType::MySQL => {
                let pre = "CREATE DATABASE `"@;
                let rest = s.db_name@ + "`"@ + clause(" CHARACTER SET "@, s.charset@, seq![])
                    + clause(" COLLATE "@, s.collation@, seq![]);
                assert(sql =~= pre + rest + ";"@);
                assert(sql.take(16) =~= "CREATE DATABASE "@);
                if s.charset@.len() == 0 && s.collation@.len() == 0 {
                    assert(sql =~= "CREATE DATABASE `"@ + s.db_name@ + "`;"@);
                }
            },
            DatabaseType::PostgreSQL => {
                let pre = "CREATE DATABASE \""@;
                let rest = s.db_name@ + "\""@ + clause(" ENCODING '"@, s.encoding@, "'"@) + clause(
                    " TEMPLATE "@,
                    s.template@,
                    seq![],
                ) + clause(" OWNER \""@, s.owner@, "\""@);
                assert(sql =~= pre + rest + ";"@);
                assert(sql.take(16) =~= "CREATE DATABASE "@);
            },
            DatabaseType::SQLite => {
                assert(sql.take(14) =~= "SQLITE_CREATE:"@);
            },
        }
    }
}

/// The view of a result of strings.
pub open spec fn string_result(r: Result<String, String>) -> Result<Seq<char>, Seq<char>> {
    match r {
        Ok(s) => Ok(s@),
        Err(e) => Err(e@),
    }
}

fn push_clause(sql: &mut String, keyword: &str, value: &str, close: &str)
    ensures
        final(sql)@ == old(sql)@ + clause(keyword@, value@, close@),
{
    if !value.is_empty() {
        sql.append(keyword);
        sql.append(value);
        sql.append(close);
    } else {
        assert(old(sql)@ + seq![] == old(sql)@);
    }
}

impl Default for CreateDbDialogState {
    fn default() -> (r: Self)
        ensures
            fields_cleared(r),
            !r.show,
            r.db_type == DatabaseType::SQLite,
    {
        CreateDbDialogState {
            db_name: String::new(),
            charset: String::new(),
            collation: String::new(),
            encoding: String::new(),
            template: String::new(),
            owner: String::new(),
            sqlite_path: String::new(),
            show: false,
            db_type: DatabaseType::SQLite,
            error: None,
        }
    }
}

impl CreateDbDialogState {
    /// A closed dialog with empty fields.
    pub fn new() -> (r: Self)
        ensures
            fields_cleared(r),
            !r.show,
            r.db_type == DatabaseType::SQLite,
    {
        CreateDbDialogState::default()
    }

    /// Opens the dialog for an engine with its usual defaults: `utf8mb4` and
    /// `utf8mb4_unicode_ci` for MySQL, `UTF8` and `template0` for PostgreSQL.
    pub fn open(&mut self, db_type: DatabaseType)
        ensures
            final(self).show,
            final(self).db_type == db_type,
            final(self).db_name@.len() == 0,
            final(self).owner@.len() == 0,
            final(self).sqlite_path@.len() == 0,
            final(self).error is None,
            final(self).charset@ == (if db_type == DatabaseType::MySQL {
                "utf8mb4"@
            } else {
                seq![]
            }),
            final(self).collation@ == (if db_type == DatabaseType::MySQL {
                "utf8mb4_unicode_ci"@
            } else {
                seq![]
            }),
            final(self).encoding@ == (if db_type == DatabaseType::PostgreSQL {
                "UTF8"@
            } else {
                seq![]
            }),
            final(self).template@ == (if db_type == DatabaseType::PostgreSQL {
                "template0"@
            } else {
                seq![]
            }),
    {
        self.reset();
        self.db_type = db_type;
        self.show = true;
        match db_type {
            DatabaseType::MySQL => {
                self.charset = String::from_str("utf8mb4");
                self.collation = String::from_str("utf8mb4_unicode_ci");
            },
            DatabaseType::PostgreSQL => {
                self.encoding = String::from_str("UTF8");
                self.template = String::from_str("template0");
            },
            DatabaseType::SQLite => {},
        }
    }

    /// Closes the dialog and clears its fields.
    pub fn close(&mut self)
        ensures
            !final(self).show,
            fields_cleared(*final(self)),
            final(self).db_type == old(self).db_type,
    {
        self.show = false;
        self.reset();
    }

    /// Clears the fields and the error.
    fn reset(&mut self)
        ensures
            fields_cleared(*final(self)),
            final(self).show == old(self).show,
            final(self).db_type == old(self).db_type,
    {
        self.db_name = String::new();
        self.charset = String::new();
        self.collation = String::new();
        self.encoding = String::new();
        self.template = String::new();
        self.owner = String::new();
        self.sqlite_path = String::new();
        self.error = None;
    }

    /// The statement that creates the database (see `create_db_sql`).
    pub fn generate_sql(&self) -> (r: Result<String, String>)
        ensures
            string_result(r) == create_db_sql(*self),
    {
        if self.db_name.as_str().is_empty() {
            return Err(String::from_str("数据库名称不能为空"));
        }
        if !check_all_word_chars(self.db_name.as_str()) {
            return Err(String::from_str("数据库名只能包含字母、数字和下划线"));
        }
        match self.db_type {
            DatabaseType::MySQL => self.generate_mysql_sql(),
            DatabaseType::PostgreSQL => self.generate_postgres_sql(),
            DatabaseType::SQLite => self.generate_sqlite_sql(),
        }
    }

    fn generate_mysql_sql(&self) -> (r: Result<String, String>)
        ensures
            string_result(r) == Ok::<Seq<char>, Seq<char>>(mysql_create_db(*self)),
    {
        let mut sql = String::from_str("CREATE DATABASE `");
        sql.append(self.db_name.as_str());
        sql.append("`");
        push_clause(&mut sql, " CHARACTER SET ", self.charset.as_str(), "");
        push_clause(&mut sql, " COLLATE ", self.collation.as_str(), "");
        sql.append(";");
        proof {
            reveal_strlit("");
            assert(""@ =~= Seq::<char>::empty());
        }
        assert(sql@ =~= mysql_create_db(*self));
        Ok(sql)
    }

    fn generate_postgres_sql(&self) -> (r: Result<String, String>)
        ensures
            string_result(r) == Ok::<Seq<char>, Seq<char>>(postgres_create_db(*self)),
    {
        let mut sql = String::from_str("CREATE DATABASE \"");
        sql.append(self.db_name.as_str());
        sql.append("\"");
        push_clause(&mut sql, " ENCODING '", self.encoding.as_str(), "'");
        push_clause(&mut sql, " TEMPLATE ", self.template.as_str(), "");
        push_clause(&mut sql, " OWNER \"", self.owner.as_str(), "\"");
        sql.append(";");
        proof {
            reveal_strlit("");
            assert(""@ =~= Seq::<char>::empty());
        }
        assert(sql@ =~= postgres_create_db(*self));
        Ok(sql)
    }

    fn generate_sqlite_sql(&self) -> (r: Result<String, String>)
        requires
            self.db_name@.len() > 0,
        ensures
            string_result(r) == Ok::<Seq<char>, Seq<char>>(sqlite_create_db(*self)),
    {
        let mut out = String::from_str("SQLITE_CREATE:");
        if self.sqlite_path.as_str().is_empty() {
            out.append(self.db_name.as_str());
            out.append(".db");
        } else {
            out.append(self.sqlite_path.as_str());
        }
        assert(out@ =~= sqlite_create_db(*self));
        Ok(out)
    }
}

impl CreateDbDialog {
    /// One frame of the dialog's keys (call it when no text field has the
    /// keyboard). A hidden dialog does nothing; otherwise Escape or `q`
    /// cancels and closes; Enter or `y` builds the
    /// statement and, when the fields are valid, answers it and closes,
    /// else records the problem.
    pub fn handle_keys(input: &KeyInput, state: &mut CreateDbDialogState) -> (r: CreateDbDialogResult)
        ensures
            !old(state).show ==> r == CreateDbDialogResult::Idle && *final(state) == *old(state),
            old(state).show && closes(*input) ==> {
                &&& r == CreateDbDialogResult::Cancelled
                &&& !final(state).show
                &&& fields_cleared(*final(state))
                &&& final(state).db_type == old(state).db_type
            },
            old(state).show && !closes(*input) && dialog_action(*input) == DialogAction::Confirm ==> match create_db_sql(
                *old(state),
            ) {
                Ok(sql) => {
                    &&& r matches CreateDbDialogResult::Create(s) && s@ == sql
                    &&& !final(state).show
                    &&& fields_cleared(*final(state))
                    &&& final(state).db_type == old(state).db_type
                },
                Err(e) => {
                    &&& r == CreateDbDialogResult::Idle
                    &&& final(state).error matches Some(m) && m@ == e
                    &&& *final(state) == (CreateDbDialogState { error: final(state).error, ..*old(state) })
                },
            },
            old(state).show && !closes(*input) && dialog_action(*input) != DialogAction::Confirm ==> {
                &&& r == CreateDbDialogResult::Idle
                &&& *final(state) == *old(state)
            },
    {
        if !state.show {
            return CreateDbDialogResult::Idle;
        }
        if handle_close_keys(input) {
            state.close();
            return CreateDbDialogResult::Cancelled;
        }
        if let DialogAction::Confirm = handle_dialog_keys(input) {
            match state.generate_sql() {
                Ok(sql) => {
                    state.close();
                    return CreateDbDialogResult::Create(sql);
                },
                Err(e) => {
                    state.error = Some(e);
                },
            }
        }
        CreateDbDialogResult::Idle
    }
}

} // verus!
