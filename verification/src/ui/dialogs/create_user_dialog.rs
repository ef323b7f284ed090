//! The create-user dialog: its fields, the privileges it offers and the
//! statements it produces for MySQL and PostgreSQL.
use vstd::prelude::*;
use crate::database::DatabaseType;
use crate::text::{all_word_chars, check_all_word_chars, chars_of, double_char, join, join_strings, push_doubled, starts_with, str_eq, utf8_len, utf8_len_exceeds, views};

use crate::ui::dialogs::keyboard::{closes, dialog_action, handle_close_keys, handle_dialog_keys, DialogAction};
use crate::ui::input::KeyInput;

verus! {

/// What the create-user dialog answered.
pub enum CreateUserDialogResult {
    /// Nothing yet.
    Idle,
    /// Create, with the statements to run in order.
    Create(Vec<String>),
    /// The user cancelled.
    Cancelled,
}

/// The create-user dialog widget.
pub struct CreateUserDialog;

/// A privilege that can be granted, and whether it is ticked.
#[derive(Debug, Clone, PartialEq)]
pub struct Privilege {
    pub name: &'static str,
    pub description: &'static str,
    pub selected: bool,
}

impl Privilege {
    fn new(name: &'static str, description: &'static str) -> (r: Self)
        ensures
            r.name@ == name@,
            r.description@ == description@,
            !r.selected,
    {
        Privilege { name, description, selected: false }
    }
}

/// The fields of the create-user dialog.
pub struct CreateUserDialogState {
    pub username: String,
    pub password: String,
    pub confirm_password: String,
    /// The host part of a MySQL account.
    pub host: String,
    /// The database to grant on (empty: grant nothing).
    pub grant_database: String,
    pub privileges: Vec<Privilege>,
    pub grant_all: bool,
    pub show: bool,
    pub db_type: DatabaseType,
    pub available_databases: Vec<String>,
    pub error: Option<String>,
}

/// Whether the form is back at its defaults (host `localhost`, grant all,
/// no privileges listed, no error).
pub open spec fn form_reset(s: CreateUserDialogState) -> bool {
    &&& s.username@.len() == 0
    &&& s.password@.len() == 0
    &&& s.confirm_password@.len() == 0
    &&& s.host@ == "localhost"@
    &&& s.grant_database@.len() == 0
    &&& s.privileges@.len() == 0
    &&& s.grant_all
    &&& s.error is None
}

/// The names and descriptions of the privileges, all unticked.
pub open spec fn privileges_are(ps: Seq<Privilege>, names: Seq<(Seq<char>, Seq<char>)>) -> bool {
    &&& ps.len() == names.len()
    &&& forall|i: int|
        0 <= i < ps.len() ==> (#[trigger] ps[i]).name@ == names[i].0 && ps[i].description@
            == names[i].1 && !ps[i].selected
}

/// The privileges offered for MySQL.
pub open spec fn mysql_privileges() -> Seq<(Seq<char>, Seq<char>)> {
    seq![
        ("SELECT"@, "查询数据"@),
        ("INSERT"@, "插入数据"@),
        ("UPDATE"@, "更新数据"@),
        ("DELETE"@, "删除数据"@),
        ("CREATE"@, "创建表/数据库"@),
        ("DROP"@, "删除表/数据库"@),
        ("ALTER"@, "修改表结构"@),
        ("INDEX"@, "创建/删除索引"@),
        ("REFERENCES"@, "创建外键"@),
        ("CREATE VIEW"@, "创建视图"@),
    ]
}

/// The privileges offered for PostgreSQL.
pub open spec fn postgres_privileges() -> Seq<(Seq<char>, Seq<char>)> {
    seq![
        ("SELECT"@, "查询数据"@),
        ("INSERT"@, "插入数据"@),
        ("UPDATE"@, "更新数据"@),
        ("DELETE"@, "删除数据"@),
        ("TRUNCATE"@, "清空表"@),
        ("REFERENCES"@, "创建外键"@),
        ("TRIGGER"@, "创建触发器"@),
        ("CREATE"@, "创建对象"@),
        ("CONNECT"@, "连接数据库"@),
        ("TEMPORARY"@, "创建临时表"@),
    ]
}

/// The names of the ticked privileges, in list order.
pub open spec fn selected_names(ps: Seq<Privilege>) -> Seq<Seq<char>>
    decreases ps.len(),
{
    if ps.len() == 0 {
        seq![]
    } else if ps.last().selected {
        selected_names(ps.drop_last()).push(ps.last().name@)
    } else {
        selected_names(ps.drop_last())
    }
}

/// What checking the form answers: the first problem, in this order — no
/// user name, a name with other than letters, digits and underscores, no
/// password, passwords that differ, a password under four bytes.
pub open spec fn user_validation(s: CreateUserDialogState) -> Result<(), Seq<char>> {
    if s.username@.len() == 0 {
        Err("用户名不能为空"@)
    } else if !all_word_chars(s.username@) {
        Err("用户名只能包含字母、数字和下划线"@)
    } else if s.password@.len() == 0 {
        Err("密码不能为空"@)
    } else if s.password@ != s.confirm_password@ {
        Err("两次输入的密码不一致"@)
    } else if utf8_len(s.password@) < 4 {
        Err("密码长度至少为 4 位"@)
    } else {
        Ok(())
    }
}

/// The MySQL statements: create the account, grant on the database when one
/// is named (all privileges, or the ticked ones, at least one), flush.
pub open spec fn mysql_user_sql(s: CreateUserDialogState) -> Result<Seq<Seq<char>>, Seq<char>> {
    let user = s.username@;
    let host = s.host@;
    let create = "CREATE USER '"@ + user + "'@'"@ + host + "' IDENTIFIED BY '"@ + double_char(
        s.password@,
        '\'',
    ) + "';"@;
    let flush = "FLUSH PRIVILEGES;"@;
    if s.grant_database@.len() == 0 {
        Ok(seq![create, flush])
    } else if !s.grant_all && selected_names(s.privileges@).len() == 0 {
        Err("请至少选择一个权限"@)
    } else {
        let privs = if s.grant_all {
            "ALL PRIVILEGES"@
        } else {
            join(selected_names(s.privileges@), ", "@)
        };
        let grant = "GRANT "@ + privs + " ON `"@ + s.grant_database@ + "`.* TO '"@ + user + "'@'"@
            + host + "';"@;
        Ok(seq![create, grant, flush])
    }
}

/// One PostgreSQL grant on the database.
pub open spec fn postgres_grant(privilege: Seq<char>, db: Seq<char>, user: Seq<char>) -> Seq<char> {
    "GRANT "@ + privilege + " ON DATABASE \""@ + db + "\" TO \""@ + user + "\";"@
}

/// The PostgreSQL statements: create the user, then grant on the database
/// when one is named (all privileges in one statement, or one statement per
/// ticked privilege, at least one).
pub open spec fn postgres_user_sql(s: CreateUserDialogState) -> Result<Seq<Seq<char>>, Seq<char>> {
    let user = s.username@;
    let db = s.grant_database@;
    let create = "CREATE USER \""@ + user + "\" WITH PASSWORD '"@ + double_char(s.password@, '\'')
        + "';"@;
    if db.len() == 0 {
        Ok(seq![create])
    } else if s.grant_all {
        Ok(seq![create, postgres_grant("ALL PRIVILEGES"@, db, user)])
    } else if selected_names(s.privileges@).len() == 0 {
        Err("请至少选择一个权限"@)
    } else {
        Ok(
            seq![create] + selected_names(s.privileges@).map_values(
                |p: Seq<char>| postgres_grant(p, db, user),
            ),
        )
    }
}

/// What generating the statements answers: the form's first problem, else
/// the engine's statements (SQLite has no users).
pub open spec fn user_sql(s: CreateUserDialogState) -> Result<Seq<Seq<char>>, Seq<char>> {
    match user_validation(s) {
        Err(e) => Err(e),
        Ok(()) => match s.db_type {
            DatabaseType::MySQL => mysql_user_sql(s),
            DatabaseType::PostgreSQL => postgres_user_sql(s),
            DatabaseType::SQLite => Err("SQLite 不支持用户管理"@),
        },
    }
}

/// Statements come only from a sound form: a user name of letters, digits
/// and underscores, a password of at least four bytes typed the same twice,
/// and an engine with users (not SQLite). Such a form always gives
/// statements unless it names a database, grants selectively and ticks no
/// privilege. The first statement creates the user; MySQL ends with
/// `FLUSH PRIVILEGES;`; PostgreSQL grants ticked privileges one statement
/// each.
pub proof fn lemma_user_statements(s: CreateUserDialogState)
    ensures
        user_sql(s) is Ok ==> {
            &&& s.username@.len() > 0
            &&& all_word_chars(s.username@)
            &&& s.password@.len() > 0
            &&& s.password@ == s.confirm_password@
            &&& utf8_len(s.password@) >= 4
            &&& s.db_type != DatabaseType::SQLite
        },
        ({
            &&& s.username@.len() > 0
            &&& all_word_chars(s.username@)
            &&& s.password@.len() > 0
            &&& s.password@ == s.confirm_password@
            &&& utf8_len(s.password@) >= 4
            &&& s.db_type != DatabaseType::SQLite
            &&& (s.grant_database@.len() == 0 || s.grant_all || selected_names(s.privileges@).len()
                > 0)
        }) ==> user_sql(s) is Ok,
        user_sql(s) matches Ok(stmts) ==> stmts.len() >= 1 && starts_with(stmts[0], "CREATE USER "@),
        user_sql(s) matches Ok(stmts) ==> (s.db_type == DatabaseType::MySQL ==> stmts.last()
            == "FLUSH PRIVILEGES;"@),
        user_sql(s) matches Ok(stmts) ==> (s.db_type == DatabaseType::PostgreSQL
            && s.grant_database@.len() > 0 && !s.grant_all ==> stmts.len() == 1 + selected_names(
            s.privileges@,
        ).len()),
{
    reveal_strlit("CREATE USER '");
    reveal_strlit("CREATE USER \"");
    reveal_strlit("CREATE USER ");
    if let Ok(stmts) = user_sql(s) {
        let c = stmts[0];
        let p = "CREATE USER "@;
        match s.db_type {
            DatabaseType::MySQL => {
                let user = s.username@;
                let host = s.host@;
                let pre = "CREATE USER '"@;
                assert(c == pre + user + "'@'"@ + host + "' IDENTIFIED BY '"@ + double_char(
                    s.password@,
                    '\'',
                ) + "';"@);
                assert(c.take(p.len() as int) =~= p);
            },
            DatabaseType::PostgreSQL => {
                let pre = "CREATE USER \""@;
                assert(c == pre + s.username@ + "\" WITH PASSWORD '"@ + double_char(
                    s.password@,
                    '\'',
                ) + "';"@);
                assert(c.take(p.len() as int) =~= p);
            },
            DatabaseType::SQLite => {},
        }
    }
}

/// The view of a result of string lists.
pub open spec fn statements_result(r: Result<Vec<String>, String>) -> Result<
    Seq<Seq<char>>,
    Seq<char>,
> {
    match r {
        Ok(v) => Ok(views(v@)),
        Err(e) => Err(e@),
    }
}

/// The view of a result whose error is a string.
pub open spec fn unit_result(r: Result<(), String>) -> Result<(), Seq<char>> {
    match r {
        Ok(()) => Ok(()),
        Err(e) => Err(e@),
    }
}

fn mysql_privilege_list() -> (r: Vec<Privilege>)
    ensures
        privileges_are(r@, mysql_privileges()),
{
    let r = vec![
        Privilege::new("SELECT", "查询数据"),
        Privilege::new("INSERT", "插入数据"),
        Privilege::new("UPDATE", "更新数据"),
        Privilege::new("DELETE", "删除数据"),
        Privilege::new("CREATE", "创建表/数据库"),
        Privilege::new("DROP", "删除表/数据库"),
        Privilege::new("ALTER", "修改表结构"),
        Privilege::new("INDEX", "创建/删除索引"),
        Privilege::new("REFERENCES", "创建外键"),
        Privilege::new("CREATE VIEW", "创建视图"),
    ];
    r
}

fn postgres_privilege_list() -> (r: Vec<Privilege>)
    ensures
        privileges_are(r@, postgres_privileges()),
{
    let r = vec![
        Privilege::new("SELECT", "查询数据"),
        Privilege::new("INSERT", "插入数据"),
        Privilege::new("UPDATE", "更新数据"),
        Privilege::new("DELETE", "删除数据"),
        Privilege::new("TRUNCATE", "清空表"),
        Privilege::new("REFERENCES", "创建外键"),
        Privilege::new("TRIGGER", "创建触发器"),
        Privilege::new("CREATE", "创建对象"),
        Privilege::new("CONNECT", "连接数据库"),
        Privilege::new("TEMPORARY", "创建临时表"),
    ];
    r
}

/// The names of the ticked privileges.
fn ticked_names(ps: &Vec<Privilege>) -> (r: Vec<String>)
    ensures
        views(r@) == selected_names(ps@),
{
    let mut r: Vec<String> = Vec::new();
    let mut i: usize = 0;
    while i < ps.len()
        invariant
            i <= ps@.len(),
            views(r@) == selected_names(ps@.take(i as int)),
        decreases ps@.len() - i,
    {
        assert(ps@.take(i + 1).drop_last() == ps@.take(i as int));
        if ps[i].selected {
            let ghost before = r@;
            r.push(String::from_str(ps[i].name));
            assert(views(r@) =~= views(before).push(ps@[i as int].name@));
        }
        i = i + 1;
    }
    assert(ps@.take(ps@.len() as int) == ps@);
    r
}

impl Default for CreateUserDialogState {
    fn default() -> (r: Self)
        ensures
            form_reset(r),
            !r.show,
            r.db_type == DatabaseType::MySQL,
            r.available_databases@.len() == 0,
    {
        CreateUserDialogState {
            username: String::new(),
            password: String::new(),
            confirm_password: String::new(),
            host: String::from_str("localhost"),
            grant_database: String::new(),
            privileges: Vec::new(),
            grant_all: true,
            show: false,
            db_type: DatabaseType::MySQL,
            available_databases: Vec::new(),
            error: None,
        }
    }
}

impl CreateUserDialogState {
    /// A closed dialog with the form at its defaults.
    pub fn new() -> (r: Self)
        ensures
            form_reset(r),
            !r.show,
            r.db_type == DatabaseType::MySQL,
            r.available_databases@.len() == 0,
    {
        CreateUserDialogState::default()
    }

    /// Opens the dialog for an engine and its databases, listing the
    /// privileges that engine offers (none for SQLite), all unticked.
    pub fn open(&mut self, db_type: DatabaseType, databases: Vec<String>)
        ensures
            final(self).show,
            final(self).db_type == db_type,
            final(self).available_databases == databases,
            final(self).username@.len() == 0,
            final(self).password@.len() == 0,
            final(self).confirm_password@.len() == 0,
            final(self).host@ == "localhost"@,
            final(self).grant_database@.len() == 0,
            final(self).grant_all,
            final(self).error is None,
            db_type == DatabaseType::MySQL ==> privileges_are(final(self).privileges@, mysql_privileges()),
            db_type == DatabaseType::PostgreSQL ==> privileges_are(
                final(self).privileges@,
                postgres_privileges(),
            ),
            db_type == DatabaseType::SQLite ==> final(self).privileges@.len() == 0,
    {
        self.reset();
        self.db_type = db_type;
        self.available_databases = databases;
        self.show = true;
        self.privileges = match db_type {
            DatabaseType::MySQL => mysql_privilege_list(),
            DatabaseType::PostgreSQL => postgres_privilege_list(),
            DatabaseType::SQLite => Vec::new(),
        };
    }

    /// Closes the dialog and resets the form.
    pub fn close(&mut self)
        ensures
            !final(self).show,
            form_reset(*final(self)),
            final(self).db_type == old(self).db_type,
            final(self).available_databases == old(self).available_databases,
    {
        self.show = false;
        self.reset();
    }

    fn reset(&mut self)
        ensures
            form_reset(*final(self)),
            final(self).show == old(self).show,
            final(self).db_type == old(self).db_type,
            final(self).available_databases == old(self).available_databases,
    {
        self.username = String::new();
        self.password = String::new();
        self.confirm_password = String::new();
        self.host = String::from_str("localhost");
        self.grant_database = String::new();
        self.privileges = Vec::new();
        self.grant_all = true;
        self.error = None;
    }

    /// Checks the form (see `user_validation`).
    fn validate(&self) -> (r: Result<(), String>)
        ensures
            unit_result(r) == user_validation(*self),
    {
        if self.username.as_str().is_empty() {
            return Err(String::from_str("用户名不能为空"));
        }
        if !check_all_word_chars(self.username.as_str()) {
            return Err(String::from_str("用户名只能包含字母、数字和下划线"));
        }
        if self.password.as_str().is_empty() {
            return Err(String::from_str("密码不能为空"));
        }
        if !str_eq(self.password.as_str(), self.confirm_password.as_str()) {
            return Err(String::from_str("两次输入的密码不一致"));
        }
        let pw = chars_of(self.password.as_str());
        if !utf8_len_exceeds(&pw, 3) {
            return Err(String::from_str("密码长度至少为 4 位"));
        }
        Ok(())
    }

    /// The statements that create the user (see `user_sql`).
    pub fn generate_sql(&self) -> (r: Result<Vec<String>, String>)
        ensures
            statements_result(r) == user_sql(*self),
    {
        match self.validate() {
            Err(e) => {
                return Err(e);
            },
            Ok(()) => {},
        }
        match self.db_type {
            DatabaseType::MySQL => self.generate_mysql_sql(),
            DatabaseType::PostgreSQL => self.generate_postgres_sql(),
            DatabaseType::SQLite => Err(String::from_str("SQLite 不支持用户管理")),
        }
    }

    fn generate_mysql_sql(&self) -> (r: Result<Vec<String>, String>)
        ensures
            statements_result(r) == mysql_user_sql(*self),
    {
        let mut create = String::from_str("CREATE USER '");
        create.append(self.username.as_str());
        create.append("'@'");
        create.append(self.host.as_str());
        create.append("' IDENTIFIED BY '");
        push_doubled(&mut create, self.password.as_str(), '\'');
        create.append("';");
        let ghost c = "CREATE USER '"@ + self.username@ + "'@'"@ + self.host@ + "' IDENTIFIED BY '"@
            + double_char(self.password@, '\'') + "';"@;
        assert(create@ =~= c);
        let flush = String::from_str("FLUSH PRIVILEGES;");
        if self.grant_database.as_str().is_empty() {
            let statements = vec![create, flush];
            assert(views(statements@) =~= seq![c, "FLUSH PRIVILEGES;"@]);
            return Ok(statements);
        }
        let privileges = if self.grant_all {
            String::from_str("ALL PRIVILEGES")
        } else {
            let selected = ticked_names(&self.privileges);
            if selected.len() == 0 {
                return Err(String::from_str("请至少选择一个权限"));
            }
            join_strings(&selected, ", ")
        };
        let mut grant = String::from_str("GRANT ");
        grant.append(privileges.as_str());
        grant.append(" ON `");
        grant.append(self.grant_database.as_str());
        grant.append("`.* TO '");
        grant.append(self.username.as_str());
        grant.append("'@'");
        grant.append(self.host.as_str());
        grant.append("';");
        let ghost g = "GRANT "@ + privileges@ + " ON `"@ + self.grant_database@ + "`.* TO '"@
            + self.username@ + "'@'"@ + self.host@ + "';"@;
        assert(grant@ =~= g);
        let statements = vec![create, grant, flush];
        assert(views(statements@) =~= seq![c, g, "FLUSH PRIVILEGES;"@]);
        Ok(statements)
    }

    fn generate_postgres_sql(&self) -> (r: Result<Vec<String>, String>)
        ensures
            statements_result(r) == postgres_user_sql(*self),
    {
        let mut create = String::from_str("CREATE USER \"");
        create.append(self.username.as_str());
        create.append("\" WITH PASSWORD '");
        push_doubled(&mut create, self.password.as_str(), '\'');
        create.append("';");
        let ghost user = self.username@;
        let ghost db = self.grant_database@;
        let ghost c = "CREATE USER \""@ + user + "\" WITH PASSWORD '"@ + double_char(
            self.password@,
            '\'',
        ) + "';"@;
        assert(create@ =~= c);
        if self.grant_database.as_str().is_empty() {
            let statements = vec![create];
            assert(views(statements@) =~= seq![c]);
            return Ok(statements);
        }
        if self.grant_all {
            let g = postgres_grant_exec(
                "ALL PRIVILEGES",
                self.grant_database.as_str(),
                self.username.as_str(),
            );
            let statements = vec![create, g];
            assert(views(statements@) =~= seq![c, postgres_grant("ALL PRIVILEGES"@, db, user)]);
            return Ok(statements);
        }
        let selected = ticked_names(&self.privileges);
        if selected.len() == 0 {
            return Err(String::from_str("请至少选择一个权限"));
        }
        let mut statements: Vec<String> = vec![create];
        assert(views(statements@) =~= seq![c] + views(selected@).take(0).map_values(
            |p: Seq<char>| postgres_grant(p, db, user),
        ));
        let mut i: usize = 0;
        while i < selected.len()
            invariant
                i <= selected@.len(),
                user == self.username@,
                db == self.grant_database@,
                views(statements@) == seq![c] + views(selected@).take(i as int).map_values(
                    |p: Seq<char>| postgres_grant(p, db, user),
                ),
            decreases selected@.len() - i,
        {
            let ghost before = statements@;
            let g = postgres_grant_exec(
                selected[i].as_str(),
                self.grant_database.as_str(),
                self.username.as_str(),
            );
            statements.push(g);
            assert(views(statements@) =~= views(before).push(g@));
            assert(views(selected@).take(i + 1) =~= views(selected@).take(i as int).push(
                selected@[i as int]@,
            ));
            i = i + 1;
            assert(views(statements@) =~= seq![c] + views(selected@).take(i as int).map_values(
                |p: Seq<char>| postgres_grant(p, db, user),
            ));
        }
        assert(views(selected@).take(selected@.len() as int) =~= views(selected@));
        Ok(statements)
    }
}

fn postgres_grant_exec(privilege: &str, db: &str, user: &str) -> (r: String)
    ensures
        r@ == postgres_grant(privilege@, db@, user@),
{
    let mut g = String::from_str("GRANT ");
    g.append(privilege);
    g.append(" ON DATABASE \"");
    g.append(db);
    g.append("\" TO \"");
    g.append(user);
    g.append("\";");
    g
}

impl CreateUserDialog {
    /// One frame of the dialog's keys (call it when no text field has the
    /// keyboard). A hidden dialog does nothing. SQLite has no users, so an
    /// open dialog for it is closed at once and answers nothing. Otherwise
    /// Escape or `q` cancels and closes; Enter or `y` builds the statements
    /// and, when the fields are valid, answers them and closes, else records
    /// the problem.
    pub fn handle_keys(input: &KeyInput, state: &mut CreateUserDialogState) -> (r: CreateUserDialogResult)
        ensures
            !old(state).show ==> r == CreateUserDialogResult::Idle && *final(state) == *old(state),
            old(state).show && old(state).db_type == DatabaseType::SQLite ==> {
                &&& r == CreateUserDialogResult::Idle
                &&& !final(state).show
                &&& form_reset(*final(state))
                &&& final(state).db_type == old(state).db_type
                &&& final(state).available_databases == old(state).available_databases
            },
            old(state).show && old(state).db_type != DatabaseType::SQLite && closes(*input) ==> {
                &&& r == CreateUserDialogResult::Cancelled
                &&& !final(state).show
                &&& form_reset(*final(state))
                &&& final(state).db_type == old(state).db_type
            },
            old(state).show && old(state).db_type != DatabaseType::SQLite && !closes(*input)
                && dialog_action(*input) == DialogAction::Confirm ==> match user_sql(*old(state)) {
                Ok(stmts) => {
                    &&& r matches CreateUserDialogResult::Create(v) && views(v@) == stmts
                    &&& !final(state).show
                    &&& form_reset(*final(state))
                    &&& final(state).db_type == old(state).db_type
                },
                Err(e) => {
                    &&& r == CreateUserDialogResult::Idle
                    &&& final(state).error matches Some(m) && m@ == e
                    &&& *final(state) == (CreateUserDialogState { error: final(state).error, ..*old(state) })
                },
            },
            old(state).show && old(state).db_type != DatabaseType::SQLite && !closes(*input)
                && dialog_action(*input) != DialogAction::Confirm ==> {
                &&& r == CreateUserDialogResult::Idle
                &&& *final(state) == *old(state)
            },
    {
        if !state.show {
            return CreateUserDialogResult::Idle;
        }
        if let DatabaseType::SQLite = state.db_type {
            state.close();
            return CreateUserDialogResult::Idle;
        }
        if handle_close_keys(input) {
            state.close();
            return CreateUserDialogResult::Cancelled;
        }
        if let DialogAction::Confirm = handle_dialog_keys(input) {
            match state.generate_sql() {
                Ok(stmts) => {
                    state.close();
                    return CreateUserDialogResult::Create(stmts);
                },
                Err(e) => {
                    state.error = Some(e);
                },
            }
        }
        CreateUserDialogResult::Idle
    }
}

} // verus!
