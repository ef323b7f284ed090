//! The checks of the connection dialog.
use vstd::prelude::*;
use crate::database::{ConnectionConfig, DatabaseType};
use crate::text::{chars_of, utf8_len, utf8_len_exceeds};

verus! {

/// The connection dialog widget.
pub struct ConnectionDialog;

/// What checking a connection found: valid, or the problems in order.
pub struct ValidationResult {
    pub is_valid: bool,
    pub errors: Vec<String>,
}

impl ValidationResult {
    /// No problem yet.
    pub fn new() -> (r: Self)
        ensures
            r.is_valid,
            r.errors@.len() == 0,
    {
        ValidationResult { is_valid: true, errors: Vec::new() }
    }

    /// Records a problem.
    pub fn add_error(&mut self, error: String)
        ensures
            !final(self).is_valid,
            final(self).errors@ == old(self).errors@.push(error),
    {
        self.is_valid = false;
        self.errors.push(error);
    }
}

/// The problems of a connection's settings, in order. For SQLite, the
/// directory of the file is checked by the caller: `missing_dir` is the
/// directory as displayed when it does not exist.
pub open spec fn config_errors(c: ConnectionConfig, missing_dir: Option<Seq<char>>) -> Seq<Seq<char>> {
    let name_errors: Seq<Seq<char>> = if c.name@.len() == 0 {
        seq!["连接名称不能为空"@]
    } else if utf8_len(c.name@) > 64 {
        seq!["连接名称不能超过 64 个字符"@]
    } else {
        seq![]
    };
    let rest: Seq<Seq<char>> = match c.db_type {
        DatabaseType::SQLite => if c.database@.len() == 0 {
            seq!["数据库文件路径不能为空"@]
        } else {
            match missing_dir {
                Some(d) => seq!["目录不存在: "@ + d],
                None => seq![],
            }
        },
        _ => {
            let host: Seq<Seq<char>> = if c.host@.len() == 0 {
                seq!["主机地址不能为空"@]
            } else if c.host@.contains(' ') {
                seq!["主机地址不能包含空格"@]
            } else if utf8_len(c.host@) > 255 {
                seq!["主机地址过长"@]
            } else {
                seq![]
            };
            let port: Seq<Seq<char>> = if c.port == 0 {
                seq!["端口号不能为 0"@]
            } else {
                seq![]
            };
            let user: Seq<Seq<char>> = if utf8_len(c.username@) > 128 {
                seq!["用户名过长"@]
            } else {
                seq![]
            };
            host + port + user
        },
    };
    name_errors + rest
}

/// Settings pass exactly when the name is given and at most 64 bytes and,
/// for SQLite, a file path is given whose directory exists, or, for a
/// server, the host is given, has no space and is at most 255 bytes, the
/// port is not 0 and the user name is at most 128 bytes. Each field reports
/// at most one problem, so there are never more than four.
pub proof fn lemma_config_valid_exactly_when(c: ConnectionConfig, missing_dir: Option<Seq<char>>)
    ensures
        (config_errors(c, missing_dir).len() == 0) <==> {
            &&& c.name@.len() > 0
            &&& utf8_len(c.name@) <= 64
            &&& (c.db_type == DatabaseType::SQLite ==> c.database@.len() > 0 && missing_dir is None)
            &&& (c.db_type != DatabaseType::SQLite ==> {
                &&& c.host@.len() > 0
                &&& !c.host@.contains(' ')
                &&& utf8_len(c.host@) <= 255
                &&& c.port != 0
                &&& utf8_len(c.username@) <= 128
            })
        },
        config_errors(c, missing_dir).len() <= 4,
{
}

/// Whether `c` occurs in the string.
fn contains_char(s: &str, c: char) -> (r: bool)
    ensures
        r == s@.contains(c),
{
    let v = chars_of(s);
    let mut i: usize = 0;
    while i < v.len()
        invariant
            v@ == s@,
            i <= v@.len(),
            forall|j: int| 0 <= j < i ==> v@[j] != c,
        decreases v@.len() - i,
    {
        if v[i] == c {
            assert(s@[i as int] == c);
            return true;
        }
        i = i + 1;
    }
    false
}

/// Whether the UTF-8 encoding is longer than `limit` bytes.
fn longer_than(s: &str, limit: usize) -> (r: bool)
    requires
        limit < usize::MAX - 4,
    ensures
        r == (utf8_len(s@) > limit),
{
    let v = chars_of(s);
    utf8_len_exceeds(&v, limit)
}

fn push_error(out: &mut Vec<String>, e: &str)
    ensures
        crate::text::views(final(out)@) == crate::text::views(old(out)@).push(e@),
{
    let ghost before = out@;
    out.push(String::from_str(e));
    assert(crate::text::views(out@) =~= crate::text::views(before).push(e@));
}

/// Checks a connection's settings (see `config_errors`); the settings are
/// valid when there is no problem.
pub fn validate_config(config: &ConnectionConfig, missing_dir: Option<String>) -> (r: ValidationResult)
    ensures
        crate::text::views(r.errors@) == config_errors(*config, match missing_dir {
            Some(d) => Some(d@),
            None => None,
        }),
        r.is_valid == (r.errors@.len() == 0),
{
    let mut errors: Vec<String> = Vec::new();
    if config.name.as_str().is_empty() {
        push_error(&mut errors, "连接名称不能为空");
    } else if longer_than(config.name.as_str(), 64) {
        push_error(&mut errors, "连接名称不能超过 64 个字符");
    }
    let ghost first = crate::text::views(errors@);
    match config.db_type {
        DatabaseType::SQLite => {
            if config.database.as_str().is_empty() {
                push_error(&mut errors, "数据库文件路径不能为空");
            } else {
                match &missing_dir {
                    Some(d) => {
                        let mut m = String::from_str("目录不存在: ");
                        m.append(d.as_str());
                        let ghost before = errors@;
                        errors.push(m);
                        assert(crate::text::views(errors@) =~= crate::text::views(before).push(
                            m@,
                        ));
                    },
                    None => {},
                }
            }
        },
        _ => {
            if config.host.as_str().is_empty() {
                push_error(&mut errors, "主机地址不能为空");
            } else if contains_char(config.host.as_str(), ' ') {
                push_error(&mut errors, "主机地址不能包含空格");
            } else if longer_than(config.host.as_str(), 255) {
                push_error(&mut errors, "主机地址过长");
            }
            if config.port == 0 {
                push_error(&mut errors, "端口号不能为 0");
            }
            if longer_than(config.username.as_str(), 128) {
                push_error(&mut errors, "用户名过长");
            }
        },
    }
    assert(crate::text::views(errors@) =~= config_errors(*config, match missing_dir {
        Some(d) => Some(d@),
        None => None,
    }));
    let valid = errors.len() == 0;
    ValidationResult { is_valid: valid, errors }
}

} // verus!
