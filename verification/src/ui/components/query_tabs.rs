//! Query tabs: each tab holds its own SQL and result; the manager keeps at
//! least one tab open and one of them active.
use vstd::prelude::*;
use crate::database::QueryResult;
use crate::text::{
    char_is_whitespace, chars_of, concat2, contains_sub, decimal, find_sub, is_whitespace,
    lemma_utf8_len_take_step, occurs_at, push_chars, push_decimal, starts_with, starts_with_exec,
    str_eq, str_to_uppercase, to_uppercase, trim, trim_chars, trim_start, utf8_len,
    utf8_len_exceeds, char_width, char_width_exec,
};

verus! {

// ---------------------------------------------------------------------------
// Tab identifiers (the `uuid` crate)
// ---------------------------------------------------------------------------

/// A lower-case hexadecimal digit.
pub open spec fn lower_hex_digit(c: char) -> bool {
    ('0' <= c <= '9') || ('a' <= c <= 'f')
}

/// The text of a random (version 4) UUID in its hyphenated lower-case form:
/// 36 characters, hyphens at 8, 13, 18 and 23, hexadecimal digits elsewhere,
/// the version digit `4` at 14 and a variant digit among `8`, `9`, `a`, `b`
/// at 19.
pub open spec fn uuid_v4_text(s: Seq<char>) -> bool {
    &&& s.len() == 36
    &&& forall|i: int|
        0 <= i < 36 ==> if i == 8 || i == 13 || i == 18 || i == 23 {
            #[trigger] s[i] == '-'
        } else {
            lower_hex_digit(s[i])
        }
    &&& s[14] == '4'
    &&& (s[19] == '8' || s[19] == '9' || s[19] == 'a' || s[19] == 'b')
}

/// A fresh random identifier: `uuid::Uuid::new_v4()` formatted as text by
/// its `Display`, the hyphenated lower-case form. Only that shape is
/// claimed; the digits are random.
#[verifier::external_body]
fn new_tab_id() -> (r: String)
    ensures
        uuid_v4_text(r@),
{
    uuid::Uuid::new_v4().to_string()
}

// ---------------------------------------------------------------------------
// Titles
// ---------------------------------------------------------------------------

/// The first index at which `needle` occurs in `hay` (only meaningful when it occurs).
pub open spec fn first_index(hay: Seq<char>, needle: Seq<char>) -> int {
    choose|i: int|
        occurs_at(hay, needle, i) && forall|j: int| 0 <= j < i ==> !occurs_at(hay, needle, j)
}

/// The character index at which the UTF-8 encoding of `s` has consumed `b` bytes.
pub open spec fn char_index_of_byte(s: Seq<char>, b: int) -> int {
    choose|m: int| 0 <= m <= s.len() && utf8_len(s.take(m)) == b
}

/// A character that ends a table name in a query.
pub open spec fn ends_table_name(c: char) -> bool {
    char_is_whitespace(c) || c == ';' || c == ',' || c == ')'
}

/// The first index at or after `i` whose character ends a table name (or the length).
pub open spec fn table_name_end(s: Seq<char>, i: int) -> int
    decreases s.len() - i,
{
    if i >= s.len() {
        s.len() as int
    } else if ends_table_name(s[i]) {
        i
    } else {
        table_name_end(s, i + 1)
    }
}

/// The byte offset, in `sql`, just past the first `FROM` of its upper-cased trimmed form.
pub open spec fn from_end_byte(sql: Seq<char>) -> int {
    let up = str_to_uppercase(trim(sql));
    utf8_len(up.take(first_index(up, "FROM"@))) + 4int
}

/// Taking a title out of `sql` slices it where the first `FROM` of the
/// upper-cased trimmed text ends; that offset must fall between characters of `sql`.
pub open spec fn title_extractable(sql: Seq<char>) -> bool {
    let up = str_to_uppercase(trim(sql));
    contains_sub(up, "FROM"@) ==> exists|m: int|
        0 <= m <= sql.len() && utf8_len(sql.take(m)) == from_end_byte(sql)
}

/// The table named after the first `FROM`, when it is not empty and at most 20 bytes.
pub open spec fn title_table(sql: Seq<char>) -> Option<Seq<char>> {
    let up = str_to_uppercase(trim(sql));
    if !contains_sub(up, "FROM"@) {
        None
    } else {
        let after = trim_start(sql.skip(char_index_of_byte(sql, from_end_byte(sql))));
        let name = after.take(table_name_end(after, 0));
        if name.len() > 0 && utf8_len(name) <= 20 {
            Some(name)
        } else {
            None
        }
    }
}

/// The title of a query: `查询 <table>` when a table can be read, else by statement kind.
pub open spec fn sql_title(sql: Seq<char>) -> Seq<char> {
    let up = str_to_uppercase(trim(sql));
    match title_table(sql) {
        Some(name) => "查询 "@ + name,
        None => if starts_with(up, "SELECT"@) {
            "SELECT 查询"@
        } else if starts_with(up, "INSERT"@) {
            "INSERT 操作"@
        } else if starts_with(up, "UPDATE"@) {
            "UPDATE 操作"@
        } else if starts_with(up, "DELETE"@) {
            "DELETE 操作"@
        } else if starts_with(up, "CREATE"@) {
            "CREATE 操作"@
        } else if starts_with(up, "ALTER"@) {
            "ALTER 操作"@
        } else if starts_with(up, "DROP"@) {
            "DROP 操作"@
        } else {
            "新查询"@
        },
    }
}

/// Byte counts of prefixes grow strictly with the prefix.
proof fn lemma_utf8_prefix_strict(s: Seq<char>, a: int, b: int)
    requires
        0 <= a < b <= s.len(),
    ensures
        utf8_len(s.take(a)) < utf8_len(s.take(b)),
    decreases b - a,
{
    lemma_utf8_len_take_step(s, b - 1);
    if a < b - 1 {
        lemma_utf8_prefix_strict(s, a, b - 1);
    }
}

proof fn lemma_utf8_prefix_mono(s: Seq<char>, a: int, b: int)
    requires
        0 <= a <= b <= s.len(),
    ensures
        utf8_len(s.take(a)) <= utf8_len(s.take(b)),
{
    if a < b {
        lemma_utf8_prefix_strict(s, a, b);
    }
}

fn char_width_of(c: char) -> (w: i64)
    ensures
        w == char_width(c),
{
    let u = c as u32;
    if u <= 0x7F {
        1
    } else if u <= 0x7FF {
        2
    } else if u <= 0xFFFF {
        3
    } else {
        4
    }
}

/// The character index of `v` where its encoding has used as many bytes as
/// the first `k` characters of `up`, plus four.
fn char_index_after(v: &[char], up: &[char], k: usize) -> (m: usize)
    requires
        k <= up.len(),
        exists|m: int| 0 <= m <= v@.len() && utf8_len(v@.take(m)) == utf8_len(up@.take(k as int)) + 4,
    ensures
        m <= v@.len(),
        utf8_len(v@.take(m as int)) == utf8_len(up@.take(k as int)) + 4,
{
    let ghost target = utf8_len(up@.take(k as int)) + 4;
    let ghost mm = choose|m: int|
        0 <= m <= v@.len() && utf8_len(v@.take(m)) == utf8_len(up@.take(k as int)) + 4;
    let mut i: usize = 0;
    let mut j: usize = 0;
    let mut diff: i64 = 0;
    while i < k
        invariant
            k <= up.len(),
            target == utf8_len(up@.take(k as int)) + 4,
            0 <= mm <= v@.len(),
            utf8_len(v@.take(mm)) == target,
            i <= k,
            j <= v.len(),
            0 <= diff <= 3,
            diff == utf8_len(v@.take(j as int)) - utf8_len(up@.take(i as int)),
        decreases k - i,
    {
        proof {
            lemma_utf8_len_take_step(up@, i as int);
        }
        diff = diff - char_width_of(up[i]);
        i = i + 1;
        while diff < 0
            invariant
                k <= up.len(),
                target == utf8_len(up@.take(k as int)) + 4,
                0 <= mm <= v@.len(),
                utf8_len(v@.take(mm)) == target,
                1 <= i <= k,
                j <= v.len(),
                -4 <= diff <= 3,
                diff == utf8_len(v@.take(j as int)) - utf8_len(up@.take(i as int)),
            decreases v.len() - j,
        {
            proof {
                lemma_utf8_prefix_mono(up@, i as int, k as int);
                if j as int >= mm {
                    lemma_utf8_prefix_mono(v@, mm, j as int);
                }
            }
            proof {
                lemma_utf8_len_take_step(v@, j as int);
            }
            diff = diff + char_width_of(v[j]);
            j = j + 1;
        }
    }
    while diff < 4
        invariant
            k <= up.len(),
            i == k,
            target == utf8_len(up@.take(k as int)) + 4,
            0 <= mm <= v@.len(),
            utf8_len(v@.take(mm)) == target,
            j <= v.len(),
            0 <= diff <= 7,
            diff == utf8_len(v@.take(j as int)) - utf8_len(up@.take(i as int)),
            diff < 4 || (j > 0 && utf8_len(v@.take(j - 1)) < target),
        decreases v.len() - j,
    {
        proof {
            if j as int >= mm {
                lemma_utf8_prefix_mono(v@, mm, j as int);
            }
            lemma_utf8_len_take_step(v@, j as int);
        }
        diff = diff + char_width_of(v[j]);
        j = j + 1;
    }
    proof {
        if (j as int) < mm {
            lemma_utf8_prefix_strict(v@, j as int, mm);
        }
        if (j as int) > mm {
            lemma_utf8_prefix_mono(v@, mm, j - 1);
        }
    }
    j
}

/// Whether a title can be taken out of `sql`: the first `FROM` of its
/// upper-cased trimmed text, if any, must end at a character boundary of `sql`.
pub fn title_safe(sql: &str) -> (r: bool)
    ensures
        r == title_extractable(sql@),
{
    let sv = chars_of(sql);
    let tv = trim_chars(&sv);
    let ts = crate::text::string_from_chars(&tv);
    let ups = to_uppercase(ts.as_str());
    let up = chars_of(ups.as_str());
    let from = chars_of("FROM");
    let ghost upv = str_to_uppercase(trim(sql@));
    assert(up@ == upv);
    match find_sub(&up, &from) {
        None => true,
        Some(k) => {
            assert(first_index(upv, "FROM"@) == k as int) by {
                let c = first_index(upv, "FROM"@);
                assert(occurs_at(upv, "FROM"@, c));
                if c < k as int {
                } else if c > k as int {
                }
            }
            assert(contains_sub(upv, "FROM"@));
            let mut target: u128 = 4;
            let mut i: usize = 0;
            while i < k
                invariant
                    k <= up.len(),
                    i <= k,
                    target == utf8_len(up@.take(i as int)) + 4,
                    target <= 4 * i + 4,
                decreases k - i,
            {
                proof {
                    lemma_utf8_len_take_step(up@, i as int);
                }
                target = target + char_width_exec(up[i]) as u128;
                i = i + 1;
            }
            assert(target == from_end_byte(sql@));
            let mut used: u128 = 0;
            let mut j: usize = 0;
            while j < sv.len() && used < target
                invariant
                    j <= sv.len(),
                    sv@ == sql@,
                    used == utf8_len(sv@.take(j as int)),
                    used <= 4 * j,
                    target <= 4 * k + 4,
                    k <= up.len(),
                    forall|m: int| 0 <= m < j ==> utf8_len(#[trigger] sv@.take(m)) < target,
                decreases sv.len() - j,
            {
                proof {
                    lemma_utf8_len_take_step(sv@, j as int);
                }
                used = used + char_width_exec(sv[j]) as u128;
                j = j + 1;
            }
            if used == target {
                assert(utf8_len(sql@.take(j as int)) == from_end_byte(sql@));
                true
            } else {
                proof {
                    assert forall|m: int| 0 <= m <= sql@.len() implies utf8_len(sql@.take(m))
                        != from_end_byte(sql@) by {
                        if m > j as int {
                            lemma_utf8_prefix_strict(sql@, j as int, m);
                        }
                    }
                }
                false
            }
        },
    }
}

fn ends_table_name_exec(c: char) -> (r: bool)
    ensures
        r == ends_table_name(c),
{
    is_whitespace(c) || c == ';' || c == ',' || c == ')'
}

/// The title `extract_title` gives a query.
pub fn extract_title(sql: &str) -> (r: String)
    requires
        title_extractable(sql@),
    ensures
        r@ == sql_title(sql@),
{
    let sv = chars_of(sql);
    let tv = trim_chars(&sv);
    let ts = crate::text::string_from_chars(&tv);
    let ups = to_uppercase(ts.as_str());
    let up = chars_of(ups.as_str());
    let from = chars_of("FROM");
    let ghost upv = str_to_uppercase(trim(sql@));
    assert(up@ == upv);
    match find_sub(&up, &from) {
        Some(k) => {
            assert(first_index(upv, "FROM"@) == k as int) by {
                let c = first_index(upv, "FROM"@);
                assert(occurs_at(upv, "FROM"@, c));
                if c < k as int {
                } else if c > k as int {
                }
            }
            assert(contains_sub(upv, "FROM"@));
            let m = char_index_after(&sv, &up, k);
            assert(char_index_of_byte(sql@, from_end_byte(sql@)) == m as int) by {
                let c = char_index_of_byte(sql@, from_end_byte(sql@));
                if c < m as int {
                    lemma_utf8_prefix_strict(sql@, c, m as int);
                } else if c > m as int {
                    lemma_utf8_prefix_strict(sql@, m as int, c);
                }
            }
            let rest = crate::text::slice_chars(&sv, m, sv.len());
            assert(rest@ == sql@.skip(m as int));
            let after = crate::text::trim_start_chars(&rest);
            let mut te: usize = 0;
            while te < after.len() && !ends_table_name_exec(after[te])
                invariant
                    te <= after.len(),
                    table_name_end(after@, 0) == table_name_end(after@, te as int),
                decreases after.len() - te,
            {
                te = te + 1;
            }
            let name = crate::text::slice_chars(&after, 0, te);
            assert(name@ == after@.take(te as int));
            if name.len() > 0 && !utf8_len_exceeds(&name, 20) {
                let mut t = String::from_str("查询 ");
                push_chars(&mut t, &name);
                return t;
            }
        },
        None => {},
    }
    if starts_with_exec(&up, &chars_of("SELECT")) {
        String::from_str("SELECT 查询")
    } else if starts_with_exec(&up, &chars_of("INSERT")) {
        String::from_str("INSERT 操作")
    } else if starts_with_exec(&up, &chars_of("UPDATE")) {
        String::from_str("UPDATE 操作")
    } else if starts_with_exec(&up, &chars_of("DELETE")) {
        String::from_str("DELETE 操作")
    } else if starts_with_exec(&up, &chars_of("CREATE")) {
        String::from_str("CREATE 操作")
    } else if starts_with_exec(&up, &chars_of("ALTER")) {
        String::from_str("ALTER 操作")
    } else if starts_with_exec(&up, &chars_of("DROP")) {
        String::from_str("DROP 操作")
    } else {
        String::from_str("新查询")
    }
}


// ---------------------------------------------------------------------------
// A tab
// ---------------------------------------------------------------------------

/// One query tab.
#[derive(Clone)]
pub struct QueryTab {
    /// A random identifier, the text of a version 4 UUID.
    pub id: String,
    pub title: String,
    pub sql: String,
    pub result: Option<QueryResult>,
    pub executing: bool,
    pub last_message: Option<String>,
    pub query_time_ms: Option<u64>,
    /// Whether the SQL changed since it was saved.
    pub modified: bool,
    /// The table the tab shows, if any.
    pub table_name: Option<String>,
}

/// A fresh tab titled `title` with `sql`, neither executing nor holding a
/// result, identified by a random UUID.
pub open spec fn fresh_tab(t: QueryTab, title: Seq<char>, sql: Seq<char>) -> bool {
    &&& uuid_v4_text(t.id@)
    &&& t.title@ == title
    &&& t.sql@ == sql
    &&& t.result is None
    &&& !t.executing
    &&& t.last_message is None
    &&& t.query_time_ms is None
}

/// The view of an optional string.
pub open spec fn opt_str(o: Option<String>) -> Option<Seq<char>> {
    match o {
        Some(s) => Some(s@),
        None => None,
    }
}

impl QueryTab {
    /// An empty, unmodified tab titled `新查询`.
    pub fn new() -> (r: Self)
        ensures
            fresh_tab(r, "新查询"@, seq![]),
            !r.modified,
            r.table_name is None,
    {
        QueryTab {
            id: new_tab_id(),
            title: String::from_str("新查询"),
            sql: String::new(),
            result: None,
            executing: false,
            last_message: None,
            query_time_ms: None,
            modified: false,
            table_name: None,
        }
    }

    /// A modified tab holding `sql`, titled after it.
    pub fn from_sql(sql: &str) -> (r: Self)
        requires
            title_extractable(sql@),
        ensures
            fresh_tab(r, sql_title(sql@), sql@),
            r.modified,
            r.table_name is None,
    {
        let mut tab = QueryTab::new();
        tab.sql = String::from_str(sql);
        tab.title = extract_title(sql);
        tab.modified = true;
        tab
    }

    /// An unmodified tab for a table, titled with the table's name.
    pub fn from_table(table_name: &str, sql: &str) -> (r: Self)
        ensures
            fresh_tab(r, table_name@, sql@),
            !r.modified,
            opt_str(r.table_name) == Some(table_name@),
    {
        let mut tab = QueryTab::new();
        tab.sql = String::from_str(sql);
        tab.title = String::from_str(table_name);
        tab.table_name = Some(String::from_str(table_name));
        tab
    }

    /// Retitles a tab after its SQL, unless it belongs to a table.
    pub fn update_title(&mut self)
        requires
            old(self).table_name is None ==> title_extractable(old(self).sql@),
        ensures
            old(self).table_name is None ==> final(self).title@ == sql_title(old(self).sql@),
            old(self).table_name is Some ==> final(self).title == old(self).title,
            final(self).id == old(self).id,
            final(self).sql == old(self).sql,
            final(self).result == old(self).result,
            final(self).executing == old(self).executing,
            final(self).last_message == old(self).last_message,
            final(self).query_time_ms == old(self).query_time_ms,
            final(self).modified == old(self).modified,
            final(self).table_name == old(self).table_name,
    {
        if self.table_name.is_none() {
            self.title = extract_title(self.sql.as_str());
        }
    }

    /// The title.
    pub fn title(&self) -> (r: &str)
        ensures
            r@ == self.title@,
    {
        self.title.as_str()
    }
}

impl Default for QueryTab {
    fn default() -> (r: Self)
        ensures
            fresh_tab(r, "新查询"@, seq![]),
            !r.modified,
            r.table_name is None,
    {
        QueryTab::new()
    }
}

/// What the tab bar asks for in a frame.
pub struct TabBarActions {
    pub new_tab: bool,
    pub close_tab: Option<usize>,
    pub switch_to: Option<usize>,
    pub close_others: bool,
    pub close_right: bool,
}

impl Default for TabBarActions {
    fn default() -> (r: Self)
        ensures
            !r.new_tab && r.close_tab is None && r.switch_to is None && !r.close_others
                && !r.close_right,
    {
        TabBarActions {
            new_tab: false,
            close_tab: None,
            switch_to: None,
            close_others: false,
            close_right: false,
        }
    }
}

/// The tab bar widget.
pub struct QueryTabBar;

// ---------------------------------------------------------------------------
// The tab manager
// ---------------------------------------------------------------------------

/// The open tabs and which one is active.
pub struct QueryTabManager {
    pub tabs: Vec<QueryTab>,
    pub active_index: usize,
    pub max_tabs: usize,
    pub next_number: usize,
}

/// The tab after `a` among `n`, wrapping around.
pub open spec fn next_index(a: int, n: int) -> int {
    (a + 1) % n
}

/// The tab before `a` among `n`, wrapping around.
pub open spec fn prev_index(a: int, n: int) -> int {
    if a == 0 {
        n - 1
    } else {
        a - 1
    }
}

/// The first tab at or after `i` that shows table `t` (or the count).
pub open spec fn table_tab_from(tabs: Seq<QueryTab>, t: Seq<char>, i: int) -> int
    decreases tabs.len() - i,
{
    if i >= tabs.len() {
        tabs.len() as int
    } else if opt_str(tabs[i].table_name) == Some(t) {
        i
    } else {
        table_tab_from(tabs, t, i + 1)
    }
}

impl QueryTabManager {
    /// At least one tab, no more than the limit, and the active one exists.
    pub open spec fn wf(&self) -> bool {
        &&& 1 <= self.tabs@.len() <= self.max_tabs
        &&& self.active_index < self.tabs@.len()
    }

    /// The number the next new tab's title carries.
    pub open spec fn tab_counter(&self) -> usize {
        self.next_number
    }

    /// One tab, `查询 1`, active, with room for 20.
    pub fn new() -> (r: Self)
        ensures
            r.wf(),
            r.tabs@.len() == 1,
            r.active_index == 0,
            r.max_tabs == 20,
            fresh_tab(r.tabs@[0], "查询 1"@, seq![]),
            r.tabs@[0].table_name is None,
            !r.tabs@[0].modified,
            r.tab_counter() == 2,
    {
        let mut manager = QueryTabManager {
            tabs: Vec::new(),
            active_index: 0,
            max_tabs: 20,
            next_number: 1,
        };
        manager.new_tab();
        proof {
            reveal_strlit("查询 ");
            reveal_strlit("查询 1");
            assert(decimal(1) == seq!['1']);
            assert("查询 "@ + decimal(1) =~= "查询 1"@);
        }
        manager
    }

    /// Opens a blank tab titled `查询 <n>` and activates it; at the limit it
    /// only returns the active index.
    pub fn new_tab(&mut self) -> (r: usize)
        requires
            old(self).tab_counter() < usize::MAX,
        ensures
            old(self).tabs@.len() >= old(self).max_tabs ==> *final(self) == *old(self),
            old(self).tabs@.len() < old(self).max_tabs ==> {
                &&& final(self).tabs@.len() == old(self).tabs@.len() + 1
                &&& final(self).tabs@.take(old(self).tabs@.len() as int) == old(self).tabs@
                &&& fresh_tab(
                    final(self).tabs@.last(),
                    "查询 "@ + decimal(old(self).tab_counter() as nat),
                    seq![],
                )
                &&& final(self).tabs@.last().table_name is None
                &&& !final(self).tabs@.last().modified
                &&& final(self).active_index == old(self).tabs@.len()
                &&& final(self).tab_counter() == old(self).tab_counter() + 1
            },
            final(self).max_tabs == old(self).max_tabs,
            r == final(self).active_index,
            old(self).max_tabs >= 1 && (old(self).wf() || old(self).tabs@.len() == 0)
                ==> final(self).wf(),
    {
        if self.tabs.len() >= self.max_tabs {
            return self.active_index;
        }
        let mut tab = QueryTab::new();
        let mut title = String::from_str("查询 ");
        push_decimal(&mut title, self.next_number as u64);
        tab.title = title;
        self.next_number = self.next_number + 1;
        self.tabs.push(tab);
        self.active_index = self.tabs.len() - 1;
        assert(self.tabs@.take(self.tabs@.len() - 1) =~= old(self).tabs@);
        self.active_index
    }

    /// Opens a tab with `sql`, titled after it, and activates it; at the limit
    /// the active tab takes the SQL and is retitled instead.
    pub fn new_tab_with_sql(&mut self, sql: &str) -> (r: usize)
        requires
            title_extractable(sql@),
        ensures
            sql_tab_opened(*old(self), *final(self), sql@),
            r == final(self).active_index,
            old(self).wf() ==> final(self).wf(),
    {
        if self.tabs.len() >= self.max_tabs {
            if self.active_index < self.tabs.len() {
                let a = self.active_index;
                let mut tab = self.tabs.remove(a);
                tab.sql = String::from_str(sql);
                if tab.table_name.is_none() {
                    tab.title = extract_title(sql);
                }
                self.tabs.insert(a, tab);
                assert(self.tabs@ =~= old(self).tabs@.update(a as int, self.tabs@[a as int]));
            }
            return self.active_index;
        }
        let tab = QueryTab::from_sql(sql);
        self.tabs.push(tab);
        self.active_index = self.tabs.len() - 1;
        assert(self.tabs@.take(self.tabs@.len() - 1) =~= old(self).tabs@);
        self.active_index
    }

    /// Opens a tab with `sql` as `new_tab_with_sql` does when a title can be
    /// taken out of it; otherwise changes nothing and returns `None`.
    pub fn new_tab_with_sql_checked(&mut self, sql: &str) -> (r: Option<usize>)
        ensures
            !title_extractable(sql@) ==> r is None && *final(self) == *old(self),
            title_extractable(sql@) ==> {
                &&& sql_tab_opened(*old(self), *final(self), sql@)
                &&& r == Some(final(self).active_index)
            },
            old(self).wf() ==> final(self).wf(),
    {
        if title_safe(sql) {
            Some(self.new_tab_with_sql(sql))
        } else {
            None
        }
    }

    /// Activates the tab of a table when one exists; otherwise opens one
    /// (or, at the limit, turns the active tab into it).
    pub fn new_tab_for_table(&mut self, table_name: &str, sql: &str) -> (r: usize)
        ensures
            table_tab_opened(*old(self), *final(self), table_name@, sql@),
            r == final(self).active_index,
            old(self).wf() ==> final(self).wf(),
    {
        let mut i: usize = 0;
        while i < self.tabs.len()
            invariant
                *self == *old(self),
                i <= self.tabs@.len(),
                table_tab_from(self.tabs@, table_name@, 0) == table_tab_from(
                    self.tabs@,
                    table_name@,
                    i as int,
                ),
            decreases self.tabs@.len() - i,
        {
            let hit = match &self.tabs[i].table_name {
                Some(t) => str_eq(t.as_str(), table_name),
                None => false,
            };
            if hit {
                self.active_index = i;
                return i;
            }
            i = i + 1;
        }
        if self.tabs.len() >= self.max_tabs {
            if self.active_index < self.tabs.len() {
                let a = self.active_index;
                let mut tab = self.tabs.remove(a);
                tab.sql = String::from_str(sql);
                tab.table_name = Some(String::from_str(table_name));
                tab.title = String::from_str(table_name);
                self.tabs.insert(a, tab);
                assert(self.tabs@ =~= old(self).tabs@.update(a as int, self.tabs@[a as int]));
            }
            return self.active_index;
        }
        let tab = QueryTab::from_table(table_name, sql);
        self.tabs.push(tab);
        self.active_index = self.tabs.len() - 1;
        assert(self.tabs@.take(self.tabs@.len() - 1) =~= old(self).tabs@);
        self.active_index
    }

    /// Closes a tab; the last tab is never closed and the active index follows
    /// the tab it named (or moves to the new last tab).
    pub fn close_tab(&mut self, index: usize)
        ensures
            old(self).tabs@.len() <= 1 || index >= old(self).tabs@.len() ==> *final(self) == *old(self),
            old(self).tabs@.len() > 1 && index < old(self).tabs@.len() ==> {
                &&& final(self).tabs@ == old(self).tabs@.remove(index as int)
                &&& final(self).active_index == (if old(self).active_index >= final(self).tabs@.len() {
                    final(self).tabs@.len() - 1
                } else if old(self).active_index > index {
                    old(self).active_index - 1
                } else {
                    old(self).active_index as int
                })
                &&& final(self).max_tabs == old(self).max_tabs
                &&& final(self).tab_counter() == old(self).tab_counter()
            },
            old(self).wf() ==> final(self).wf(),
    {
        if self.tabs.len() <= 1 {
            return ;
        }
        if index < self.tabs.len() {
            self.tabs.remove(index);
            if self.active_index >= self.tabs.len() {
                self.active_index = self.tabs.len() - 1;
            } else if self.active_index > index {
                self.active_index = self.active_index - 1;
            }
        }
    }

    /// Closes the active tab (see `close_tab`).
    pub fn close_active_tab(&mut self)
        ensures
            old(self).tabs@.len() <= 1 || old(self).active_index >= old(self).tabs@.len()
                ==> *final(self) == *old(self),
            old(self).tabs@.len() > 1 && old(self).active_index < old(self).tabs@.len() ==> {
                &&& final(self).tabs@ == old(self).tabs@.remove(old(self).active_index as int)
                &&& final(self).active_index == (if old(self).active_index >= final(self).tabs@.len() {
                    final(self).tabs@.len() - 1
                } else {
                    old(self).active_index as int
                })
            },
            final(self).max_tabs == old(self).max_tabs,
            final(self).tab_counter() == old(self).tab_counter(),
            old(self).wf() ==> final(self).wf(),
    {
        let a = self.active_index;
        self.close_tab(a);
    }

    /// Keeps only the active tab.
    pub fn close_other_tabs(&mut self)
        ensures
            old(self).active_index < old(self).tabs@.len() ==> {
                &&& final(self).tabs@ == seq![old(self).tabs@[old(self).active_index as int]]
                &&& final(self).active_index == 0
            },
            old(self).active_index >= old(self).tabs@.len() ==> *final(self) == *old(self),
            final(self).max_tabs == old(self).max_tabs,
            final(self).tab_counter() == old(self).tab_counter(),
            old(self).wf() ==> final(self).wf(),
    {
        if self.active_index < self.tabs.len() {
            let tab = self.tabs.remove(self.active_index);
            self.tabs = vec![tab];
            self.active_index = 0;
        }
    }

    /// Closes every tab right of the active one.
    pub fn close_tabs_to_right(&mut self)
        requires
            old(self).tabs@.len() > 0,
        ensures
            old(self).active_index < old(self).tabs@.len() - 1 ==> final(self).tabs@ == old(self).tabs@.take(old(self).active_index + 1),
            old(self).active_index >= old(self).tabs@.len() - 1 ==> final(self).tabs == old(self).tabs,
            final(self).active_index == old(self).active_index,
            final(self).max_tabs == old(self).max_tabs,
            final(self).tab_counter() == old(self).tab_counter(),
            old(self).wf() ==> final(self).wf(),
    {
        if self.active_index < self.tabs.len() - 1 {
            self.tabs.truncate(self.active_index + 1);
        }
    }

    /// The active tab, if the index names one.
    pub fn get_active(&self) -> (r: Option<&QueryTab>)
        ensures
            self.active_index < self.tabs@.len() ==> r == Some(&self.tabs@[self.active_index as int]),
            self.active_index >= self.tabs@.len() ==> r is None,
    {
        if self.active_index < self.tabs.len() {
            Some(&self.tabs[self.active_index])
        } else {
            None
        }
    }

    /// The active tab for editing, if the index names one.
    pub fn get_active_mut(&mut self) -> (r: Option<&mut QueryTab>)
        ensures
            old(self).active_index < old(self).tabs@.len() ==> (r matches Some(t) && *t == old(self).tabs@[old(self).active_index as int] && final(self).tabs@ == old(self).tabs@.update(
                old(self).active_index as int,
                *final(t),
            )),
            old(self).active_index >= old(self).tabs@.len() ==> r is None && *final(self) == *old(self),
            final(self).active_index == old(self).active_index,
            final(self).max_tabs == old(self).max_tabs,
            final(self).tab_counter() == old(self).tab_counter(),
    {
        if self.active_index < self.tabs.len() {
            let a = self.active_index;
            Some(&mut self.tabs[a])
        } else {
            None
        }
    }

    /// Activates a tab when the index names one.
    pub fn set_active(&mut self, index: usize)
        ensures
            index < old(self).tabs@.len() ==> final(self).active_index == index,
            index >= old(self).tabs@.len() ==> final(self).active_index == old(self).active_index,
            final(self).tabs == old(self).tabs,
            final(self).max_tabs == old(self).max_tabs,
            final(self).tab_counter() == old(self).tab_counter(),
            old(self).wf() ==> final(self).wf(),
    {
        if index < self.tabs.len() {
            self.active_index = index;
        }
    }

    /// Activates the next tab, wrapping around.
    pub fn next_tab(&mut self)
        requires
            old(self).active_index < usize::MAX,
        ensures
            old(self).tabs@.len() > 0 ==> final(self).active_index == next_index(
                old(self).active_index as int,
                old(self).tabs@.len() as int,
            ),
            old(self).tabs@.len() == 0 ==> final(self).active_index == old(self).active_index,
            final(self).tabs == old(self).tabs,
            final(self).max_tabs == old(self).max_tabs,
            final(self).tab_counter() == old(self).tab_counter(),
            old(self).wf() ==> final(self).wf(),
    {
        if self.tabs.len() > 0 {
            self.active_index = (self.active_index + 1) % self.tabs.len();
        }
    }

    /// Activates the previous tab, wrapping around.
    pub fn prev_tab(&mut self)
        ensures
            old(self).tabs@.len() > 0 ==> final(self).active_index == prev_index(
                old(self).active_index as int,
                old(self).tabs@.len() as int,
            ),
            old(self).tabs@.len() == 0 ==> final(self).active_index == old(self).active_index,
            final(self).tabs == old(self).tabs,
            final(self).max_tabs == old(self).max_tabs,
            final(self).tab_counter() == old(self).tab_counter(),
            old(self).wf() ==> final(self).wf(),
    {
        if self.tabs.len() > 0 {
            self.active_index = if self.active_index == 0 {
                self.tabs.len() - 1
            } else {
                self.active_index - 1
            };
        }
    }

    /// Whether some tab is modified.
    pub fn has_unsaved_changes(&self) -> (r: bool)
        ensures
            r == exists|i: int| 0 <= i < self.tabs@.len() && (#[trigger] self.tabs@[i]).modified,
    {
        let mut i: usize = 0;
        while i < self.tabs.len()
            invariant
                i <= self.tabs@.len(),
                forall|j: int| 0 <= j < i ==> !(#[trigger] self.tabs@[j]).modified,
            decreases self.tabs@.len() - i,
        {
            if self.tabs[i].modified {
                return true;
            }
            i = i + 1;
        }
        false
    }

    /// The number of tabs.
    pub fn len(&self) -> (r: usize)
        ensures
            r == self.tabs@.len(),
    {
        self.tabs.len()
    }

    /// Whether there is no tab.
    pub fn is_empty(&self) -> (r: bool)
        ensures
            r == (self.tabs@.len() == 0),
    {
        self.tabs.len() == 0
    }

    /// The active index.
    pub fn active_index(&self) -> (r: usize)
        ensures
            r == self.active_index,
    {
        self.active_index
    }
}

/// What `new_tab_with_sql` does: open a modified tab holding `sql`, titled
/// after it, and activate it; at the limit the active tab takes the SQL and,
/// unless it belongs to a table, is retitled after it.
pub open spec fn sql_tab_opened(old_m: QueryTabManager, new_m: QueryTabManager, sql: Seq<char>) -> bool {
    &&& new_m.max_tabs == old_m.max_tabs
    &&& new_m.tab_counter() == old_m.tab_counter()
    &&& if old_m.tabs@.len() >= old_m.max_tabs {
        &&& new_m.tabs@.len() == old_m.tabs@.len()
        &&& new_m.active_index == old_m.active_index
        &&& (old_m.active_index < old_m.tabs@.len() ==> {
            let a = old_m.active_index as int;
            let t = new_m.tabs@[a];
            &&& t.sql@ == sql
            &&& (old_m.tabs@[a].table_name is None ==> t.title@ == sql_title(sql))
            &&& (old_m.tabs@[a].table_name is Some ==> t.title == old_m.tabs@[a].title)
            &&& t.table_name == old_m.tabs@[a].table_name
            &&& new_m.tabs@ == old_m.tabs@.update(a, t)
        })
        &&& (old_m.active_index >= old_m.tabs@.len() ==> new_m.tabs == old_m.tabs)
    } else {
        &&& new_m.tabs@.len() == old_m.tabs@.len() + 1
        &&& new_m.tabs@.take(old_m.tabs@.len() as int) == old_m.tabs@
        &&& fresh_tab(new_m.tabs@.last(), sql_title(sql), sql)
        &&& new_m.tabs@.last().modified
        &&& new_m.tabs@.last().table_name is None
        &&& new_m.active_index == old_m.tabs@.len()
    }
}

/// What `new_tab_for_table` does: activate the first tab of the table when
/// one exists; else open a fresh tab for it, or at the limit make the active
/// tab show it.
pub open spec fn table_tab_opened(
    old_m: QueryTabManager,
    new_m: QueryTabManager,
    t: Seq<char>,
    sql: Seq<char>,
) -> bool {
    let found = table_tab_from(old_m.tabs@, t, 0);
    &&& new_m.max_tabs == old_m.max_tabs
    &&& new_m.tab_counter() == old_m.tab_counter()
    &&& if found < old_m.tabs@.len() {
        &&& new_m.tabs == old_m.tabs
        &&& new_m.active_index == found
    } else if old_m.tabs@.len() >= old_m.max_tabs {
        &&& new_m.tabs@.len() == old_m.tabs@.len()
        &&& new_m.active_index == old_m.active_index
        &&& (old_m.active_index < old_m.tabs@.len() ==> {
            let a = old_m.active_index as int;
            let tab = new_m.tabs@[a];
            &&& tab.sql@ == sql
            &&& tab.title@ == t
            &&& opt_str(tab.table_name) == Some(t)
            &&& new_m.tabs@ == old_m.tabs@.update(a, tab)
        })
        &&& (old_m.active_index >= old_m.tabs@.len() ==> new_m.tabs == old_m.tabs)
    } else {
        &&& new_m.tabs@.len() == old_m.tabs@.len() + 1
        &&& new_m.tabs@.take(old_m.tabs@.len() as int) == old_m.tabs@
        &&& fresh_tab(new_m.tabs@.last(), t, sql)
        &&& opt_str(new_m.tabs@.last().table_name) == Some(t)
        &&& !new_m.tabs@.last().modified
        &&& new_m.active_index == old_m.tabs@.len()
    }
}

/// Stepping to the next tab and back (or back and then forward) returns to
/// the tab one started from.
pub proof fn lemma_next_prev_inverse(a: int, n: int)
    requires
        0 <= a < n,
    ensures
        prev_index(next_index(a, n), n) == a,
        next_index(prev_index(a, n), n) == a,
        0 <= next_index(a, n) < n,
        0 <= prev_index(a, n) < n,
{
    vstd::arithmetic::div_mod::lemma_mod_self_0(n);
    if a + 1 < n {
        vstd::arithmetic::div_mod::lemma_small_mod((a + 1) as nat, n as nat);
    }
    if a > 0 {
        vstd::arithmetic::div_mod::lemma_small_mod(a as nat, n as nat);
    }
}

/// Opening the tab of a table makes it the active tab, so opening it again
/// changes neither the tabs nor which one is active.
pub proof fn lemma_table_tab_open_idempotent(
    m1: QueryTabManager,
    m2: QueryTabManager,
    m3: QueryTabManager,
    t: Seq<char>,
    sql1: Seq<char>,
    sql2: Seq<char>,
)
    requires
        m1.wf(),
        table_tab_opened(m1, m2, t, sql1),
        table_tab_opened(m2, m3, t, sql2),
    ensures
        m3.tabs == m2.tabs,
        m3.active_index == m2.active_index,
        opt_str(m2.tabs@[m2.active_index as int].table_name) == Some(t),
{
    lemma_table_tab_from_scan(m1.tabs@, t, 0);
    let a = m2.active_index as int;
    let found = table_tab_from(m1.tabs@, t, 0);
    if found < m1.tabs@.len() {
        lemma_table_tab_from_exact(m2.tabs@, t, 0, a);
    } else if m1.tabs@.len() >= m1.max_tabs {
        assert forall|j: int| 0 <= j < a implies opt_str(#[trigger] m2.tabs@[j].table_name) != Some(
            t,
        ) by {
            assert(m2.tabs@[j] == m1.tabs@[j]);
        }
        lemma_table_tab_from_exact(m2.tabs@, t, 0, a);
    } else {
        assert(m2.tabs@.last() == m2.tabs@[a]);
        assert forall|j: int| 0 <= j < a implies opt_str(#[trigger] m2.tabs@[j].table_name) != Some(
            t,
        ) by {
            assert(m2.tabs@[j] == m2.tabs@.take(m1.tabs@.len() as int)[j]);
        }
        lemma_table_tab_from_exact(m2.tabs@, t, 0, a);
    }
}

/// The scan stops at a tab of the table, or at the end, and passes over
/// only tabs of other tables.
proof fn lemma_table_tab_from_scan(tabs: Seq<QueryTab>, t: Seq<char>, i: int)
    requires
        0 <= i <= tabs.len(),
    ensures
        i <= table_tab_from(tabs, t, i) <= tabs.len(),
        table_tab_from(tabs, t, i) < tabs.len() ==> opt_str(tabs[table_tab_from(tabs, t, i)].table_name)
            == Some(t),
        forall|j: int|
            i <= j < table_tab_from(tabs, t, i) ==> opt_str(#[trigger] tabs[j].table_name) != Some(t),
    decreases tabs.len() - i,
{
    if i < tabs.len() && opt_str(tabs[i].table_name) != Some(t) {
        lemma_table_tab_from_scan(tabs, t, i + 1);
    }
}

/// The scan from `i` finds `a` when `a` is the first tab of the table there.
proof fn lemma_table_tab_from_exact(tabs: Seq<QueryTab>, t: Seq<char>, i: int, a: int)
    requires
        0 <= i <= a < tabs.len(),
        opt_str(tabs[a].table_name) == Some(t),
        forall|j: int| i <= j < a ==> opt_str(#[trigger] tabs[j].table_name) != Some(t),
    ensures
        table_tab_from(tabs, t, i) == a,
    decreases a - i,
{
    if i < a {
        assert(opt_str(tabs[i].table_name) != Some(t));
        lemma_table_tab_from_exact(tabs, t, i + 1, a);
    }
}

} // verus!
