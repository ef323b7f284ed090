//! The SQL editor's keyboard: run, complete, clear, walk the history.
use vstd::prelude::*;
use crate::text::{
    chars_of, contains_exec, contains_sub, is_alphanumeric, is_word_char, skip_ws, skip_ws_exec, string_from_chars, utf8_len,
    utf8_len_exceeds, views,
};
use crate::ui::input::{Key, KeyInput};

verus! {

/// The SQL editor widget.
pub struct SqlEditor;

/// What the editor asks the application to do.
#[derive(Debug, Clone, Copy, PartialEq, Eq, Structural)]
pub struct SqlEditorActions {
    pub execute: bool,
    pub format: bool,
    pub clear: bool,
    /// Hand the keyboard back to the data grid.
    pub focus_to_grid: bool,
    /// The editor was clicked and wants the keyboard.
    pub request_focus: bool,
}

impl Default for SqlEditorActions {
    fn default() -> (r: Self)
        ensures
            !r.execute && !r.format && !r.clear && !r.focus_to_grid && !r.request_focus,
    {
        SqlEditorActions {
            execute: false,
            format: false,
            clear: false,
            focus_to_grid: false,
            request_focus: false,
        }
    }
}

/// Where the word being typed at the end of `s` starts: the start of the
/// trailing run of letters, digits and underscores.
pub open spec fn word_start(s: Seq<char>) -> int
    decreases s.len(),
{
    if s.len() > 0 && is_word_char(s.last()) {
        word_start(s.drop_last())
    } else {
        s.len() as int
    }
}

/// The word being typed at the end of `s`.
pub open spec fn current_word(s: Seq<char>) -> Seq<char> {
    s.subrange(word_start(s), s.len() as int)
}

/// `s` with the word being typed replaced by the completion and a space.
pub open spec fn completed(s: Seq<char>, insert: Seq<char>) -> Seq<char> {
    s.take(word_start(s)) + insert + seq![' ']
}

proof fn lemma_word_start_bounds(s: Seq<char>)
    ensures
        0 <= word_start(s) <= s.len(),
    decreases s.len(),
{
    if s.len() > 0 && is_word_char(s.last()) {
        lemma_word_start_bounds(s.drop_last());
    }
}

/// The word being typed is the longest run of letters, digits and
/// underscores at the end of the text: the text is what comes before it
/// followed by it, every character of it is a word character, and the
/// character just before it (if any) is not. Completing replaces exactly
/// that word by the completion and a space.
pub proof fn lemma_current_word_is_trailing_run(s: Seq<char>, insert: Seq<char>)
    ensures
        0 <= word_start(s) <= s.len(),
        s == s.take(word_start(s)) + current_word(s),
        forall|k: int| 0 <= k < current_word(s).len() ==> is_word_char(#[trigger] current_word(s)[k]),
        word_start(s) > 0 ==> !is_word_char(s[word_start(s) - 1]),
        completed(s, insert) == s.take(word_start(s)) + insert + seq![' '],
    decreases s.len(),
{
    lemma_word_start_bounds(s);
    assert(s =~= s.take(word_start(s)) + current_word(s));
    if s.len() > 0 && is_word_char(s.last()) {
        let t = s.drop_last();
        lemma_current_word_is_trailing_run(t, insert);
        assert forall|k: int| 0 <= k < current_word(s).len() implies is_word_char(
            #[trigger] current_word(s)[k],
        ) by {
            if k < current_word(t).len() {
                assert(current_word(s)[k] == current_word(t)[k]);
            } else {
                assert(current_word(s)[k] == s.last());
            }
        }
        if word_start(s) > 0 {
            assert(s[word_start(s) - 1] == t[word_start(t) - 1]);
        }
    }
}

/// Where the trailing word of `v` starts.
fn word_start_exec(v: &Vec<char>) -> (k: usize)
    ensures
        k == word_start(v@),
{
    let mut k: usize = v.len();
    assert(v@.take(k as int) =~= v@);
    while k > 0 && (is_alphanumeric(v[k - 1]) || v[k - 1] == '_')
        invariant
            k <= v@.len(),
            word_start(v@) == word_start(v@.take(k as int)),
        decreases k,
    {
        assert(v@.take(k as int).drop_last() =~= v@.take(k - 1));
        k = k - 1;
    }
    assert(v@.take(k as int).len() > 0 ==> v@.take(k as int).last() == v@[k - 1]);
    k
}

/// The word being typed at the end of `text`.
pub fn get_current_word(text: &str) -> (r: String)
    ensures
        r@ == current_word(text@),
{
    let v = chars_of(text);
    let k = word_start_exec(&v);
    proof {
        lemma_word_start_bounds(v@);
    }
    let mut w: Vec<char> = Vec::new();
    let mut i = k;
    while i < v.len()
        invariant
            k <= i <= v@.len(),
            w@ == v@.subrange(k as int, i as int),
        decreases v@.len() - i,
    {
        w.push(v[i]);
        i = i + 1;
        assert(w@ =~= v@.subrange(k as int, i as int));
    }
    string_from_chars(&w)
}

/// Replaces the word being typed with a completion and a space.
pub fn apply_completion(text: &mut String, insert_text: &str)
    ensures
        final(text)@ == completed(old(text)@, insert_text@),
{
    let v = chars_of(text.as_str());
    let k = word_start_exec(&v);
    proof {
        lemma_word_start_bounds(v@);
    }
    let mut w: Vec<char> = Vec::new();
    let mut i: usize = 0;
    while i < k
        invariant
            i <= k <= v@.len(),
            w@ == v@.take(i as int),
        decreases k - i,
    {
        w.push(v[i]);
        i = i + 1;
        assert(w@ =~= v@.take(i as int));
    }
    let mut s = string_from_chars(&w);
    s.append(insert_text);
    s.append(" ");
    proof {
        reveal_strlit(" ");
        assert(" "@ =~= seq![' ']);
    }
    *text = s;
}

/// Whether `s` is empty once trimmed.
pub open spec fn is_blank(s: Seq<char>) -> bool {
    skip_ws(s, 0) >= s.len()
}

/// `s` without its trailing line breaks.
pub open spec fn without_trailing_newlines(s: Seq<char>) -> Seq<char>
    decreases s.len(),
{
    if s.len() > 0 && s.last() == '\n' {
        without_trailing_newlines(s.drop_last())
    } else {
        s
    }
}

/// The model of the editor between frames.
pub struct EditorView {
    pub text: Seq<char>,
    pub history_index: Option<usize>,
    pub show_autocomplete: bool,
    pub selected_completion: usize,
    pub actions: SqlEditorActions,
}

/// Enter (without Ctrl or Shift) on a non-blank query runs it, trailing line
/// breaks removed.
pub open spec fn enter_step(e: EditorView, i: KeyInput) -> EditorView {
    if i.has(Key::Enter) && !i.modifiers.ctrl && !i.modifiers.shift && !is_blank(e.text) {
        EditorView {
            text: without_trailing_newlines(e.text),
            show_autocomplete: false,
            actions: SqlEditorActions { execute: true, ..e.actions },
            ..e
        }
    } else {
        e
    }
}

/// Ctrl+Space opens the completion menu on its first entry; in the open
/// menu (with completions) ↓/↑ move, Tab applies the entry and closes,
/// Escape closes; with no menu, Escape hands the keyboard to the grid.
pub open spec fn completion_step(e: EditorView, i: KeyInput, comps: Seq<Seq<char>>) -> EditorView {
    let e1 = if i.modifiers.ctrl && i.has(Key::Space) {
        EditorView { show_autocomplete: true, selected_completion: 0, ..e }
    } else {
        e
    };
    if e1.show_autocomplete && comps.len() > 0 {
        let last = (comps.len() - 1) as int;
        let e2 = if i.has(Key::ArrowDown) {
            EditorView {
                selected_completion: (if e1.selected_completion + 1 <= last {
                    e1.selected_completion + 1
                } else {
                    last
                }) as usize,
                ..e1
            }
        } else {
            e1
        };
        let e3 = if i.has(Key::ArrowUp) {
            EditorView {
                selected_completion: (if e2.selected_completion >= 1 {
                    e2.selected_completion - 1
                } else {
                    0
                }) as usize,
                ..e2
            }
        } else {
            e2
        };
        let e4 = if i.has(Key::Tab) && e3.selected_completion < comps.len() {
            EditorView {
                text: completed(e3.text, comps[e3.selected_completion as int]),
                show_autocomplete: false,
                ..e3
            }
        } else {
            e3
        };
        if i.has(Key::Escape) {
            EditorView { show_autocomplete: false, ..e4 }
        } else {
            e4
        }
    } else if i.has(Key::Escape) {
        EditorView { actions: SqlEditorActions { focus_to_grid: true, ..e1.actions }, ..e1 }
    } else {
        e1
    }
}

/// F5 on a non-blank query runs it; Ctrl+L asks to clear the editor.
pub open spec fn run_clear_step(e: EditorView, i: KeyInput) -> EditorView {
    let e1 = if i.has(Key::F5) && !is_blank(e.text) {
        EditorView {
            show_autocomplete: false,
            actions: SqlEditorActions { execute: true, ..e.actions },
            ..e
        }
    } else {
        e
    };
    if i.modifiers.ctrl && i.has(Key::L) {
        EditorView {
            show_autocomplete: false,
            actions: SqlEditorActions { clear: true, ..e1.actions },
            ..e1
        }
    } else {
        e1
    }
}

/// Shift+↑ steps back through the history (the most recent entry first,
/// stopping at the oldest) and loads the entry; Shift+↓ steps forward and
/// empties the editor past the most recent entry. Only without a menu.
pub open spec fn history_step(e: EditorView, i: KeyInput, history: Seq<Seq<char>>) -> EditorView {
    if i.modifiers.shift && !e.show_autocomplete {
        let e1 = if i.has(Key::ArrowUp) && history.len() > 0 {
            let idx: usize = match e.history_index {
                None => 0,
                Some(k) => if k + 1 < history.len() {
                    (k + 1) as usize
                } else {
                    k
                },
            };
            EditorView { history_index: Some(idx), text: history[idx as int], ..e }
        } else {
            e
        };
        if i.has(Key::ArrowDown) {
            match e1.history_index {
                Some(k) => if k == 0 {
                    EditorView { history_index: None, text: seq![], ..e1 }
                } else {
                    EditorView {
                        history_index: Some((k - 1) as usize),
                        text: history[k - 1],
                        ..e1
                    }
                },
                None => e1,
            }
        } else {
            e1
        }
    } else {
        e
    }
}

/// Stepping back through the history with Shift+↑ and then forward with
/// Shift+↓ returns to the entry one started from, with its text loaded.
pub proof fn lemma_history_back_then_forward(
    e: EditorView,
    up: KeyInput,
    down: KeyInput,
    history: Seq<Seq<char>>,
    k: usize,
)
    requires
        e.history_index == Some(k),
        k + 1 < history.len(),
        history.len() <= usize::MAX,
        !e.show_autocomplete,
        up.pressed@ == seq![Key::ArrowUp],
        down.pressed@ == seq![Key::ArrowDown],
        up.modifiers.shift,
        down.modifiers.shift,
    ensures
        history_step(history_step(e, up, history), down, history).history_index == Some(k),
        history_step(history_step(e, up, history), down, history).text == history[k as int],
{
    assert(up.pressed@[0] == Key::ArrowUp);
    assert(down.pressed@[0] == Key::ArrowDown);
    assert(!up.pressed@.contains(Key::ArrowDown)) by {
        if up.pressed@.contains(Key::ArrowDown) {
            let j = choose|j: int| 0 <= j < up.pressed@.len() && up.pressed@[j] == Key::ArrowDown;
            assert(up.pressed@[j] == Key::ArrowUp);
        }
    }
    assert(!down.pressed@.contains(Key::ArrowUp)) by {
        if down.pressed@.contains(Key::ArrowUp) {
            let j = choose|j: int| 0 <= j < down.pressed@.len() && down.pressed@[j] == Key::ArrowUp;
            assert(down.pressed@[j] == Key::ArrowDown);
        }
    }
    assert(up.has(Key::ArrowUp));
    assert(down.has(Key::ArrowDown));
}

/// One frame of the editor's keys, the steps in order.
pub open spec fn editor_step(
    e: EditorView,
    i: KeyInput,
    history: Seq<Seq<char>>,
    comps: Seq<Seq<char>>,
) -> EditorView {
    history_step(run_clear_step(completion_step(enter_step(e, i), i, comps), i), i, history)
}

/// The model of the editor's parts.
pub open spec fn editor_view(
    text: String,
    history_index: Option<usize>,
    show: bool,
    selected: usize,
    actions: SqlEditorActions,
) -> EditorView {
    EditorView {
        text: text@,
        history_index,
        show_autocomplete: show,
        selected_completion: selected,
        actions,
    }
}

/// Whether the text is empty once trimmed.
fn blank_exec(text: &str) -> (r: bool)
    ensures
        r == is_blank(text@),
{
    let v = chars_of(text);
    skip_ws_exec(&v, 0) >= v.len()
}

/// The text without its trailing line breaks.
fn strip_newlines(text: &str) -> (r: String)
    ensures
        r@ == without_trailing_newlines(text@),
{
    let v = chars_of(text);
    let mut k: usize = v.len();
    assert(v@.take(k as int) =~= v@);
    while k > 0 && v[k - 1] == '\n'
        invariant
            k <= v@.len(),
            without_trailing_newlines(v@) == without_trailing_newlines(v@.take(k as int)),
        decreases k,
    {
        assert(v@.take(k as int).drop_last() =~= v@.take(k - 1));
        k = k - 1;
    }
    let mut w: Vec<char> = Vec::new();
    let mut i: usize = 0;
    while i < k
        invariant
            i <= k <= v@.len(),
            w@ == v@.take(i as int),
        decreases k - i,
    {
        w.push(v[i]);
        i = i + 1;
        assert(w@ =~= v@.take(i as int));
    }
    string_from_chars(&w)
}

fn enter_keys(
    input: &KeyInput,
    sql_input: &mut String,
    history_index: &Option<usize>,
    actions: &mut SqlEditorActions,
    show_autocomplete: &mut bool,
    selected_completion: &usize,
)
    ensures
        editor_view(*final(sql_input), *history_index, *final(show_autocomplete), *selected_completion, *final(actions))
            == enter_step(
            editor_view(*old(sql_input), *history_index, *old(show_autocomplete), *selected_completion, *old(actions)),
            *input,
        ),
{
    let m = input.modifiers;
    if input.key_pressed(Key::Enter) && !m.ctrl && !m.shift && !blank_exec(sql_input.as_str()) {
        *sql_input = strip_newlines(sql_input.as_str());
        actions.execute = true;
        *show_autocomplete = false;
    }
}

fn completion_keys(
    input: &KeyInput,
    sql_input: &mut String,
    history_index: &Option<usize>,
    actions: &mut SqlEditorActions,
    completions: &[String],
    show_autocomplete: &mut bool,
    selected_completion: &mut usize,
)
    requires
        *old(selected_completion) < usize::MAX,
    ensures
        editor_view(*final(sql_input), *history_index, *final(show_autocomplete), *final(selected_completion), *final(actions))
            == completion_step(
            editor_view(*old(sql_input), *history_index, *old(show_autocomplete), *old(selected_completion), *old(actions)),
            *input,
            views(completions@),
        ),
{
    let m = input.modifiers;
    if m.ctrl && input.key_pressed(Key::Space) {
        *show_autocomplete = true;
        *selected_completion = 0;
    }
    if *show_autocomplete && completions.len() > 0 {
        if input.key_pressed(Key::ArrowDown) {
            *selected_completion = if *selected_completion + 1 <= completions.len() - 1 {
                *selected_completion + 1
            } else {
                completions.len() - 1
            };
        }
        if input.key_pressed(Key::ArrowUp) {
            *selected_completion = if *selected_completion >= 1 {
                *selected_completion - 1
            } else {
                0
            };
        }
        if input.key_pressed(Key::Tab) && *selected_completion < completions.len() {
            apply_completion(sql_input, completions[*selected_completion].as_str());
            *show_autocomplete = false;
        }
        if input.key_pressed(Key::Escape) {
            *show_autocomplete = false;
        }
    } else if input.key_pressed(Key::Escape) {
        actions.focus_to_grid = true;
    }
}

fn run_clear_keys(
    input: &KeyInput,
    sql_input: &String,
    history_index: &Option<usize>,
    actions: &mut SqlEditorActions,
    show_autocomplete: &mut bool,
    selected_completion: &usize,
)
    ensures
        editor_view(*sql_input, *history_index, *final(show_autocomplete), *selected_completion, *final(actions))
            == run_clear_step(
            editor_view(*sql_input, *history_index, *old(show_autocomplete), *selected_completion, *old(actions)),
            *input,
        ),
{
    if input.key_pressed(Key::F5) && !blank_exec(sql_input.as_str()) {
        actions.execute = true;
        *show_autocomplete = false;
    }
    if input.modifiers.ctrl && input.key_pressed(Key::L) {
        actions.clear = true;
        *show_autocomplete = false;
    }
}

fn history_keys(
    input: &KeyInput,
    sql_input: &mut String,
    command_history: &[String],
    history_index: &mut Option<usize>,
    actions: &SqlEditorActions,
    show_autocomplete: &bool,
    selected_completion: &usize,
)
    requires
        *old(history_index) matches Some(k) ==> k < command_history@.len(),
    ensures
        editor_view(*final(sql_input), *final(history_index), *show_autocomplete, *selected_completion, *actions)
            == history_step(
            editor_view(*old(sql_input), *old(history_index), *show_autocomplete, *selected_completion, *actions),
            *input,
            views(command_history@),
        ),
{
    if input.modifiers.shift && !*show_autocomplete {
        if input.key_pressed(Key::ArrowUp) && command_history.len() > 0 {
            let idx: usize = match *history_index {
                None => 0,
                Some(k) => if k + 1 < command_history.len() {
                    k + 1
                } else {
                    k
                },
            };
            *history_index = Some(idx);
            *sql_input = command_history[idx].clone();
        }
        if input.key_pressed(Key::ArrowDown) {
            match *history_index {
                Some(k) => {
                    if k == 0 {
                        *history_index = None;
                        *sql_input = String::new();
                    } else {
                        *history_index = Some(k - 1);
                        *sql_input = command_history[k - 1].clone();
                    }
                },
                None => {},
            }
        }
    }
}

/// A status message reads as a failure when it mentions 错误, Error, 失败 or
/// failed.
pub open spec fn is_error_message(msg: Seq<char>) -> bool {
    contains_sub(msg, "错误"@) || contains_sub(msg, "Error"@) || contains_sub(msg, "失败"@)
        || contains_sub(msg, "failed"@)
}

impl SqlEditor {
    /// Whether the status bar shows a message as a failure (`[X]`) rather
    /// than a success (`[OK]`); see `is_error_message`.
    pub fn status_is_error(msg: &str) -> (r: bool)
        ensures
            r == is_error_message(msg@),
    {
        let v = chars_of(msg);
        let a = chars_of("错误");
        let b = chars_of("Error");
        let c = chars_of("失败");
        let d = chars_of("failed");
        contains_exec(&v, &a) || contains_exec(&v, &b) || contains_exec(&v, &c) || contains_exec(&v, &d)
    }
}

impl SqlEditor {
    /// One frame of the editor's keys (see `editor_step`). `completions` are
    /// the insert texts offered for the text as it was at the frame's start.
    pub fn handle_shortcuts(
        input: &KeyInput,
        sql_input: &mut String,
        command_history: &[String],
        history_index: &mut Option<usize>,
        actions: &mut SqlEditorActions,
        completions: &[String],
        show_autocomplete: &mut bool,
        selected_completion: &mut usize,
    )
        requires
            *old(selected_completion) < usize::MAX,
            *old(history_index) matches Some(k) ==> k < command_history@.len(),
        ensures
            editor_view(
                *final(sql_input),
                *final(history_index),
                *final(show_autocomplete),
                *final(selected_completion),
                *final(actions),
            ) == editor_step(
                editor_view(
                    *old(sql_input),
                    *old(history_index),
                    *old(show_autocomplete),
                    *old(selected_completion),
                    *old(actions),
                ),
                *input,
                views(command_history@),
                views(completions@),
            ),
    {
        enter_keys(input, sql_input, history_index, actions, show_autocomplete, selected_completion);
        completion_keys(
            input,
            sql_input,
            history_index,
            actions,
            completions,
            show_autocomplete,
            selected_completion,
        );
        run_clear_keys(input, sql_input, history_index, actions, show_autocomplete, selected_completion);
        history_keys(
            input,
            sql_input,
            command_history,
            history_index,
            actions,
            show_autocomplete,
            selected_completion,
        );
    }
}

/// The text with each line break turned into a space.
pub open spec fn newlines_to_spaces(s: Seq<char>) -> Seq<char> {
    s.map_values(|c: char| if c == '\n' { ' ' } else { c })
}

/// A statement in the history list: over 60 bytes, its first 60 characters
/// and `...`; otherwise the whole statement on one line.
pub open spec fn history_item_text(sql: Seq<char>) -> Seq<char> {
    if utf8_len(sql) > 60 {
        (if sql.len() >= 60 { sql.take(60) } else { sql }) + "..."@
    } else {
        newlines_to_spaces(sql)
    }
}

impl SqlEditor {
    /// How a statement is listed in the editor's history column (see
    /// `history_item_text`).
    pub fn history_item_text(sql: &str) -> (r: String)
        ensures
            r@ == history_item_text(sql@),
    {
        let v = chars_of(sql);
        let mut out: Vec<char> = Vec::new();
        if utf8_len_exceeds(&v, 60) {
            let n = if v.len() >= 60 { 60 } else { v.len() };
            let mut i: usize = 0;
            while i < n
                invariant
                    n <= v@.len(),
                    i <= n,
                    out@ == v@.take(i as int),
                decreases n - i,
            {
                out.push(v[i]);
                i = i + 1;
                assert(out@ =~= v@.take(i as int));
            }
            let mut r = string_from_chars(&out);
            r.append("...");
            assert(out@ =~= (if v@.len() >= 60 { v@.take(60) } else { v@ }));
            r
        } else {
            let mut i: usize = 0;
            while i < v.len()
                invariant
                    i <= v@.len(),
                    out@ == newlines_to_spaces(v@.take(i as int)),
                decreases v@.len() - i,
            {
                let c = v[i];
                out.push(if c == '\n' { ' ' } else { c });
                i = i + 1;
                assert(out@ =~= newlines_to_spaces(v@.take(i as int)));
            }
            assert(v@.take(v@.len() as int) =~= v@);
            string_from_chars(&out)
        }
    }

    /// After the text changed while the editor has the keyboard: the
    /// completion list opens at its first entry when the word being typed has
    /// at least two bytes and there are completions for it, and closes when
    /// the word is shorter.
    pub fn autocomplete_after_edit(
        sql_input: &str,
        has_completions: bool,
        show_autocomplete: &mut bool,
        selected_completion: &mut usize,
    )
        ensures
            utf8_len(current_word(sql_input@)) >= 2 && has_completions ==> *final(show_autocomplete)
                && *final(selected_completion) == 0,
            utf8_len(current_word(sql_input@)) >= 2 && !has_completions ==> *final(show_autocomplete)
                == *old(show_autocomplete) && *final(selected_completion) == *old(selected_completion),
            utf8_len(current_word(sql_input@)) < 2 ==> !*final(show_autocomplete)
                && *final(selected_completion) == *old(selected_completion),
    {
        let w = get_current_word(sql_input);
        let wv = chars_of(w.as_str());
        if utf8_len_exceeds(&wv, 1) {
            if has_completions {
                *show_autocomplete = true;
                *selected_completion = 0;
            }
        } else {
            *show_autocomplete = false;
        }
    }
}

} // verus!
