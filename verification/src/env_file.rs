//! The `.env` file format from which the build-time defaults are taken.
//!
//! Each line is trimmed; blank lines and lines starting with `#` are skipped;
//! a line is split at its first `=` into a key and a value, both trimmed; a
//! line is taken when its key is one of the nine model settings and its value
//! is not empty. A later line for the same key wins. Nothing else, secrets
//! such as `OPENAI_API_KEY` included, is ever taken.

use vstd::prelude::*;
use vstd::string::StrSliceExecFns;

use crate::settings::EmbeddedDefaults;
use crate::text::{is_white_space, str_eq, trim, trim_end, trim_start, trimmed};

verus! {

broadcast use vstd::string::group_string_axioms;

/// The position of the nine settings in a table of defaults, by the name of
/// their variable; `None` for every other name.
pub open spec fn setting_index(key: Seq<char>) -> Option<int> {
    if key == "OPENAI_DEFAULT_MODEL"@ {
        Some(0)
    } else if key == "LLM_SYSTEM_PROMPT"@ {
        Some(1)
    } else if key == "LLM_MAX_TOKENS"@ {
        Some(2)
    } else if key == "LLM_TEMPERATURE"@ {
        Some(3)
    } else if key == "LLM_TOP_P"@ {
        Some(4)
    } else if key == "LLM_FREQUENCY_PENALTY"@ {
        Some(5)
    } else if key == "LLM_PRESENCE_PENALTY"@ {
        Some(6)
    } else if key == "LLM_SEED"@ {
        Some(7)
    } else if key == "LLM_JSON_SCHEMA"@ {
        Some(8)
    } else {
        None
    }
}

/// The first position of `c` in `t`.
pub open spec fn first_index_of(t: Seq<char>, c: char) -> Option<int>
    decreases t.len(),
{
    if t.len() == 0 {
        None
    } else if t[0] == c {
        Some(0)
    } else {
        match first_index_of(t.drop_first(), c) {
            Some(k) => Some(k + 1),
            None => None,
        }
    }
}

proof fn lemma_first_index_of(t: Seq<char>, c: char)
    ensures
        first_index_of(t, c) matches Some(k) ==> 0 <= k < t.len() && t[k] == c && forall|j: int|
            0 <= j < k ==> t[j] != c,
        first_index_of(t, c) is None ==> forall|j: int| 0 <= j < t.len() ==> t[j] != c,
    decreases t.len(),
{
    if t.len() > 0 && t[0] != c {
        lemma_first_index_of(t.drop_first(), c);
        assert forall|j: int| 1 <= j < t.len() implies t[j] == t.drop_first()[j - 1] by {}
    }
}

/// The setting that one line gives: its position and its value.
pub open spec fn line_setting(line: Seq<char>) -> Option<(int, Seq<char>)> {
    let t = trimmed(line);
    if t.len() == 0 || t[0] == '#' {
        None
    } else {
        match first_index_of(t, '=') {
            None => None,
            Some(k) => {
                let key = trimmed(t.subrange(0, k));
                let value = trimmed(t.subrange(k + 1, t.len() as int));
                match setting_index(key) {
                    Some(i) => if value.len() > 0 {
                        Some((i, value))
                    } else {
                        None
                    },
                    None => None,
                }
            },
        }
    }
}

/// The defaults after one more line.
pub open spec fn apply_line(d: Seq<Option<Seq<char>>>, line: Seq<char>) -> Seq<Option<Seq<char>>> {
    match line_setting(line) {
        Some((i, v)) => d.update(i, Some(v)),
        None => d,
    }
}

/// No default at all.
pub open spec fn no_defaults() -> Seq<Option<Seq<char>>> {
    seq![None, None, None, None, None, None, None, None, None]
}

/// The defaults taken from the complete lines of `s`, and the text of the
/// line not yet ended by a newline.
pub open spec fn scan_lines(s: Seq<char>) -> (Seq<Option<Seq<char>>>, Seq<char>)
    decreases s.len(),
{
    if s.len() == 0 {
        (no_defaults(), Seq::empty())
    } else {
        let (d, line) = scan_lines(s.drop_last());
        if s.last() == '\n' {
            (apply_line(d, line), Seq::empty())
        } else {
            (d, line.push(s.last()))
        }
    }
}

/// The defaults that a `.env` file's content gives, in the order of
/// `setting_index`: every line is taken in turn, the last one ending at the
/// end of the content.
pub open spec fn env_file_defaults(content: Seq<char>) -> Seq<Option<Seq<char>>> {
    apply_line(scan_lines(content).0, scan_lines(content).1)
}

/// The text of an optional setting.
pub open spec fn text_view(t: Option<String>) -> Option<Seq<char>> {
    match t {
        Some(s) => Some(s@),
        None => None,
    }
}

/// A table of defaults, in the order of `setting_index`.
pub open spec fn defaults_view(e: EmbeddedDefaults) -> Seq<Option<Seq<char>>> {
    seq![
        text_view(e.default_model),
        text_view(e.system_prompt),
        text_view(e.max_tokens),
        text_view(e.temperature),
        text_view(e.top_p),
        text_view(e.frequency_penalty),
        text_view(e.presence_penalty),
        text_view(e.seed),
        text_view(e.json_schema),
    ]
}

/// Only the nine model settings are ever taken from a `.env` file: a line
/// whose key is any other name (`OPENAI_API_KEY`, `OPENAI_BASE_URL`, ...)
/// leaves the defaults as they are.
pub proof fn lemma_only_model_settings(d: Seq<Option<Seq<char>>>, line: Seq<char>)
    ensures
        line_setting(line) matches Some((i, v)) ==> 0 <= i < 9 && v.len() > 0,
        line_setting(line) is None ==> apply_line(d, line) == d,
{
}

/// Each of the nine names has its own position, in the order of the fields of
/// `EmbeddedDefaults`; the variables that hold secrets or the service's
/// address have none.
pub proof fn lemma_setting_names()
    ensures
        setting_index("OPENAI_DEFAULT_MODEL"@) == Some(0int),
        setting_index("LLM_SYSTEM_PROMPT"@) == Some(1int),
        setting_index("LLM_MAX_TOKENS"@) == Some(2int),
        setting_index("LLM_TEMPERATURE"@) == Some(3int),
        setting_index("LLM_TOP_P"@) == Some(4int),
        setting_index("LLM_FREQUENCY_PENALTY"@) == Some(5int),
        setting_index("LLM_PRESENCE_PENALTY"@) == Some(6int),
        setting_index("LLM_SEED"@) == Some(7int),
        setting_index("LLM_JSON_SCHEMA"@) == Some(8int),
        setting_index("OPENAI_API_KEY"@) is None,
        setting_index("OPENAI_BASE_URL"@) is None,
{
    reveal_strlit("OPENAI_DEFAULT_MODEL");
    reveal_strlit("LLM_SYSTEM_PROMPT");
    reveal_strlit("LLM_MAX_TOKENS");
    reveal_strlit("LLM_TEMPERATURE");
    reveal_strlit("LLM_TOP_P");
    reveal_strlit("LLM_FREQUENCY_PENALTY");
    reveal_strlit("LLM_PRESENCE_PENALTY");
    reveal_strlit("LLM_SEED");
    reveal_strlit("LLM_JSON_SCHEMA");
    reveal_strlit("OPENAI_API_KEY");
    reveal_strlit("OPENAI_BASE_URL");
    assert("OPENAI_DEFAULT_MODEL"@.len() == 20);
    assert("LLM_SYSTEM_PROMPT"@.len() == 17);
    assert("LLM_MAX_TOKENS"@.len() == 14);
    assert("LLM_TEMPERATURE"@.len() == 15);
    assert("LLM_TOP_P"@.len() == 9);
    assert("LLM_FREQUENCY_PENALTY"@.len() == 21);
    assert("LLM_PRESENCE_PENALTY"@.len() == 20);
    assert("LLM_SEED"@.len() == 8);
    assert("LLM_JSON_SCHEMA"@.len() == 15);
    assert("OPENAI_API_KEY"@.len() == 14);
    assert("OPENAI_BASE_URL"@.len() == 15);
    assert("OPENAI_DEFAULT_MODEL"@[0] != "LLM_PRESENCE_PENALTY"@[0]);
    assert("LLM_TEMPERATURE"@[4] != "LLM_JSON_SCHEMA"@[4]);
    assert("OPENAI_API_KEY"@[0] != "LLM_MAX_TOKENS"@[0]);
    assert("OPENAI_BASE_URL"@[0] != "LLM_TEMPERATURE"@[0]);
    assert("OPENAI_BASE_URL"@[0] != "LLM_JSON_SCHEMA"@[0]);
}

proof fn lemma_scan_without_newline(s: Seq<char>)
    requires
        forall|k: int| 0 <= k < s.len() ==> s[k] != '\n',
    ensures
        scan_lines(s).0 == no_defaults(),
        scan_lines(s).1 == s,
    decreases s.len(),
{
    if s.len() > 0 {
        lemma_scan_without_newline(s.drop_last());
        assert(s.drop_last().push(s.last()) =~= s);
    }
}

/// A `.env` file of the one line `KEY=VALUE`, where `KEY` is one of the nine
/// names and `VALUE` is a text without a newline that neither starts nor ends
/// with white space, gives that value for that setting and nothing else.
pub proof fn lemma_env_file_one_setting(key: Seq<char>, value: Seq<char>, i: int)
    requires
        setting_index(key) == Some(i),
        forall|k: int| 0 <= k < key.len() ==> key[k] != '=' && !is_white_space(#[trigger] key[k]),
        key.len() > 0,
        value.len() > 0,
        !is_white_space(value[0]),
        !is_white_space(value.last()),
        forall|k: int| 0 <= k < value.len() ==> #[trigger] value[k] != '\n',
    ensures
        env_file_defaults(key + seq!['='] + value) == no_defaults().update(i, Some(value)),
{
    let line = key + seq!['='] + value;
    assert(line[0] == key[0]);
    assert(line.last() == value.last());
    assert(trim_start(line) == line);
    assert(trim_end(line) == line);
    assert(trimmed(line) == line);
    assert(line[key.len() as int] == '=');
    lemma_first_index_of(line, '=');
    assert forall|j: int| 0 <= j < key.len() implies line[j] != '=' by {
        assert(line[j] == key[j]);
    }
    assert(first_index_of(line, '=') == Some(key.len() as int));
    assert(line.subrange(0, key.len() as int) =~= key);
    assert(line.subrange(key.len() as int + 1, line.len() as int) =~= value);
    assert(trim_start(key) == key);
    assert(key.last() == key[key.len() - 1]);
    assert(trim_end(key) == key);
    assert(trim_start(value) == value);
    assert(trim_end(value) == value);
    assert(key[0] != '#') by {
        reveal_strlit("OPENAI_DEFAULT_MODEL");
        reveal_strlit("LLM_SYSTEM_PROMPT");
        reveal_strlit("LLM_MAX_TOKENS");
        reveal_strlit("LLM_TEMPERATURE");
        reveal_strlit("LLM_TOP_P");
        reveal_strlit("LLM_FREQUENCY_PENALTY");
        reveal_strlit("LLM_PRESENCE_PENALTY");
        reveal_strlit("LLM_SEED");
        reveal_strlit("LLM_JSON_SCHEMA");
    }
    assert(line_setting(line) == Some((i, value)));
    assert forall|k: int| 0 <= k < line.len() implies line[k] != '\n' by {
        if k < key.len() {
            assert(line[k] == key[k]);
            assert(!is_white_space(key[k]));
        } else if k > key.len() {
            assert(line[k] == value[k - key.len() - 1]);
        }
    }
    lemma_scan_without_newline(line);
}

proof fn lemma_scan_extends(p: Seq<char>, b: Seq<char>)
    requires
        forall|k: int| 0 <= k < b.len() ==> b[k] != '\n',
    ensures
        scan_lines(p + b).0 == scan_lines(p).0,
        scan_lines(p + b).1 == scan_lines(p).1 + b,
    decreases b.len(),
{
    if b.len() == 0 {
        assert(p + b =~= p);
    } else {
        lemma_scan_extends(p, b.drop_last());
        assert((p + b).drop_last() =~= p + b.drop_last());
        assert((p + b).last() == b.last());
        assert((scan_lines(p).1 + b.drop_last()).push(b.last()) =~= scan_lines(p).1 + b);
    }
}

proof fn lemma_scan_len(s: Seq<char>)
    ensures
        scan_lines(s).0.len() == 9,
    decreases s.len(),
{
    if s.len() > 0 {
        lemma_scan_len(s.drop_last());
    }
}

/// Lines are taken in order and a later line for a setting wins: appending a
/// line to a `.env` file sets the setting that the line gives, if any, to its
/// value and leaves every other setting as the file had it; a line that gives
/// no setting changes nothing.
pub proof fn lemma_env_file_later_line_wins(content: Seq<char>, line: Seq<char>)
    requires
        forall|k: int| 0 <= k < line.len() ==> line[k] != '\n',
    ensures
        env_file_defaults(content).len() == 9,
        line_setting(line) is None ==> env_file_defaults(content + seq!['\n'] + line)
            == env_file_defaults(content),
        line_setting(line) matches Some((i, v)) ==> env_file_defaults(content + seq!['\n'] + line)[i]
            == Some(v),
        line_setting(line) matches Some((i, v)) ==> forall|j: int|
            0 <= j < 9 && j != i ==> #[trigger] env_file_defaults(content + seq!['\n'] + line)[j]
                == env_file_defaults(content)[j],
{
    let p = content + seq!['\n'];
    assert(p.drop_last() =~= content);
    assert(p.last() == '\n');
    assert(scan_lines(p).0 == env_file_defaults(content));
    assert(scan_lines(p).1 =~= Seq::<char>::empty());
    lemma_scan_extends(p, line);
    assert(Seq::<char>::empty() + line =~= line);
    lemma_scan_len(content);
}

/// Takes one line into the defaults.
fn take_line(d: &mut EmbeddedDefaults, line: &str)
    ensures
        defaults_view(*final(d)) == apply_line(defaults_view(*old(d)), line@),
{
    let t = trim(line);
    let n = t.unicode_len();
    if n == 0 {
        return;
    }
    if t.get_char(0) == '#' {
        return;
    }
    let mut k: usize = 0;
    while k < n
        invariant
            n == t@.len(),
            k <= n,
            forall|j: int| 0 <= j < k ==> t@[j] != '=',
        ensures
            k <= n,
            forall|j: int| 0 <= j < k ==> t@[j] != '=',
            k < n ==> t@[k as int] == '=',
        decreases n - k,
    {
        if t.get_char(k) == '=' {
            break;
        }
        k = k + 1;
    }
    proof {
        lemma_first_index_of(t@, '=');
    }
    if k == n {
        return;
    }
    assert(first_index_of(t@, '=') == Some(k as int));
    let key = trim(t.substring_char(0, k));
    let value = trim(t.substring_char(k + 1, n));
    if value.unicode_len() == 0 {
        return;
    }
    let v = value.to_string();
    if str_eq(key, "OPENAI_DEFAULT_MODEL") {
        d.default_model = Some(v);
    } else if str_eq(key, "LLM_SYSTEM_PROMPT") {
        d.system_prompt = Some(v);
    } else if str_eq(key, "LLM_MAX_TOKENS") {
        d.max_tokens = Some(v);
    } else if str_eq(key, "LLM_TEMPERATURE") {
        d.temperature = Some(v);
    } else if str_eq(key, "LLM_TOP_P") {
        d.top_p = Some(v);
    } else if str_eq(key, "LLM_FREQUENCY_PENALTY") {
        d.frequency_penalty = Some(v);
    } else if str_eq(key, "LLM_PRESENCE_PENALTY") {
        d.presence_penalty = Some(v);
    } else if str_eq(key, "LLM_SEED") {
        d.seed = Some(v);
    } else if str_eq(key, "LLM_JSON_SCHEMA") {
        d.json_schema = Some(v);
    }
    assert(defaults_view(*d) =~= apply_line(defaults_view(*old(d)), line@));
}

/// The build-time defaults that the content of a `.env` file gives.
pub fn embedded_defaults_from_env_file(content: &str) -> (r: EmbeddedDefaults)
    ensures
        defaults_view(r) == env_file_defaults(content@),
{
    let mut d = EmbeddedDefaults {
        default_model: None,
        system_prompt: None,
        max_tokens: None,
        temperature: None,
        top_p: None,
        frequency_penalty: None,
        presence_penalty: None,
        seed: None,
        json_schema: None,
    };
    assert(defaults_view(d) =~= no_defaults());
    assert(content@.take(0) =~= Seq::<char>::empty());
    let n = content.unicode_len();
    let mut start: usize = 0;
    for i in 0..n
        invariant
            n == content@.len(),
            start <= i,
            scan_lines(content@.take(i as int)).0 == defaults_view(d),
            scan_lines(content@.take(i as int)).1 == content@.subrange(start as int, i as int),
    {
        let c = content.get_char(i);
        assert(content@.take(i + 1).drop_last() =~= content@.take(i as int));
        assert(content@.take(i + 1).last() == c);
        if c == '\n' {
            let line = content.substring_char(start, i);
            take_line(&mut d, line);
            start = i + 1;
            assert(content@.subrange(start as int, i + 1) =~= Seq::<char>::empty());
        } else {
            assert(content@.subrange(start as int, i + 1) =~= content@.subrange(
                start as int,
                i as int,
            ).push(c));
        }
    }
    assert(content@.take(n as int) =~= content@);
    let line = content.substring_char(start, n);
    take_line(&mut d, line);
    d
}

} // verus!
