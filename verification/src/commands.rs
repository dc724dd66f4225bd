//! Spoken voice commands: punctuation, formatting and editing phrases in a
//! transcript are turned into the text they stand for.
use crate::text::{
    contains, lemma_tidy_lines_well_spaced, replace_all, replaced, seq_contains, tidy, tidy_lines,
    well_spaced,
};
use crate::word_regex::{
    ascii_fold, has_word, is_literal_replacement, regex_is_match, regex_replace_all, word_pattern,
    word_replaced,
};
use vstd::prelude::*;

verus! {

/// What `process_commands` made of a transcript.
pub struct CommandResult {
    /// The transcript with every command phrase replaced and whitespace
    /// normalised.
    pub text: String,
    /// Whether any command phrase was recognised.
    pub had_commands: bool,
    /// Whether commands were recognised and nothing else is left.
    pub all_commands: bool,
    /// Whether the transcript asks to stop listening.
    pub should_stop: bool,
}

/// `str::to_lowercase` applies the Unicode lowercase mapping; the result is
/// named here and nothing more is claimed of it.
pub uninterp spec fn lowercase_of(s: Seq<char>) -> Seq<char>;

/// Whether every character of `s` is ASCII.
pub open spec fn all_ascii(s: Seq<char>) -> bool {
    forall|i: int| 0 <= i < s.len() ==> (s[i] as u32) < 128
}

/// `s` with its ASCII upper-case letters lowered.
pub open spec fn ascii_lowered(s: Seq<char>) -> Seq<char> {
    s.map_values(|c: char| ascii_fold(c))
}

/// `str::to_lowercase`: its result is `lowercase_of` of the argument; on
/// ASCII text, whose Unicode lower-case mapping is the ASCII one, it lowers
/// `A`-`Z` and keeps every other character.
#[verifier::external_body]
fn to_lowercase(s: &str) -> (r: String)
    ensures
        r@ == lowercase_of(s@),
        all_ascii(s@) ==> r@ == ascii_lowered(s@),
{
    s.to_lowercase()
}

/// The command phrases, in the order they are applied, each with the text
/// that replaces it: punctuation and formatting first, then the editing and
/// control phrases, which are removed.
pub open spec fn command_table() -> Seq<(Seq<char>, Seq<char>)> {
    seq![
        ("new paragraph"@, "\n\n"@),
        ("new line"@, "\n"@),
        ("question mark"@, "?"@),
        ("exclamation point"@, "!"@),
        ("exclamation mark"@, "!"@),
        ("semicolon"@, ";"@),
        ("period"@, "."@),
        ("comma"@, ","@),
        ("colon"@, ":"@),
        ("tab"@, "\t"@),
        ("delete that"@, ""@),
        ("undo that"@, ""@),
        ("select all"@, ""@),
        ("stop listening"@, ""@),
    ]
}

/// One command applied: its whole-word, ASCII-case-insensitive occurrences
/// replaced, when there is one.
pub open spec fn rule_step(t: Seq<char>, rule: (Seq<char>, Seq<char>)) -> Seq<char> {
    if has_word(t, rule.0) {
        word_replaced(t, rule.0, rule.1)
    } else {
        t
    }
}

/// The commands of `rules` applied to `t` one after the other.
pub open spec fn apply_rules(t: Seq<char>, rules: Seq<(Seq<char>, Seq<char>)>) -> Seq<char>
    decreases rules.len(),
{
    if rules.len() == 0 {
        t
    } else {
        rule_step(apply_rules(t, rules.drop_last()), rules.last())
    }
}

/// Whether some command of `rules` occurs in the text it is applied to.
pub open spec fn some_rule_fires(t: Seq<char>, rules: Seq<(Seq<char>, Seq<char>)>) -> bool
    decreases rules.len(),
{
    if rules.len() == 0 {
        false
    } else {
        some_rule_fires(t, rules.drop_last()) || has_word(
            apply_rules(t, rules.drop_last()),
            rules.last().0,
        )
    }
}

/// The space before each punctuation mark removed.
pub open spec fn spacing_fixed(t: Seq<char>) -> Seq<char> {
    replaced(
        replaced(
            replaced(
                replaced(replaced(replaced(t, " ."@, "."@), " ,"@, ","@), " ?"@, "?"@),
                " !"@,
                "!"@,
            ),
            " ;"@,
            ";"@,
        ),
        " :"@,
        ":"@,
    )
}

/// Punctuation spacing fixed, each line's whitespace collapsed, the whole
/// trimmed.
pub open spec fn cleaned(t: Seq<char>) -> Seq<char> {
    tidy_lines(spacing_fixed(t))
}

/// The text `process_commands` returns for `raw`.
pub open spec fn command_text(raw: Seq<char>) -> Seq<char> {
    cleaned(apply_rules(raw, command_table()))
}

/// Whether the lowercased transcript contains "stop listening".
pub open spec fn asks_to_stop(raw: Seq<char>) -> bool {
    seq_contains(lowercase_of(raw), "stop listening"@)
}

/// Whether `process_commands` reports that `raw` held commands.
pub open spec fn holds_commands(raw: Seq<char>) -> bool {
    asks_to_stop(raw) || some_rule_fires(raw, command_table())
}

/// The command views of a table of string pairs.
pub open spec fn rule_views(v: Seq<(&str, &str)>) -> Seq<(Seq<char>, Seq<char>)> {
    v.map_values(|p: (&str, &str)| (p.0@, p.1@))
}

fn command_rules() -> (v: Vec<(&'static str, &'static str)>)
    ensures
        rule_views(v@) == command_table(),
        forall|i: int|
            0 <= i < v.len() ==> 0 < (#[trigger] v@[i]).0@.len() <= 64
                && is_literal_replacement(v@[i].1@),
{
    let v = vec![
        ("new paragraph", "\n\n"),
        ("new line", "\n"),
        ("question mark", "?"),
        ("exclamation point", "!"),
        ("exclamation mark", "!"),
        ("semicolon", ";"),
        ("period", "."),
        ("comma", ","),
        ("colon", ":"),
        ("tab", "\t"),
        ("delete that", ""),
        ("undo that", ""),
        ("select all", ""),
        ("stop listening", ""),
    ];
    proof {
        reveal_strlit("new paragraph");
        reveal_strlit("\n\n");
        reveal_strlit("new line");
        reveal_strlit("\n");
        reveal_strlit("question mark");
        reveal_strlit("?");
        reveal_strlit("exclamation point");
        reveal_strlit("!");
        reveal_strlit("exclamation mark");
        reveal_strlit("semicolon");
        reveal_strlit(";");
        reveal_strlit("period");
        reveal_strlit(".");
        reveal_strlit("comma");
        reveal_strlit(",");
        reveal_strlit("colon");
        reveal_strlit(":");
        reveal_strlit("tab");
        reveal_strlit("\t");
        reveal_strlit("delete that");
        reveal_strlit("");
        reveal_strlit("undo that");
        reveal_strlit("select all");
        reveal_strlit("stop listening");
    }
    v
}

/// The space before `.`, `,`, `?`, `!`, `;` and `:` removed, then every
/// line's whitespace collapsed to single spaces and the result trimmed.
pub fn clean_command_text(text: &str) -> (r: String)
    ensures
        r@ == cleaned(text@),
{
    proof {
        reveal_strlit(" .");
        reveal_strlit(" ,");
        reveal_strlit(" ?");
        reveal_strlit(" !");
        reveal_strlit(" ;");
        reveal_strlit(" :");
    }
    let t = replace_all(text, " .", ".");
    let t = replace_all(t.as_str(), " ,", ",");
    let t = replace_all(t.as_str(), " ?", "?");
    let t = replace_all(t.as_str(), " !", "!");
    let t = replace_all(t.as_str(), " ;", ";");
    let t = replace_all(t.as_str(), " :", ":");
    tidy(t.as_str())
}

/// Replaces the spoken command phrases of a transcript with what they
/// stand for, and reports whether there were any, whether nothing but
/// commands was said, and whether the speaker asked to stop listening.
pub fn process_commands(raw_text: &str) -> (r: CommandResult)
    ensures
        r.text@ == command_text(raw_text@),
        r.should_stop == asks_to_stop(raw_text@),
        r.had_commands == holds_commands(raw_text@),
        r.all_commands == (r.had_commands && r.text@.len() == 0),
        r.should_stop ==> r.had_commands,
        all_ascii(raw_text@) ==> r.should_stop == seq_contains(
            ascii_lowered(raw_text@),
            "stop listening"@,
        ),
        well_spaced(r.text@),
{
    let mut text = raw_text.to_owned();
    let lower = to_lowercase(raw_text);
    let should_stop = contains(lower.as_str(), "stop listening");
    let mut had_commands = should_stop;
    let rules = command_rules();
    let ghost table = command_table();
    let mut i: usize = 0;
    while i < rules.len()
        invariant
            i <= rules.len(),
            rule_views(rules@) == table,
            table == command_table(),
            forall|j: int|
                0 <= j < rules.len() ==> 0 < (#[trigger] rules@[j]).0@.len() <= 64
                    && is_literal_replacement(rules@[j].1@),
            text@ == apply_rules(raw_text@, table.take(i as int)),
            had_commands == (should_stop || some_rule_fires(raw_text@, table.take(i as int))),
        decreases rules.len() - i,
    {
        let (word, rep) = rules[i];
        assert(table.take(i + 1).drop_last() =~= table.take(i as int));
        let pattern = word_pattern(word);
        if regex_is_match(&pattern, text.as_str()) {
            had_commands = true;
            text = regex_replace_all(&pattern, text.as_str(), rep);
        }
        i += 1;
    }
    assert(table.take(rules.len() as int) =~= table);
    let text = clean_command_text(text.as_str());
    let all_commands = had_commands && text.as_str().is_empty();
    proof {
        lemma_command_text_well_spaced(raw_text@);
    }
    CommandResult { text, had_commands, all_commands, should_stop }
}

proof fn lemma_quiet_rules_keep_text(t: Seq<char>, rules: Seq<(Seq<char>, Seq<char>)>)
    requires
        !some_rule_fires(t, rules),
    ensures
        apply_rules(t, rules) == t,
    decreases rules.len(),
{
    if rules.len() > 0 {
        lemma_quiet_rules_keep_text(t, rules.drop_last());
    }
}

/// A transcript without any command phrase only has its spacing cleaned:
/// punctuation spacing fixed, whitespace collapsed, ends trimmed.
pub proof fn lemma_no_commands_only_cleans(raw: Seq<char>)
    requires
        !holds_commands(raw),
    ensures
        command_text(raw) == cleaned(raw),
{
    lemma_quiet_rules_keep_text(raw, command_table());
}

/// Whatever was said, the text left after commands has no leading or
/// trailing whitespace, uses only single spaces and line breaks, and never
/// puts a space next to a line break (a spoken "tab" ends up as a space).
pub proof fn lemma_command_text_well_spaced(raw: Seq<char>)
    ensures
        well_spaced(command_text(raw)),
{
    lemma_tidy_lines_well_spaced(spacing_fixed(apply_rules(raw, command_table())));
}

} // verus!
