use murmur::commands::{clean_command_text, process_commands};
use murmur::word_regex::has_whole_word;

#[test]
fn test_punctuation_commands() {
    let result = process_commands("hello period how are you question mark");
    assert!(result.had_commands);
    assert_eq!(result.text, "hello. how are you?");
}

#[test]
fn test_formatting_commands() {
    let result = process_commands("first line new line second line");
    assert!(result.had_commands);
    assert_eq!(result.text, "first line\nsecond line");
}

#[test]
fn test_new_paragraph() {
    let result = process_commands("paragraph one new paragraph paragraph two");
    assert!(result.had_commands);
    assert_eq!(result.text, "paragraph one\n\nparagraph two");
}

#[test]
fn test_mixed_commands_and_text() {
    let result = process_commands("send the email period new line thanks comma John");
    assert!(result.had_commands);
    assert!(!result.all_commands);
    assert_eq!(result.text, "send the email.\nthanks, John");
}

#[test]
fn test_no_commands() {
    let result = process_commands("just regular text here");
    assert!(!result.had_commands);
    assert_eq!(result.text, "just regular text here");
}

#[test]
fn test_stop_listening() {
    let result = process_commands("stop listening");
    assert!(result.should_stop);
    assert!(result.all_commands);
}

#[test]
fn test_case_insensitive() {
    let result = process_commands("hello PERIOD goodbye COMMA friend");
    assert!(result.had_commands);
    assert_eq!(result.text, "hello. goodbye, friend");
}

#[test]
fn test_multiple_punctuation_in_sequence() {
    let result = process_commands("hello period period");
    assert!(result.had_commands);
    assert_eq!(result.text, "hello..");
}

#[test]
fn test_tab_command() {
    let result = process_commands("hello tab world");
    assert!(result.had_commands);
    assert!(result.text.contains("hello"));
    assert!(result.text.contains("world"));
}

#[test]
fn test_exclamation_mark() {
    let result = process_commands("wow exclamation mark");
    assert!(result.had_commands);
    assert_eq!(result.text, "wow!");
}

#[test]
fn test_colon_and_semicolon() {
    let result = process_commands("note colon item one semicolon item two");
    assert!(result.had_commands);
    assert_eq!(result.text, "note: item one; item two");
}

#[test]
fn test_delete_that_removes_itself() {
    let result = process_commands("hello delete that");
    assert!(result.had_commands);
    assert_eq!(result.text, "hello");
}

#[test]
fn test_empty_input() {
    let result = process_commands("");
    assert!(!result.had_commands);
    assert_eq!(result.text, "");
}

#[test]
fn test_command_at_start() {
    let result = process_commands("period hello");
    assert!(result.had_commands);
    assert_eq!(result.text, ". hello");
}

#[test]
fn test_command_at_end() {
    let result = process_commands("hello comma");
    assert!(result.had_commands);
    assert_eq!(result.text, "hello,");
}

#[test]
fn commands_need_whole_words() {
    let result = process_commands("the periodic table and commas");
    assert!(!result.had_commands);
    assert_eq!(result.text, "the periodic table and commas");
}

#[test]
fn exclamation_point_and_tab_become_text() {
    let result = process_commands("yes exclamation point");
    assert_eq!(result.text, "yes!");
    let tabbed = process_commands("a tab b");
    assert_eq!(tabbed.text, "a b");
}

#[test]
fn editing_phrases_are_removed() {
    let result = process_commands("one undo that two select all three");
    assert!(result.had_commands);
    assert_eq!(result.text, "one two three");
}

#[test]
fn stop_listening_inside_text_stops_and_is_removed() {
    let result = process_commands("okay Stop Listening now");
    assert!(result.should_stop);
    assert!(result.had_commands);
    assert!(!result.all_commands);
    assert_eq!(result.text, "okay now");
}

#[test]
fn only_commands_means_all_commands() {
    let result = process_commands("new line period");
    assert!(result.had_commands);
    assert!(!result.all_commands);
    assert_eq!(result.text, ".");
    let result = process_commands("new paragraph tab");
    assert!(result.all_commands);
    assert_eq!(result.text, "");
    let result = process_commands("delete that");
    assert!(result.all_commands);
    assert_eq!(result.text, "");
}

#[test]
fn text_without_commands_is_only_respaced() {
    let result = process_commands("  lots   of\t space  \n here ");
    assert!(!result.had_commands);
    assert_eq!(result.text, "lots of space\nhere");
}

#[test]
fn output_is_well_spaced() {
    let result = process_commands(" a tab tab b new line  c comma ");
    let t = result.text;
    assert!(!t.starts_with(' ') && !t.ends_with(' '));
    assert!(!t.contains("  "));
    assert!(!t.contains(" \n") && !t.contains("\n "));
    assert!(!t.contains('\t'));
}

#[test]
fn clean_command_text_fixes_spacing() {
    assert_eq!(clean_command_text("a , b . c ? d ! e ; f : g"), "a, b. c? d! e; f: g");
    assert_eq!(clean_command_text("  x \n\n  y  "), "x\n\ny");
    assert_eq!(clean_command_text("\t\n"), "");
}

#[test]
fn whole_word_search_is_literal() {
    assert!(has_whole_word("see a.b here", "a.b"));
    assert!(!has_whole_word("see axb here", "a.b"));
    assert!(has_whole_word("Say PERIOD.", "period"));
    assert!(!has_whole_word("periodic", "period"));
    assert!(!has_whole_word("_period", "period"));
    assert!(has_whole_word("é period", "period"));
}

#[test]
fn stop_phrase_is_found_in_any_ascii_case() {
    assert!(process_commands("Okay, STOP Listening.").should_stop);
    assert!(!process_commands("stop, listening").should_stop);
}
