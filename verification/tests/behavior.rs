use casual::Feedback;
use casual::Outcome;
use casual::ScriptEnd;
use casual::feedback_message;
use casual::input;
use casual::prompt;
use casual::trim_text;

fn parse_u32(s: &str) -> Result<u32, String> {
    s.parse::<u32>().map_err(|e| e.to_string())
}

fn parse_string(s: &str) -> Result<String, String> {
    Ok(s.to_string())
}

#[test]
fn builder_starts_empty() {
    let cfg = input::<u32>();
    assert!(cfg.prompt.is_none());
    assert!(cfg.prefix.is_none());
    assert!(cfg.suffix.is_none());
    assert!(cfg.default.is_none());
    assert!(cfg.validator.is_none());
}

#[test]
fn setters_overwrite_prior_values() {
    let cfg = input::<u32>().prompt("a").prompt("b").prefix("p").suffix("s").default(1).default(7);
    assert_eq!(cfg.prompt, Some("b".to_string()));
    assert_eq!(cfg.prefix, Some("p".to_string()));
    assert_eq!(cfg.suffix, Some("s".to_string()));
    assert_eq!(cfg.default, Some(7));
}

#[test]
fn free_prompt_sets_prompt_text() {
    let cfg = prompt::<u32>("How many? ");
    assert_eq!(cfg.prompt, Some("How many? ".to_string()));
    assert!(cfg.default.is_none());
}

#[test]
fn composed_prompt_joins_prefix_prompt_suffix() {
    let cfg = input::<u32>().prefix("-> ").prompt("Continue?").suffix(" [y/N] ");
    assert_eq!(cfg.composed_prompt(), Some("-> Continue? [y/N] ".to_string()));
}

#[test]
fn composed_prompt_same_on_every_use() {
    let cfg = input::<u32>().prefix("[").prompt("Q").suffix("]");
    let first = cfg.composed_prompt();
    let second = cfg.composed_prompt();
    assert_eq!(first, Some("[Q]".to_string()));
    assert_eq!(first, second);
}

#[test]
fn composed_prompt_absent_without_prompt_text() {
    let cfg = input::<u32>().prefix("-> ").suffix(": ");
    assert_eq!(cfg.composed_prompt(), None);
}

#[test]
fn empty_prompt_text_is_still_a_prompt() {
    let cfg = input::<u32>().prompt("");
    assert_eq!(cfg.prompt, Some(String::new()));
    assert_eq!(cfg.composed_prompt(), Some(String::new()));
}

#[test]
fn later_validator_replaces_earlier_one() {
    let cfg = input::<u32>().matches(|_x: &u32| false).matches(|x: &u32| *x < 100);
    match cfg.advance("50", &parse_u32) {
        Outcome::Done(v) => assert_eq!(v, 50),
        Outcome::Retry(_, _) => panic!("only the last validator may decide"),
    }
}

#[test]
fn plain_number_is_returned() {
    match input::<u32>().advance("42", &parse_u32) {
        Outcome::Done(v) => assert_eq!(v, 42),
        Outcome::Retry(_, _) => panic!("a parseable line must resolve"),
    }
}

#[test]
fn unparseable_line_retries_until_a_number_arrives() {
    let lines = vec!["abc".to_string(), "7".to_string()];
    match input::<u32>().resolve_script(&lines, &parse_u32) {
        ScriptEnd::Resolved { value, used, notes } => {
            assert_eq!(value, 7);
            assert_eq!(used, 2);
            assert_eq!(notes.len(), 1);
            assert!(notes[0].starts_with("Error: "));
        },
        ScriptEnd::Exhausted { .. } => panic!("the queue ends in a parseable line"),
    }
}

#[test]
fn surrounding_whitespace_is_ignored() {
    match input::<u32>().advance(" \t 42 \n", &parse_u32) {
        Outcome::Done(v) => assert_eq!(v, 42),
        Outcome::Retry(_, _) => panic!("a padded parseable line must resolve"),
    }
    match input::<String>().advance("  hello  ", &parse_string) {
        Outcome::Done(v) => assert_eq!(v, "hello"),
        Outcome::Retry(_, _) => panic!("a padded text line must resolve"),
    }
}

#[test]
fn blank_line_yields_default_without_asking_validator() {
    let cfg = input::<u32>().default(5).matches(|_x: &u32| -> bool { panic!("the validator ran") });
    let lines = vec!["   \t ".to_string()];
    match cfg.resolve_script(&lines, &parse_u32) {
        ScriptEnd::Resolved { value, used, notes } => {
            assert_eq!(value, 5);
            assert_eq!(used, 1);
            assert!(notes.is_empty());
        },
        ScriptEnd::Exhausted { .. } => panic!("a blank line with a default must resolve"),
    }
}

#[test]
fn empty_line_yields_default() {
    let cfg = input::<u32>().default(9);
    match cfg.resolve_script(&vec!["".to_string()], &parse_u32) {
        ScriptEnd::Resolved { value, used, notes } => {
            assert_eq!(value, 9);
            assert_eq!(used, 1);
            assert!(notes.is_empty());
        },
        ScriptEnd::Exhausted { .. } => panic!("an empty line with a default must resolve"),
    }
}

#[test]
fn blank_lines_without_default_retry_silently() {
    let lines = vec!["".to_string(), "   ".to_string(), "5".to_string()];
    match input::<u32>().resolve_script(&lines, &parse_u32) {
        ScriptEnd::Resolved { value, used, notes } => {
            assert_eq!(value, 5);
            assert_eq!(used, 3);
            assert!(notes.is_empty());
        },
        ScriptEnd::Exhausted { .. } => panic!("the queue ends in a parseable line"),
    }
}

#[test]
fn one_error_line_per_rejected_attempt() {
    let cfg = input::<u32>().matches(|x: &u32| *x < 100);
    let lines = vec!["abc".to_string(), "500".to_string(), "42".to_string()];
    match cfg.resolve_script(&lines, &parse_u32) {
        ScriptEnd::Resolved { value, used, notes } => {
            assert_eq!(value, 42);
            assert_eq!(used, 3);
            assert_eq!(notes.len(), 2);
            assert!(notes[0].starts_with("Error: "));
            assert_eq!(notes[1], "Error: invalid input");
        },
        ScriptEnd::Exhausted { .. } => panic!("the queue ends in an accepted line"),
    }
}

#[test]
fn exhausted_queue_hands_the_configuration_back() {
    let cfg = input::<u32>().prompt("n: ");
    match cfg.resolve_script(&vec!["abc".to_string()], &parse_u32) {
        ScriptEnd::Resolved { .. } => panic!("an unparseable line must not resolve"),
        ScriptEnd::Exhausted { pending, notes } => {
            assert_eq!(pending.prompt, Some("n: ".to_string()));
            assert_eq!(notes.len(), 1);
        },
    }
}

#[test]
fn feedback_messages_have_their_stated_forms() {
    assert_eq!(feedback_message(&Feedback::Silent), None);
    assert_eq!(feedback_message(&Feedback::BadValue), Some("Error: invalid input".to_string()));
    assert_eq!(
        feedback_message(&Feedback::BadParse("out of range".to_string())),
        Some("Error: out of range".to_string())
    );
}

#[test]
fn trim_removes_edge_whitespace_only() {
    assert_eq!(trim_text("  a b\t"), "a b");
    assert_eq!(trim_text("   "), "");
    assert_eq!(trim_text(""), "");
    assert_eq!(trim_text("x"), "x");
    assert_eq!(trim_text("\u{A0} y \u{2003}"), "y");
}
