use casual::ScriptEnd;
use casual::confirm_config;
use casual::is_yes;
use casual::is_yes_or_no;

fn parse_string(s: &str) -> Result<String, String> {
    Ok(s.to_string())
}

fn confirm_script(text: &str, lines: Vec<&str>) -> (bool, Vec<String>) {
    let lines: Vec<String> = lines.into_iter().map(|s| s.to_string()).collect();
    match confirm_config(text).resolve_script(&lines, &parse_string) {
        ScriptEnd::Resolved { value, notes, .. } => (is_yes(value.as_str()), notes),
        ScriptEnd::Exhausted { .. } => panic!("the queue ends in an accepted answer"),
    }
}

#[test]
fn confirm_config_is_preconfigured() {
    let cfg = confirm_config("Continue?");
    assert_eq!(cfg.prompt, Some("Continue?".to_string()));
    assert_eq!(cfg.prefix, None);
    assert_eq!(cfg.suffix, Some(" [y/N] ".to_string()));
    assert_eq!(cfg.default, Some("n".to_string()));
    assert!(cfg.validator.is_some());
}

#[test]
fn plain_yes_confirms() {
    let (answer, notes) = confirm_script("Continue?", vec!["y"]);
    assert!(answer);
    assert!(notes.is_empty());
}

#[test]
fn capital_no_declines() {
    let (answer, notes) = confirm_script("Continue?", vec!["N"]);
    assert!(!answer);
    assert!(notes.is_empty());
}

#[test]
fn empty_line_declines_by_default() {
    let (answer, notes) = confirm_script("Continue?", vec![""]);
    assert!(!answer);
    assert!(notes.is_empty());
}

#[test]
fn stray_answer_is_rejected_once_then_yes_confirms() {
    let (answer, notes) = confirm_script("Continue?", vec!["maybe", "yes"]);
    assert!(answer);
    assert_eq!(notes.len(), 1);
    assert_eq!(notes[0], "Error: invalid input");
}

#[test]
fn casing_never_matters() {
    assert!(confirm_script("Continue?", vec!["YES"]).0);
    assert!(confirm_script("Continue?", vec!["Yes"]).0);
    assert!(!confirm_script("Continue?", vec!["No"]).0);
    assert!(!confirm_script("Continue?", vec!["NO"]).0);
}

#[test]
fn answers_are_trimmed_before_the_check() {
    assert!(confirm_script("Continue?", vec!["  y  "]).0);
    assert!(!confirm_script("Continue?", vec![" no "]).0);
}

#[test]
fn is_yes_reads_only_yes_words() {
    assert!(is_yes("y"));
    assert!(is_yes("Y"));
    assert!(is_yes("yes"));
    assert!(is_yes("YES"));
    assert!(!is_yes("n"));
    assert!(!is_yes("no"));
    assert!(!is_yes(""));
    assert!(!is_yes("yess"));
}

#[test]
fn is_yes_or_no_reads_all_four_answers() {
    assert!(is_yes_or_no("y"));
    assert!(is_yes_or_no("YES"));
    assert!(is_yes_or_no(" no "));
    assert!(is_yes_or_no("N"));
    assert!(!is_yes_or_no("maybe"));
    assert!(!is_yes_or_no(""));
    assert!(!is_yes_or_no("yeah"));
}
