use vrot::{display_voca_word, join_string, show_answer, Voca, Word, WordInfo, BANNER_WIDTH};

fn sense(meaning: &str, synos: Option<Vec<&str>>, example: Option<&str>) -> WordInfo {
    WordInfo {
        meaning: meaning.to_string(),
        synos: synos.map(|v| v.into_iter().map(|s| s.to_string()).collect()),
        example: example.map(|e| e.to_string()),
    }
}

fn one_entry(word: &str, info: Vec<WordInfo>) -> Voca {
    Voca {
        voca: vec![Word {
            word: word.to_string(),
            info,
        }],
    }
}

#[test]
fn join_string_separates_with_comma_space() {
    let parts = vec!["big".to_string(), "large".to_string(), "huge".to_string()];
    assert_eq!(join_string(&parts), "big, large, huge");
}

#[test]
fn join_string_single_and_empty() {
    assert_eq!(join_string(&["only".to_string()]), "only");
    assert_eq!(join_string(&[]), "");
}

#[test]
fn banner_centres_headword() {
    let voca = one_entry("apple", vec![sense("a fruit", None, None)]);
    let rule = "-".repeat(50);
    let expected = format!("\x1b[1m{rule}\n|{:^48}|\n{rule}\x1b[0m\n", "apple");
    assert_eq!(display_voca_word(&voca, 0), expected);
    let middle = format!("|{}apple{}|", " ".repeat(21), " ".repeat(22));
    assert!(display_voca_word(&voca, 0).contains(&middle));
}

#[test]
fn banner_cuts_long_headword() {
    let long = "x".repeat(60);
    let voca = one_entry(&long, vec![sense("m", None, None)]);
    let out = display_voca_word(&voca, 0);
    let line = out.lines().nth(1).unwrap();
    assert_eq!(line, format!("|{}|", "x".repeat(BANNER_WIDTH)));
}

#[test]
fn banner_of_second_entry() {
    let voca = Voca {
        voca: vec![
            Word { word: "one".to_string(), info: vec![] },
            Word { word: "two".to_string(), info: vec![] },
        ],
    };
    assert!(display_voca_word(&voca, 1).contains("two"));
    assert!(!display_voca_word(&voca, 1).contains("one"));
}

#[test]
fn show_answer_all_fields_in_order() {
    let voca = one_entry(
        "bright",
        vec![
            sense("giving much light", Some(vec!["shining", "brilliant"]), Some("a bright day")),
            sense("clever", None, None),
        ],
    );
    let expected = "  Info 1\n  Meaning: giving much light\n  Synonyms: shining, brilliant\n  Example: a bright day\n\n  Info 2\n  Meaning: clever\n\n";
    assert_eq!(show_answer(&voca, 0), expected);
}

#[test]
fn show_answer_without_synonyms_has_no_synonyms_line() {
    let voca = one_entry("calm", vec![sense("quiet", None, Some("a calm sea"))]);
    let out = show_answer(&voca, 0);
    assert!(!out.contains("Synonyms:"));
    assert_eq!(out, "  Info 1\n  Meaning: quiet\n  Example: a calm sea\n\n");
}

#[test]
fn show_answer_empty_synonyms_shows_bare_label() {
    let voca = one_entry("calm", vec![sense("quiet", Some(vec![]), None)]);
    assert_eq!(show_answer(&voca, 0), "  Info 1\n  Meaning: quiet\n  Synonyms: \n\n");
}

#[test]
fn show_answer_numbers_past_nine() {
    let info: Vec<WordInfo> = (0..12).map(|i| sense(&format!("m{i}"), None, None)).collect();
    let voca = one_entry("many", info);
    let out = show_answer(&voca, 0);
    assert!(out.contains("  Info 10\n  Meaning: m9\n"));
    assert!(out.contains("  Info 12\n  Meaning: m11\n"));
    assert!(!out.contains("Info 0"));
}
