use tg_captain::tokenizer::tokenize;

#[test]
fn empty_text_gives_one_empty_token() {
    assert_eq!(tokenize(""), vec![String::new()]);
}

#[test]
fn blank_text_gives_one_empty_token() {
    assert_eq!(tokenize("  \t \n"), vec![String::new()]);
}

#[test]
fn words_are_split_on_runs_of_white_space() {
    assert_eq!(
        tokenize("  container   rename\told  new "),
        vec!["container".to_string(), "rename".to_string(), "old".to_string(), "new".to_string()]
    );
}

#[test]
fn rejoined_tokens_are_the_trimmed_and_collapsed_text() {
    let text = " \u{a0}stop \u{2003}\u{3000} 12\r\n";
    assert_eq!(tokenize(text).join(" "), "stop 12");
    let words: Vec<&str> = text.split_whitespace().collect();
    assert_eq!(tokenize(text).join(" "), words.join(" "));
}
