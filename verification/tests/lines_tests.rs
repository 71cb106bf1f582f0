use typing_trainer::words::get_random_line;

fn joined_len(line: &[String]) -> usize {
    line.join(" ").chars().count()
}

#[test]
fn generated_line_spans_width_without_repeats() {
    let bank = vec!["cat".to_string(), "dog".to_string()];
    for _ in 0..50 {
        let line = get_random_line(&bank, 5);
        assert!(!line.is_empty());
        assert!(joined_len(&line) >= 5);
        for w in &line {
            assert!(bank.contains(w));
        }
        for pair in line.windows(2) {
            assert_ne!(pair[0], pair[1]);
        }
    }
}

#[test]
fn generated_line_never_repeats_adjacent_words_across_many_draws() {
    let bank = vec![
        "alpha".to_string(),
        "beta".to_string(),
        "gamma".to_string(),
        "delta".to_string(),
    ];
    for _ in 0..30 {
        let line = get_random_line(&bank, 80);
        assert!(joined_len(&line) >= 80);
        for pair in line.windows(2) {
            assert_ne!(pair[0], pair[1]);
        }
        for w in &line {
            assert!(bank.contains(w));
        }
    }
}

#[test]
fn singleton_bank_yields_its_word() {
    let bank = vec!["cat".to_string()];
    let line = get_random_line(&bank, 3);
    assert_eq!(line, vec!["cat".to_string()]);
}

#[test]
fn width_one_takes_one_word() {
    let bank = vec!["cat".to_string(), "dog".to_string()];
    let line = get_random_line(&bank, 1);
    assert_eq!(line.len(), 1);
    assert!(bank.contains(&line[0]));
}
