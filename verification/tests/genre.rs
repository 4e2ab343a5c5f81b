use album_tagger::genre::{cursor_among, genre_choices, genre_cursor, select_genre};

#[test]
fn nine_genres_are_on_offer() {
    assert_eq!(
        genre_choices(),
        vec![
            "Video Game",
            "Classical",
            "Jazz",
            "Rock",
            "Metal",
            "Electronic",
            "Funk",
            "Soundtrack",
            "Other"
        ]
    );
}

#[test]
fn the_cursor_starts_on_the_genre_chosen_last_time() {
    let choices = genre_choices();
    for (i, genre) in choices.iter().enumerate() {
        assert_eq!(genre_cursor(&Some(genre.clone())), i);
    }
}

#[test]
fn the_cursor_starts_on_the_first_genre_otherwise() {
    assert_eq!(genre_cursor(&None), 0);
    assert_eq!(genre_cursor(&Some("Polka".to_string())), 0);
    assert_eq!(genre_cursor(&Some("jazz".to_string())), 0);
    assert_eq!(genre_cursor(&Some("".to_string())), 0);
    assert_eq!(genre_cursor(&Some("Rock ".to_string())), 0);
}

#[test]
fn cursor_among_finds_the_first_place() {
    let choices = vec!["a".to_string(), "b".to_string(), "b".to_string()];
    assert_eq!(cursor_among(&choices, "a"), 0);
    assert_eq!(cursor_among(&choices, "b"), 1);
    assert_eq!(cursor_among(&choices, "c"), 0);
    assert_eq!(cursor_among(&Vec::new(), "a"), 0);
}

#[test]
fn the_genre_question_is_complete() {
    let prompt = select_genre(&Some("Metal".to_string()));
    assert_eq!(prompt.message, "Select genre:");
    assert_eq!(prompt.choices, genre_choices());
    assert_eq!(prompt.starting_cursor, 4);
    let prompt = select_genre(&None);
    assert_eq!(prompt.starting_cursor, 0);
    assert_eq!(prompt.choices.len(), 9);
}
