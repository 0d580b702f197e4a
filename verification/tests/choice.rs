use pinboard::choice::{chosen, random_choice, NothingToChoose};

#[test]
fn nothing_can_be_chosen_from_nothing() {
    let none: [&str; 0] = [];
    assert_eq!(random_choice(none), Err(NothingToChoose));
    assert_eq!(chosen(None), Err(NothingToChoose));
}

#[test]
fn the_only_text_is_chosen() {
    assert_eq!(random_choice(["teawie"]), Ok("teawie".to_string()));
    assert_eq!(chosen(Some("teawie")), Ok("teawie".to_string()));
}

#[test]
fn the_choice_is_one_of_the_texts() {
    let texts = ["a", "b", "c", "d"];
    let mut seen = [false; 4];
    for _ in 0..400 {
        let choice = random_choice(texts).expect("there is something to choose from");
        let at = texts.iter().position(|text| *text == choice).expect("one of the texts");
        seen[at] = true;
    }
    assert!(seen.iter().any(|hit| *hit));
}
