use hyvolex_paradigm::field::{Interaction, Polarity};

#[test]
fn equal_polarities_repel() {
    assert_eq!(Polarity::North.interaction_with(&Polarity::North), Interaction::Repulsion);
    assert_eq!(Polarity::South.interaction_with(&Polarity::South), Interaction::Repulsion);
}

#[test]
fn opposite_polarities_attract() {
    assert_eq!(Polarity::North.interaction_with(&Polarity::South), Interaction::Attraction);
    assert_eq!(Polarity::South.interaction_with(&Polarity::North), Interaction::Attraction);
}

#[test]
fn interaction_signs() {
    assert_eq!(Interaction::Repulsion.sign(), -1);
    assert_eq!(Interaction::Attraction.sign(), 1);
}

#[test]
fn base_magnitude_of_strengths_two_and_three() {
    let (a, b) = (2.0f32, 3.0f32);
    let same = Polarity::North.interaction_with(&Polarity::North).sign() as f32 * a * b;
    let opposite = Polarity::North.interaction_with(&Polarity::South).sign() as f32 * a * b;
    assert_eq!(same, -6.0);
    assert_eq!(opposite, 6.0);
}
