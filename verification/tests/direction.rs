use motion_analysis::direction::MovementDirection;

#[test]
fn digits_follow_the_reporting_convention() {
    assert_eq!(MovementDirection::Vertical.as_digit(), 0);
    assert_eq!(MovementDirection::Horizontal.as_digit(), 1);
    assert_eq!(MovementDirection::Diagonal.as_digit(), 2);
}

#[test]
fn letters_are_the_initials() {
    assert_eq!(MovementDirection::Vertical.as_char(), 'V');
    assert_eq!(MovementDirection::Horizontal.as_char(), 'H');
    assert_eq!(MovementDirection::Diagonal.as_char(), 'D');
}

#[test]
fn digit_makes_an_ascii_payload() {
    let payload: [u8; 1] = [0x30 + MovementDirection::Diagonal.as_digit()];
    assert_eq!(&payload, b"2");
}

#[test]
fn encodings_tell_the_labels_apart() {
    let all = [
        MovementDirection::Horizontal,
        MovementDirection::Vertical,
        MovementDirection::Diagonal,
    ];
    for a in all {
        for b in all {
            assert_eq!(a.as_digit() == b.as_digit(), a == b);
            assert_eq!(a.as_char() == b.as_char(), a == b);
        }
    }
}
