use integration_test::tmp::{random_file_name, NAME_LEN};

#[test]
fn name_has_seven_characters() {
    assert_eq!(NAME_LEN, 7);
    assert_eq!(random_file_name().chars().count(), 7);
    assert_eq!(random_file_name().len(), 7);
}

#[test]
fn name_is_alphanumeric() {
    for _ in 0..200 {
        let name = random_file_name();
        assert!(name.chars().all(|c| c.is_ascii_alphanumeric()), "{}", name);
    }
}

#[test]
fn names_differ() {
    let first = random_file_name();
    let mut differed = false;
    for _ in 0..50 {
        if random_file_name() != first {
            differed = true;
        }
    }
    assert!(differed);
}
