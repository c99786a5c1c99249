use rcli::gen_pass::{LOWER, NUMBER, SYMBOL, UPPER};
use rcli::{generate_password, process_genpass};

fn draws_on(password: &str, pool: &str) -> bool {
    password.chars().any(|c| pool.contains(c))
}

#[test]
fn password_has_the_length_asked_for() {
    for length in [4u8, 5, 16, 100, 255] {
        assert_eq!(process_genpass(length, true, true, true, true).len(), length as usize);
        assert_eq!(generate_password(length, true, true, true, true).len(), length as usize);
    }
    assert_eq!(process_genpass(1, false, false, true, false).len(), 1);
    assert_eq!(process_genpass(0, false, false, false, false), "");
}

#[test]
fn password_holds_every_class_asked_for() {
    for _ in 0..50 {
        let password = process_genpass(4, true, true, true, true);
        assert!(draws_on(&password, UPPER));
        assert!(draws_on(&password, LOWER));
        assert!(draws_on(&password, NUMBER));
        assert!(draws_on(&password, SYMBOL));
    }
}

#[test]
fn password_holds_no_class_that_was_not_asked_for() {
    for _ in 0..20 {
        let password = process_genpass(40, true, false, true, false);
        assert!(password.chars().all(|c| UPPER.contains(c) || NUMBER.contains(c)));
        assert!(draws_on(&password, UPPER));
        assert!(draws_on(&password, NUMBER));
        let password = process_genpass(40, false, true, false, false);
        assert!(password.chars().all(|c| LOWER.contains(c)));
        let password = process_genpass(40, false, false, false, true);
        assert!(password.chars().all(|c| SYMBOL.contains(c)));
    }
}

#[test]
fn passwords_differ_from_one_another() {
    let first = process_genpass(32, true, true, true, true);
    let second = process_genpass(32, true, true, true, true);
    assert_ne!(first, second);
}

#[test]
fn the_first_characters_are_not_always_in_class_order() {
    let mut moved = false;
    for _ in 0..200 {
        let password = process_genpass(4, true, true, true, true);
        let first = password.chars().next().unwrap();
        if !UPPER.contains(first) {
            moved = true;
        }
    }
    assert!(moved);
}

#[test]
fn pools_are_as_documented() {
    assert_eq!(UPPER, "ABCDEFGHIJKLMNOPQRSTUVWXYZ");
    assert_eq!(LOWER, "abcdefghijklmnopqrs");
    assert_eq!(NUMBER, "123456789");
    assert_eq!(SYMBOL, "!@#$%^&*()_+{}<>?_");
}
