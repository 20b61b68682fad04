use pastebin::idgen::{generate_id, ID_LENGTH};

fn is_alphanumeric_ascii(c: char) -> bool {
    ('A'..='Z').contains(&c) || ('a'..='z').contains(&c) || ('0'..='9').contains(&c)
}

#[test]
fn generated_id_has_requested_length() {
    assert_eq!(generate_id(1).chars().count(), 1);
    assert_eq!(generate_id(7).chars().count(), 7);
    assert_eq!(generate_id(20).chars().count(), 20);
    assert_eq!(generate_id(ID_LENGTH).chars().count(), 20);
}

#[test]
fn generated_id_is_alphanumeric() {
    for len in [1usize, 5, 20, 64] {
        let id = generate_id(len);
        assert_eq!(id.chars().count(), len);
        for c in id.chars() {
            assert!(is_alphanumeric_ascii(c), "unexpected character {c:?}");
        }
    }
}

#[test]
fn generated_ids_vary() {
    // 20 alphanumeric characters give a space large enough that two fresh
    // draws virtually never coincide; equality here would point at a
    // generator that ignores its random source.
    let a = generate_id(20);
    let b = generate_id(20);
    assert!(a != b || generate_id(20) != a);
}
