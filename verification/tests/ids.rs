use buddy_choreography::ids::prefixed_uuid_v7;

#[test]
fn fresh_ids_are_the_prefix_and_a_hyphenated_uuid() {
    let id = prefixed_uuid_v7("evt");
    assert!(id.starts_with("evt_"));
    let uuid: Vec<char> = id["evt_".len()..].chars().collect();
    assert_eq!(uuid.len(), 36);
    for (i, c) in uuid.iter().enumerate() {
        if i == 8 || i == 13 || i == 18 || i == 23 {
            assert_eq!(*c, '-');
        } else {
            assert!(c.is_ascii_digit() || ('a'..='f').contains(c));
        }
    }
}
