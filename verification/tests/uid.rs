use hydrabadger::Uid;

#[test]
fn uid_text_is_hyphenated() {
    let uid = Uid([0, 1, 2, 3, 4, 5, 6, 7, 8, 9, 0xab, 0xcd, 0xef, 0x10, 0x2f, 0xff]);
    assert_eq!(uid.to_string(), "00010203-0405-0607-0809-abcdef102fff");
}

#[test]
fn uid_text_of_the_extremes() {
    assert_eq!(Uid([0; 16]).to_string(), "00000000-0000-0000-0000-000000000000");
    assert_eq!(Uid([0xff; 16]).to_string(), "ffffffff-ffff-ffff-ffff-ffffffffffff");
}

#[test]
fn uid_text_has_fixed_length_and_differs() {
    let a = Uid::new();
    let mut bytes = a.0;
    bytes[15] ^= 1;
    let b = Uid(bytes);
    assert_eq!(a.to_string().len(), 36);
    assert_ne!(a.to_string(), b.to_string());
}

#[test]
fn new_uid_is_a_random_uuid() {
    for _ in 0..64 {
        let uid = Uid::new();
        assert_eq!(uid.0[6] >> 4, 4);
        assert_eq!(uid.0[8] >> 6, 2);
        assert_eq!(uid.to_string().as_bytes()[14], b'4');
    }
}

#[test]
fn new_uids_differ() {
    assert!(Uid::new() != Uid::new());
}

#[test]
fn uid_equality_goes_by_all_bytes() {
    let a = Uid([7; 16]);
    let mut bytes = [7; 16];
    assert!(a == Uid(bytes));
    bytes[15] = 8;
    assert!(a != Uid(bytes));
}

#[test]
fn uid_order_goes_by_the_first_difference() {
    let mut low = [0xff; 16];
    low[0] = 1;
    let mut high = [0; 16];
    high[0] = 2;
    assert!(Uid(low) < Uid(high));
    assert!(Uid(high) > Uid(low));
    assert!(!(Uid(low) < Uid(low)));
    let mut middle = low;
    middle[15] = 0;
    assert!(Uid(middle) < Uid(low));
    assert!(Uid(middle) < Uid(high));
    assert!(Uid(low).cmp(&Uid(high)) == Uid(low).partial_cmp(&Uid(high)).unwrap());
    assert!(Uid(low).cmp(&Uid(middle)) == Uid(low).partial_cmp(&Uid(middle)).unwrap());
}

#[test]
fn uid_order_is_that_of_uuids() {
    let (a, b) = (Uid::new(), Uid::new());
    let (x, y) = (uuid::Uuid::from_bytes(a.0), uuid::Uuid::from_bytes(b.0));
    assert_eq!(a < b, x < y);
    assert_eq!(a > b, x > y);
}
