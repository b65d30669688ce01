use ams_timeline::decimal::{decimal_len, push_decimal, push_zero_padded};
use ams_timeline::labels::{
    add_track_label, block_id, clock, fallback_name, number_label, track_id, track_name,
};

#[test]
fn decimal_rendering() {
    let mut s = String::from("x=");
    push_decimal(&mut s, 0);
    assert_eq!(s, "x=0");
    let mut s = String::new();
    push_decimal(&mut s, 18446744073709551615);
    assert_eq!(s, "18446744073709551615");
    assert_eq!(decimal_len(0), 1);
    assert_eq!(decimal_len(9), 1);
    assert_eq!(decimal_len(10), 2);
    assert_eq!(decimal_len(u64::MAX), 20);
}

#[test]
fn zero_padding() {
    let mut s = String::new();
    push_zero_padded(&mut s, 7, 3);
    assert_eq!(s, "007");
    let mut s = String::new();
    push_zero_padded(&mut s, 12345, 3);
    assert_eq!(s, "12345");
    let mut s = String::new();
    push_zero_padded(&mut s, 0, 0);
    assert_eq!(s, "0");
}

#[test]
fn block_ids_are_padded_to_five_digits() {
    assert_eq!(block_id(1), "BLK00001");
    assert_eq!(block_id(42), "BLK00042");
    assert_eq!(block_id(99999), "BLK99999");
    assert_eq!(block_id(123456), "BLK123456");
    assert_eq!(block_id(0), "BLK00000");
}

#[test]
fn distinct_block_numbers_give_distinct_ids() {
    let ids: Vec<String> = (1u32..200).map(block_id).collect();
    for (i, a) in ids.iter().enumerate() {
        for b in ids.iter().skip(i + 1) {
            assert_ne!(a, b);
        }
    }
}

#[test]
fn track_names_and_ids() {
    assert_eq!(track_name(3), "Track 3");
    assert_eq!(track_name(10), "Track 10");
    assert_eq!(track_id(3), "track3");
    assert_eq!(track_id(120), "track120");
    assert_eq!(fallback_name(&"abc".to_string()), "Track abc");
}

#[test]
fn clock_fields_are_two_digits_at_least() {
    assert_eq!(clock(0, 0, 0), "00:00:00");
    assert_eq!(clock(1, 5, 7), "01:05:07");
    assert_eq!(clock(12, 59, 99), "12:59:99");
    assert_eq!(clock(123, 0, 4), "123:00:04");
}

#[test]
fn button_and_ruler_labels() {
    assert_eq!(add_track_label(2), "Add Track (2)");
    assert_eq!(add_track_label(0), "Add Track (0)");
    assert_eq!(number_label(0), "0");
    assert_eq!(number_label(500), "500");
    assert_eq!(number_label(u32::MAX), "4294967295");
}
