use spin_apps::fortune::{content_length, fortune_outcome, fortune_text, join_header_values, FortuneOutcome};

#[test]
fn status_200_reads_the_body() {
    assert_eq!(fortune_outcome(200), FortuneOutcome::ReadBody);
}

#[test]
fn statuses_404_and_500_are_passed_on() {
    assert_eq!(fortune_outcome(404), FortuneOutcome::Failed(404));
    assert_eq!(fortune_outcome(500), FortuneOutcome::Failed(500));
}

#[test]
fn other_statuses_fail_with_zero() {
    for s in [0u16, 201, 204, 301, 302, 400, 403, 503] {
        assert_eq!(fortune_outcome(s), FortuneOutcome::Failed(0));
    }
}

#[test]
fn header_values_are_joined_in_order() {
    let values = vec![b"12".to_vec(), b"".to_vec(), b"34".to_vec()];
    assert_eq!(join_header_values(&values), b"1234".to_vec());
}

#[test]
fn content_length_reads_the_joined_digits() {
    assert_eq!(content_length(&vec![b"123".to_vec()]), Some(123));
    assert_eq!(content_length(&vec![b"1".to_vec(), b"23".to_vec()]), Some(123));
    assert_eq!(content_length(&vec![b"+5".to_vec()]), Some(5));
    assert_eq!(content_length(&vec![b"18446744073709551615".to_vec()]), Some(u64::MAX));
}

#[test]
fn content_length_refuses_what_is_no_number() {
    assert_eq!(content_length(&vec![]), None);
    assert_eq!(content_length(&vec![b"-5".to_vec()]), None);
    assert_eq!(content_length(&vec![b" 5".to_vec()]), None);
    assert_eq!(content_length(&vec![b"5 ".to_vec()]), None);
    assert_eq!(content_length(&vec![b"+".to_vec()]), None);
    assert_eq!(content_length(&vec![b"1_000".to_vec()]), None);
    assert_eq!(content_length(&vec![b"18446744073709551616".to_vec()]), None);
    assert_eq!(content_length(&vec![vec![0xff, 0x31]]), None);
}

#[test]
fn fortune_text_decodes_utf8() {
    assert_eq!(fortune_text(b"Carpe diem.".to_vec()), Some("Carpe diem.".to_string()));
    assert_eq!(fortune_text("caf\u{e9}".as_bytes().to_vec()), Some("caf\u{e9}".to_string()));
    assert_eq!(fortune_text(vec![0xc3, 0x28]), None);
}
