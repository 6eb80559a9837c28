use reachability::text::{decimal_text, render_job_id};

#[test]
fn decimal_of_single_digits() {
    assert_eq!(decimal_text(0), "0");
    assert_eq!(decimal_text(7), "7");
    assert_eq!(decimal_text(9), "9");
}

#[test]
fn decimal_of_longer_numbers() {
    assert_eq!(decimal_text(10), "10");
    assert_eq!(decimal_text(20), "20");
    assert_eq!(decimal_text(1300), "1300");
    assert_eq!(decimal_text(65535), "65535");
    assert_eq!(decimal_text(1_000_000_007), "1000000007");
}

#[test]
fn decimal_of_the_largest_number() {
    assert_eq!(decimal_text(u64::MAX), "18446744073709551615");
    assert_eq!(decimal_text(u64::MAX), u64::MAX.to_string());
}

#[test]
fn decimal_agrees_with_the_standard_rendering() {
    let mut n: u64 = 1;
    for _ in 0..60 {
        assert_eq!(decimal_text(n), n.to_string());
        assert_eq!(decimal_text(n - 1), (n - 1).to_string());
        n = n.wrapping_mul(3).wrapping_add(1);
    }
}

#[test]
fn job_id_is_hex_with_a_prefix() {
    assert_eq!(render_job_id(&[0xab, 0xc1, 0x23]), "0xabc123");
}

#[test]
fn job_id_of_no_bytes_is_the_prefix() {
    assert_eq!(render_job_id(&[]), "0x");
}

#[test]
fn job_id_keeps_leading_zeros_and_is_lowercase() {
    assert_eq!(render_job_id(&[0x00, 0x0f, 0xf0, 0xFF, 0x10]), "0x000ff0ff10");
}

#[test]
fn job_id_of_thirty_two_bytes() {
    let mut job = [0u8; 32];
    job[31] = 0x2a;
    let text = render_job_id(&job);
    assert_eq!(text.len(), 66);
    assert_eq!(
        text,
        "0x000000000000000000000000000000000000000000000000000000000000002a"
    );
}

#[test]
fn job_id_of_every_byte_value() {
    let digits = "0123456789abcdef".as_bytes();
    for b in 0..=255u8 {
        let expected = format!(
            "0x{}{}",
            digits[(b / 16) as usize] as char,
            digits[(b % 16) as usize] as char
        );
        assert_eq!(render_job_id(&[b]), expected);
    }
}
