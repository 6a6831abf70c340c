use langston_studio::inject::{find_injection_point, inject_relay_script, script_block_bytes, RELAY_SCRIPT, RELAY_TIMEOUT_MS};

fn contains(hay: &[u8], needle: &[u8]) -> bool {
    hay.windows(needle.len()).any(|w| w == needle)
}

#[test]
fn script_goes_right_after_head() {
    let html = b"<!doctype html><html><head><title>t</title></head><body></body></html>".to_vec();
    let out = inject_relay_script(&html);
    let block = script_block_bytes();
    let k = b"<!doctype html><html><head>".len();
    assert_eq!(find_injection_point(&html), k);
    assert_eq!(&out[..k], &html[..k]);
    assert_eq!(&out[k..k + block.len()], block.as_slice());
    assert_eq!(&out[k + block.len()..], &html[k..]);
    assert_eq!(out.len(), html.len() + block.len());
}

#[test]
fn only_the_first_head_receives_the_script() {
    let html = b"<head></head><head></head>".to_vec();
    let out = inject_relay_script(&html);
    let block = script_block_bytes();
    assert_eq!(find_injection_point(&html), 6);
    let mut expected = b"<head>".to_vec();
    expected.extend_from_slice(&block);
    expected.extend_from_slice(b"</head><head></head>");
    assert_eq!(out, expected);
}

#[test]
fn upper_case_head_is_found_too() {
    let html = b"<HTML><HEAD></HEAD></HTML>";
    assert_eq!(find_injection_point(html), 12);
    let html = b"<html><Head></Head></html>";
    assert_eq!(find_injection_point(html), 12);
}

#[test]
fn exact_head_is_preferred_to_other_cases() {
    let html = b"<HEAD><head>";
    assert_eq!(find_injection_point(html), 12);
}

#[test]
fn without_head_the_script_is_prepended() {
    let html = b"<p>fragment</p>".to_vec();
    let out = inject_relay_script(&html);
    let mut expected = script_block_bytes();
    expected.extend_from_slice(&html);
    assert_eq!(out, expected);
    assert_eq!(inject_relay_script(b""), script_block_bytes());
}

#[test]
fn invalid_utf8_survives_injection() {
    let html = vec![0xff, b'<', b'h', b'e', b'a', b'd', b'>', 0xfe];
    let out = inject_relay_script(&html);
    let block = script_block_bytes();
    assert_eq!(out[0..7], html[0..7]);
    assert_eq!(out[7 + block.len()..], html[7..]);
}

#[test]
fn block_wraps_the_relay_script() {
    let block = script_block_bytes();
    assert!(block.starts_with(b"<script>"));
    assert!(block.ends_with(b"</script>"));
    assert_eq!(&block[8..block.len() - 9], RELAY_SCRIPT.as_bytes());
}

#[test]
fn relay_script_speaks_the_relay_protocol() {
    for word in ["relay-request", "relay-response", "relay-error", "postMessage", "'GET'", "'HEAD'", "'OPTIONS'"] {
        assert!(contains(RELAY_SCRIPT.as_bytes(), word.as_bytes()), "{}", word);
    }
    assert_eq!(RELAY_TIMEOUT_MS, 600000);
    assert!(contains(RELAY_SCRIPT.as_bytes(), format!("RELAY_TIMEOUT_MS = {}", RELAY_TIMEOUT_MS).as_bytes()));
    assert!(!contains(RELAY_SCRIPT.as_bytes(), b"</script>"));
}
