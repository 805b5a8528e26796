use fortify::routes::{html_escape, verify_form, FormOutcome};
use fortify::text::{chars_of, is_whitespace, parse_bounded, decimal_chars, split_chars, str_eq, string_of, starts_with};
use fortify::types::CaptchaResult;

#[test]
fn whitespace_is_what_unicode_says() {
    let mut c = 0u32;
    while c <= 0x10ffff {
        if let Some(ch) = char::from_u32(c) {
            assert_eq!(is_whitespace(ch), ch.is_whitespace(), "U+{:04X}", c);
        }
        c += 1;
    }
}

fn redirect_for(token: &str) -> String {
    let result = CaptchaResult {
        success: true,
        remaining_challenges: 0,
        passport_token: Some(token.to_string()),
        error_message: None,
    };
    match verify_form(&Some(result)) {
        FormOutcome::Redirect(to) => to,
        other => panic!("unexpected outcome {:?}", other),
    }
}

#[test]
fn every_byte_is_percent_encoded_or_kept() {
    for b in 0u8..128 {
        let token = (b as char).to_string();
        let kept = b.is_ascii_alphanumeric() || b == b'-' || b == b'.' || b == b'_' || b == b'~';
        let expected = if kept { token.clone() } else { format!("%{:02X}", b) };
        assert_eq!(redirect_for(&token), format!("/app/?passport_token={}", expected), "byte {}", b);
    }
    assert_eq!(redirect_for("\u{10348}"), "/app/?passport_token=%F0%90%8D%88");
    assert_eq!(redirect_for(""), "/app/?passport_token=");
}

#[test]
fn chars_and_strings_convert_both_ways() {
    for text in ["", "a", "héllo wörld", "\u{10348}x", "tab\there"] {
        let chars = chars_of(text);
        assert_eq!(chars, text.chars().collect::<Vec<char>>());
        assert_eq!(string_of(&chars), text);
        assert!(str_eq(text, &string_of(&chars)));
    }
    assert!(!str_eq("a", "b"));
    assert!(!str_eq("a", "ab"));
    assert!(starts_with(&chars_of("abc"), &chars_of("ab")));
    assert!(starts_with(&chars_of("abc"), &chars_of("")));
    assert!(!starts_with(&chars_of("ab"), &chars_of("abc")));
    assert!(!starts_with(&chars_of("abc"), &chars_of("b")));
}

#[test]
fn decimal_and_parse_round_trip() {
    let mut n: u64 = 1;
    let mut k = 0;
    while k < 64 {
        for v in [n - 1, n, n + (n - 1)] {
            let digits = decimal_chars(v);
            assert_eq!(string_of(&digits), v.to_string());
            assert_eq!(parse_bounded(&digits, u64::MAX), Some(v));
            assert_eq!(parse_bounded(&digits, v), Some(v));
            if v > 0 {
                assert_eq!(parse_bounded(&digits, v - 1), None);
            }
        }
        n = n.wrapping_mul(2);
        k += 1;
    }
}

#[test]
fn split_keeps_every_character_but_the_separator() {
    for text in ["a:b::c", ":::", "no separator", "ü:ö"] {
        let parts = split_chars(&chars_of(text), ':');
        let joined: Vec<String> = parts.iter().map(|p| string_of(p)).collect();
        assert_eq!(joined.join(":"), text);
        assert!(parts.iter().all(|p| !p.contains(&':')));
    }
}

#[test]
fn escaped_text_holds_no_markup() {
    let mut all = String::new();
    for b in 0u8..128 {
        all.push(b as char);
    }
    let escaped = html_escape(&all);
    assert!(!escaped.contains('<'));
    assert!(!escaped.contains('>'));
    assert!(!escaped.contains('"'));
    assert!(!escaped.contains('\''));
    assert_eq!(escaped.matches('&').count(), 5);
}
