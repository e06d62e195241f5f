use set_status::{
    cap_status, has_evidence, is_blank, is_white_space, Evidence, ELLIPSIS, MAX_STATUS_BYTES,
};

/// The cut, in terms of byte positions.
fn cut_by_bytes(s: &str) -> String {
    if s.len() <= 256 {
        return s.to_string();
    }
    let mut end = 256;
    while !s.is_char_boundary(end) {
        end -= 1;
    }
    let boundary = s[..end].rfind(char::is_whitespace).unwrap_or(end);
    format!("{}...", &s[..boundary])
}

#[test]
fn white_space_is_what_unicode_says() {
    let mut count = 0;
    for u in 0..=0x10ffffu32 {
        if let Some(c) = char::from_u32(u) {
            assert_eq!(is_white_space(c), c.is_whitespace());
            if is_white_space(c) {
                count += 1;
            }
        }
    }
    assert_eq!(count, 25);
}

#[test]
fn blank_text_is_what_trims_to_nothing() {
    for text in ["", " ", "  ", "\t\r\n", "\u{a0}\u{2003}\u{3000}"] {
        assert!(is_blank(text));
        assert!(text.trim().is_empty());
    }
    for text in ["a", " a ", "  .", "\u{200b}", "\u{feff}"] {
        assert!(!is_blank(text));
        assert!(!text.trim().is_empty());
    }
}

#[test]
fn evidence_needs_items_with_commands() {
    let item = |command: &str| Evidence {
        command: command.to_string(),
        exit_code: 2,
        summary: None,
    };
    assert!(!has_evidence(&None));
    assert!(!has_evidence(&Some(vec![])));
    assert!(!has_evidence(&Some(vec![item("")])));
    assert!(!has_evidence(&Some(vec![item(" "), item("ls")])));
    assert!(!has_evidence(&Some(vec![item("ls"), item(" ")])));
    assert!(has_evidence(&Some(vec![item("ls")])));
    assert!(has_evidence(&Some(vec![item("ls"), item(" make ")])));
}

#[test]
fn cap_is_exact() {
    assert_eq!(MAX_STATUS_BYTES, 256);
    assert_eq!(ELLIPSIS, "...");
    let fits = "x".repeat(256);
    assert_eq!(cap_status(&fits), fits);
    assert_eq!(cap_status(""), "");
    // One byte too many, and nowhere to cut but at the cap.
    assert_eq!(cap_status(&"x".repeat(257)), format!("{}...", fits));
    // Trailing white space counts.
    assert_eq!(cap_status(&format!("{} ", fits)), format!("{}...", fits));
}

#[test]
fn cut_falls_on_the_last_white_space_that_fits() {
    let s = format!("{} {}", "x".repeat(200), "y".repeat(100));
    assert_eq!(cap_status(&s), format!("{}...", "x".repeat(200)));
    // White space right behind the cap does not count.
    let s = format!("a {} b", "y".repeat(254));
    assert_eq!(cap_status(&s), "a...");
    // White space on the last byte does.
    let s = format!("{} {}", "x".repeat(255), "y");
    assert_eq!(cap_status(&s), format!("{}...", "x".repeat(255)));
    // Nothing is left where only the first character is white space.
    let s = format!(" {}", "x".repeat(300));
    assert_eq!(cap_status(&s), "...");
    // Of several, only the last goes.
    let s = format!("{}  {}", "x".repeat(100), "y".repeat(300));
    assert_eq!(cap_status(&s), format!("{} ...", "x".repeat(100)));
}

#[test]
fn cut_never_splits_a_character() {
    // 3 bytes each: 85 of them take 255 bytes.
    let s = "\u{20ac}".repeat(90);
    assert_eq!(cap_status(&s), format!("{}...", "\u{20ac}".repeat(85)));
    // 4 bytes each: 64 of them fill the cap.
    let s = "\u{1f600}".repeat(65);
    assert_eq!(cap_status(&s), format!("{}...", "\u{1f600}".repeat(64)));
    // 2 bytes each, behind a single one.
    let s = format!("x{}", "\u{e9}".repeat(200));
    assert_eq!(cap_status(&s), format!("x{}...", "\u{e9}".repeat(127)));
    // White space of more than one byte.
    let s = format!("{}\u{3000}{}", "x".repeat(250), "y".repeat(50));
    assert_eq!(cap_status(&s), format!("{}...", "x".repeat(250)));
    // 84 euro signs take 252 bytes, and the space would end at byte 257.
    let s = format!("xx{}\u{2003}y", "\u{20ac}".repeat(84));
    assert_eq!(cap_status(&s), format!("xx{}...", "\u{20ac}".repeat(84)));
}

#[test]
fn cut_agrees_with_byte_positions() {
    let alphabet = [
        'a', 'b', ' ', '\n', '\u{a0}', '\u{e9}', '\u{20ac}', '\u{2003}', '\u{1f600}',
    ];
    let mut seed: u64 = 1;
    for round in 0..400 {
        let spread = 1 + round % alphabet.len();
        let mut s = String::new();
        for _ in 0..(60 + round % 260) {
            seed = seed.wrapping_mul(6364136223846793005).wrapping_add(1442695040888963407);
            s.push(alphabet[(seed >> 33) as usize % spread]);
        }
        let shown = cap_status(&s);
        assert_eq!(shown, cut_by_bytes(&s));
        assert!(shown.len() <= 259);
    }
}
