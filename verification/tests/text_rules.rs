use gestor_comercial::text::{blank, contains, decimal_text, join, like_pattern, same_text, trim, white_space};

#[test]
fn white_space_agrees_with_std_on_every_char() {
    for code in 0u32..=0x10FFFF {
        if let Some(c) = char::from_u32(code) {
            assert_eq!(white_space(c), c.is_whitespace(), "code point {:#x}", code);
        }
    }
}

#[test]
fn trim_agrees_with_std() {
    let samples = [
        "",
        "   ",
        "abc",
        "  abc  ",
        "\t\n nome \r\n",
        "\u{3000}Loja\u{00A0}",
        "a b c",
        "\u{2003}\u{2003}",
        "ção ",
    ];
    for s in samples {
        assert_eq!(trim(s), s.trim(), "sample {:?}", s);
    }
}

#[test]
fn trim_twice_is_trim_once() {
    for s in ["  x  ", "\u{85}y\u{2028}", "", " "] {
        let once = trim(s);
        assert_eq!(trim(&once), once);
    }
}

#[test]
fn blank_is_only_white_space() {
    assert!(blank(""));
    assert!(blank(" \t\n"));
    assert!(blank("\u{3000}"));
    assert!(!blank(" a "));
}

#[test]
fn contains_agrees_with_std() {
    let hay = "UNIQUE constraint failed: products.sku";
    for needle in ["UNIQUE", "sku", "", "products.sku", "FOREIGN KEY", "skux", "UNIQUE constraint failed: products.sku!"] {
        assert_eq!(contains(hay, needle), hay.contains(needle), "needle {:?}", needle);
    }
    assert!(contains("ação", "çã"));
    assert!(!contains("", "a"));
}

#[test]
fn decimal_text_agrees_with_to_string() {
    for n in [0i64, 7, 10, 99, 100, -1, -10, 1234567890, i64::MIN, i64::MAX] {
        assert_eq!(decimal_text(n), n.to_string());
    }
}

#[test]
fn joining_and_patterns() {
    assert_eq!(join("Financeiro: ", "Aluguel"), "Financeiro: Aluguel");
    assert_eq!(like_pattern("caf"), "%caf%");
    assert_eq!(like_pattern(""), "%%");
    assert!(same_text("IN", "IN"));
    assert!(!same_text("IN", "in"));
}
