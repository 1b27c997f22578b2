use roguelite_core::table::{checked_total, Table};
use roguelite_core::text::{byte_len, contains, decimal, is_whitespace, lines_of, owned, trim_end, utf8_width};

fn chars(s: &str) -> Vec<char> {
    s.chars().collect()
}

#[test]
fn contains_finds_runs() {
    assert!(contains("fast_cooldown", "cooldown"));
    assert!(contains("abc", ""));
    assert!(!contains("cool", "cooldown"));
    assert!(!contains("damage", "damn"));
}

#[test]
fn lines_split_like_std() {
    for s in ["a\nb", "a\r\nb\r\n", "\n\nx", "", "one", "x\n\n", "a\rb\n"] {
        let got: Vec<String> = lines_of(&chars(s)).into_iter().map(|l| l.into_iter().collect()).collect();
        let want: Vec<String> = s.lines().map(|l| l.to_string()).collect();
        assert_eq!(got, want, "text {:?}", s);
    }
}

#[test]
fn trimming_and_widths() {
    let t: String = trim_end(chars("ab \t\u{3000}")).into_iter().collect();
    assert_eq!(t, "ab");
    assert!(is_whitespace('\u{a0}'));
    assert!(!is_whitespace('x'));
    assert_eq!(byte_len("aé€😀"), 1 + 2 + 3 + 4);
    assert_eq!(utf8_width('€'), 3);
    let d: String = decimal(907).into_iter().collect();
    assert_eq!(d, "907");
    assert_eq!(owned("x"), "x".to_string());
}

#[test]
fn table_keeps_first_position() {
    let mut t: Table<u32, u32> = Table::new();
    t.insert(5, 1);
    t.insert(7, 2);
    t.insert(5, 3);
    assert_eq!(t.len(), 2);
    assert_eq!(*t.key(0), 5);
    assert_eq!(*t.value(0), 3);
    assert_eq!(t.position(&7), Some(1));
    assert_eq!(t.get(&9), None);
    assert_eq!(checked_total(&t), Some(5));
    t.insert(9, u32::MAX);
    assert_eq!(checked_total(&t), None);
}
