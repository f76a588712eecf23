use rivctrl::command::{bar_command, text_command};
use rivctrl::text::{append_decimal, chars_of, is_white_space, string_of, trim, utf8_width};
use rivctrl::util::{clear, get_color, get_partition_usage};

#[test]
fn color_thresholds() {
    assert_eq!(get_color(0), 'g');
    assert_eq!(get_color(-5), 'g');
    assert_eq!(get_color(70), 'g');
    assert_eq!(get_color(71), 'y');
    assert_eq!(get_color(88), 'y');
    assert_eq!(get_color(89), 'g');
    assert_eq!(get_color(90), 'g');
    assert_eq!(get_color(91), 'r');
    assert_eq!(get_color(100), 'r');
    assert_eq!(get_color(i64::MAX), 'r');
    assert_eq!(get_color(i64::MIN), 'g');
}

#[test]
fn clear_command_text() {
    assert_eq!(clear(), "c\n");
}

#[test]
fn text_and_bar_commands() {
    assert_eq!(text_command('g', "CPU Usage"), "t g CPU Usage\n");
    assert_eq!(text_command('r', ""), "t r \n");
    assert_eq!(bar_command('y', "0.75"), "p y 0.75\n");
    assert_eq!(bar_command('g', "0"), "p g 0\n");
}

#[test]
fn commands_are_one_line() {
    for cmd in [clear(), text_command('y', "Memory 1/2MB"), bar_command('r', "0.95")] {
        assert!(cmd.ends_with('\n'));
        assert_eq!(cmd.matches('\n').count(), 1);
    }
}

#[test]
fn decimal_numerals() {
    for (n, expected) in [(0u64, "0"), (7, "7"), (10, "10"), (1234567890, "1234567890"), (u64::MAX, "18446744073709551615")] {
        let mut s = String::from("x");
        append_decimal(&mut s, n);
        assert_eq!(s, format!("x{}", expected));
    }
}

#[test]
fn white_space_and_trim() {
    assert!(is_white_space(' '));
    assert!(is_white_space('\t'));
    assert!(is_white_space('\u{3000}'));
    assert!(is_white_space('\u{a0}'));
    assert!(!is_white_space('a'));
    assert!(!is_white_space('%'));
    for s in [" 42 ", "\t\u{3000}x y\n", "", "   ", "abc", "\u{85}z\u{2029}"] {
        let t = trim(&chars_of(s));
        assert_eq!(string_of(&t), s.trim());
    }
}

#[test]
fn utf8_widths() {
    for c in ['a', '\u{7f}', 'é', '\u{7ff}', '€', '\u{ffff}', '😀'] {
        assert_eq!(utf8_width(c), c.len_utf8());
    }
}

#[test]
fn usage_of_ordinary_df_output() {
    assert_eq!(get_partition_usage("Use%\n 42%\n").as_deref(), Some("0.42"));
    assert_eq!(get_partition_usage("Use%\n  5%\n").as_deref(), Some("0.05"));
    assert_eq!(get_partition_usage("Use%\n100%\n").as_deref(), Some("1.00"));
    assert_eq!(get_partition_usage("Use%\n 10%").as_deref(), Some("0.10"));
    assert_eq!(get_partition_usage("Use%\n 99%\nextra\n").as_deref(), Some("0.99"));
}

#[test]
fn usage_of_single_line_output() {
    assert_eq!(get_partition_usage("").as_deref(), Some("0.00"));
    assert_eq!(get_partition_usage("df: /dev/nothing: No such file").as_deref(), Some("0.00"));
}

#[test]
fn usage_of_odd_fields() {
    assert_eq!(get_partition_usage("Use%\n-\n").as_deref(), Some("0.0-"));
    assert_eq!(get_partition_usage("Use%\nab%\n").as_deref(), Some("0.ab"));
    assert_eq!(get_partition_usage("Use%\n.5\n").as_deref(), Some("0..5"));
    assert_eq!(get_partition_usage("Use%\n1.55\n").as_deref(), Some("1..55"));
    assert_eq!(get_partition_usage("Use%\n%4%2%\n").as_deref(), Some("0.42"));
    assert_eq!(get_partition_usage("Use%\n\u{3000}7\u{a0}\n").as_deref(), Some("0.07"));
    assert_eq!(get_partition_usage("Use%\né\n").as_deref(), Some("0.é"));
    assert_eq!(get_partition_usage("Use%\n1é\n").as_deref(), Some("1.é"));
}

#[test]
fn usage_unreadable_fields() {
    assert_eq!(get_partition_usage("Use%\n"), None);
    assert_eq!(get_partition_usage("Use%\n  %  \n"), None);
    assert_eq!(get_partition_usage("Use%\n€\n"), None);
    assert_eq!(get_partition_usage("Use%\né1\n"), None);
}
