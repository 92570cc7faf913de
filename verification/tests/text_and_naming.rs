use chrome_profile_manage::naming::{
    create_safe_name, environment_id, fallback_safe_name, next_dir_name_step, profile_dir_name,
    profile_dir_path, sanitize_name, DirNameStep,
};
use chrome_profile_manage::text::{
    char_is_control, char_is_white_space, chars_of, concat_text, decimal_text, is_blank,
    text_equals, trim_string, trim_text,
};

#[test]
fn trim_removes_ascii_whitespace_at_both_ends() {
    assert_eq!(trim_text("  a b \t\n"), "a b");
    assert_eq!(trim_text("x"), "x");
    assert_eq!(trim_text(""), "");
}

#[test]
fn trim_removes_unicode_whitespace() {
    assert_eq!(trim_text("\u{3000}\u{a0}name\u{2028}\u{85}"), "name");
    assert_eq!(trim_text("\u{200b}x"), "\u{200b}x");
}

#[test]
fn trim_of_blank_text_is_empty() {
    assert_eq!(trim_text(" \t\r\n\u{3000}"), "");
    assert!(is_blank(" \t "));
    assert!(!is_blank(" a "));
}

#[test]
fn trim_agrees_with_std_trim() {
    for s in ["  a  ", "\u{2000}b\u{200a}", "\u{1680}c d\u{202f}", "\u{205f}", "e\u{3000}f"] {
        assert_eq!(trim_text(s), s.trim());
    }
}

#[test]
fn trim_twice_is_trim_once() {
    let s = "\u{3000} \tvalue\n ";
    let once = trim_text(s);
    assert_eq!(trim_string(&once), once);
}

#[test]
fn white_space_and_control_characters() {
    assert!(char_is_white_space('\u{3000}'));
    assert!(char_is_white_space('\u{85}'));
    assert!(!char_is_white_space('\u{200b}'));
    assert!(char_is_control('\u{7f}'));
    assert!(char_is_control('\u{9f}'));
    assert!(!char_is_control('\u{a0}'));
    for c in ['\u{0}', '\u{1f}', ' ', 'a', '\u{80}', '\u{2028}'] {
        assert_eq!(char_is_control(c), c.is_control());
        assert_eq!(char_is_white_space(c), c.is_whitespace());
    }
}

#[test]
fn chars_and_equality() {
    assert_eq!(chars_of("héllo"), vec!['h', 'é', 'l', 'l', 'o']);
    assert!(text_equals("环境", "环境"));
    assert!(!text_equals("a", "A"));
    assert_eq!(concat_text("ab", "cd"), "abcd");
}

#[test]
fn decimal_text_renders_numbers() {
    assert_eq!(decimal_text(0), "0");
    assert_eq!(decimal_text(7), "7");
    assert_eq!(decimal_text(10), "10");
    assert_eq!(decimal_text(1700000000123), "1700000000123");
    assert_eq!(decimal_text(u128::MAX), u128::MAX.to_string());
}

#[test]
fn sanitize_replaces_reserved_characters() {
    assert_eq!(sanitize_name(" a<b>:c\"d/e\\f|g?h*i "), "a_b__c_d_e_f_g_h_i");
}

#[test]
fn sanitize_replaces_control_characters_and_keeps_inner_spaces() {
    assert_eq!(sanitize_name("a\tb\u{1}c d"), "a_b_c d");
    assert_eq!(sanitize_name("工作 环境"), "工作 环境");
}

#[test]
fn create_safe_name_of_ordinary_name() {
    assert_eq!(create_safe_name("  work  "), "work");
    assert_eq!(create_safe_name("shop/eu"), "shop_eu");
}

#[test]
fn create_safe_name_of_blank_name_uses_time_stamp() {
    let name = create_safe_name("   ");
    assert!(name.starts_with("env_"));
    assert!(name.len() >= "env_".len() + 25);
    assert!(!name.contains(':'));
    assert!(name.chars().all(|c| !"<>:\"/\\|?*".contains(c) && !c.is_control()));
}

#[test]
fn fallback_name_prefixes_stamp() {
    assert_eq!(fallback_safe_name("2024-01-02T03:04:05+08:00"), "env_2024-01-02T03_04_05+08_00");
}

#[test]
fn safe_name_of_safe_name_is_unchanged() {
    for s in [" a:b ", "x\ty", "<>", " \u{3000}q\u{1}"] {
        let once = sanitize_name(s);
        assert_eq!(sanitize_name(&once), once);
    }
}

#[test]
fn profile_dir_names_per_attempt() {
    assert_eq!(profile_dir_name("work", 0), "work");
    assert_eq!(profile_dir_name("work", 1), "work_1");
    assert_eq!(profile_dir_name("work", 12), "work_12");
}

#[test]
fn profile_dir_names_are_distinct() {
    let names: Vec<String> = (0..50).map(|k| profile_dir_name("a_1", k)).collect();
    for i in 0..names.len() {
        for j in 0..names.len() {
            if i != j {
                assert_ne!(names[i], names[j]);
            }
        }
    }
}

#[test]
fn environment_ids_count_the_new_environment() {
    assert_eq!(environment_id(1700000000000, 0), "1700000000000_1");
    assert_eq!(environment_id(42, 2), "42_3");
}

#[test]
fn safe_name_holds_no_reserved_or_control_characters() {
    let s = sanitize_name("\u{3000} a<>:\"/\\|?*\u{0}\u{7f}\u{9f}b \t");
    for c in s.chars() {
        assert!(!"<>:\"/\\|?*".contains(c));
        assert!(!c.is_control());
    }
    assert_eq!(s, "a____________b");
    assert_eq!(s.chars().count(), trim_text("\u{3000} a<>:\"/\\|?*\u{0}\u{7f}\u{9f}b \t").chars().count());
}

#[test]
fn distinct_numbers_render_distinctly() {
    let texts: Vec<String> = (0u128..300).map(decimal_text).collect();
    for i in 0..texts.len() {
        for j in (i + 1)..texts.len() {
            assert_ne!(texts[i], texts[j]);
        }
    }
}

#[test]
fn dir_name_search_steps() {
    assert_eq!(next_dir_name_step("/p/work".to_string(), 0, false), DirNameStep::Use("/p/work".to_string()));
    assert_eq!(next_dir_name_step("/p/work".to_string(), 0, true), DirNameStep::Probe(1));
    assert_eq!(next_dir_name_step("/p/work_4".to_string(), 4, false), DirNameStep::Use("/p/work_4".to_string()));
    assert_eq!(next_dir_name_step("/p/x".to_string(), u32::MAX, true), DirNameStep::Exhausted);
    assert_eq!(profile_dir_path("/p/", "work", 2), "/p/work_2");
}

#[test]
fn dir_name_search_finds_first_free_name() {
    let sep = std::path::MAIN_SEPARATOR;
    let taken = [format!("/p{sep}work"), format!("/p{sep}work_1"), format!("/p{sep}work_2")];
    let mut attempt = 0;
    let path = loop {
        let candidate = profile_dir_path("/p", "work", attempt);
        let is_taken = taken.contains(&candidate);
        match next_dir_name_step(candidate, attempt, is_taken) {
            DirNameStep::Use(p) => break p,
            DirNameStep::Probe(next) => attempt = next,
            DirNameStep::Exhausted => panic!("exhausted"),
        }
    };
    assert_eq!(path, format!("/p{sep}work_3"));
}
