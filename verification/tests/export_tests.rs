use treatment_manager::handlers::export_handler::{
    escape_rtf_hebrew, get_field_names, sanitize_filename, ExportQuery, HEBREW,
};
use treatment_manager::text::{push_decimal, push_decimal_nat, scan_char, str_eq, strip_prefix};

#[test]
fn english_labels_are_the_default() {
    for language in ["en", "", "fr", "HE", "he ", "heb"] {
        let names = get_field_names(language);
        assert_eq!(names.title, "Patient Medical Record");
        assert_eq!(names.patient_info, "Patient Information");
        assert_eq!(names.name, "Name");
        assert_eq!(names.email, "Email");
        assert_eq!(names.phone, "Phone Number");
        assert_eq!(names.registration_date, "Registration Date");
        assert_eq!(names.status, "Status");
        assert_eq!(names.active, "Active");
        assert_eq!(names.inactive, "Inactive");
        assert_eq!(names.description, "Description");
        assert_eq!(names.treatments_history, "Treatment History");
        assert_eq!(names.no_treatments, "No treatments recorded");
        assert_eq!(names.total_treatments, "Total treatments");
        assert_eq!(names.treatment, "Treatment");
        assert_eq!(names.exported_on, "Document exported on");
    }
}

#[test]
fn hebrew_labels_for_the_hebrew_code() {
    assert_eq!(HEBREW, "he");
    let names = get_field_names("he");
    assert_eq!(names.title, "\u{5ea}\u{5d9}\u{5e7} \u{5e8}\u{5e4}\u{5d5}\u{5d0}\u{5d9} \u{5dc}\u{5de}\u{5d8}\u{5d5}\u{5e4}\u{5dc}");
    assert_eq!(names.name, "\u{5e9}\u{5dd}");
    assert_eq!(names.active, "\u{5e4}\u{5e2}\u{5d9}\u{5dc}");
    assert_eq!(names.inactive, "\u{5dc}\u{5d0} \u{5e4}\u{5e2}\u{5d9}\u{5dc}");
    assert_eq!(names.treatment, "\u{5d8}\u{5d9}\u{5e4}\u{5d5}\u{5dc}");
    assert_eq!(names.total_treatments, "\u{5e1}\u{5d4}\u{5f4}\u{5db} \u{5d8}\u{5d9}\u{5e4}\u{5d5}\u{5dc}\u{5d9}\u{5dd}");
    assert_ne!(names, get_field_names("en"));
}

#[test]
fn export_query_holds_an_optional_language() {
    let query = ExportQuery { lang: Some("he".to_string()) };
    assert_eq!(get_field_names(query.lang.as_deref().unwrap_or("en")).status, "\u{5e1}\u{5d8}\u{5d8}\u{5d5}\u{5e1}");
    let query = ExportQuery { lang: None };
    assert_eq!(get_field_names(query.lang.as_deref().unwrap_or("en")).status, "Status");
}

#[test]
fn plain_text_is_left_as_it_is() {
    assert_eq!(escape_rtf_hebrew(""), "");
    assert_eq!(escape_rtf_hebrew("Dana Levi, 42"), "Dana Levi, 42");
    assert_eq!(escape_rtf_hebrew("caf\u{e9}"), "caf\u{e9}");
    assert_eq!(escape_rtf_hebrew("\u{ff}\t\u{0}"), "\u{ff}\t\u{0}");
}

#[test]
fn control_characters_of_rtf_are_escaped() {
    assert_eq!(escape_rtf_hebrew("a\\b"), "a\\\\b");
    assert_eq!(escape_rtf_hebrew("{x}"), "\\{x\\}");
    assert_eq!(escape_rtf_hebrew("one\ntwo"), "one\\par two");
    assert_eq!(escape_rtf_hebrew("one\r\ntwo\r"), "one\\par two");
    assert_eq!(escape_rtf_hebrew("\\{}\n\r"), "\\\\\\{\\}\\par ");
}

#[test]
fn characters_outside_latin_1_become_numbered_escapes() {
    assert_eq!(escape_rtf_hebrew("\u{5e9}\u{5dd}"), "\\u1513?\\u1501?");
    assert_eq!(escape_rtf_hebrew("\u{590}\u{5ff}"), "\\u1424?\\u1535?");
    assert_eq!(escape_rtf_hebrew("\u{100}"), "\\u256?");
    assert_eq!(escape_rtf_hebrew("\u{7fff}"), "\\u32767?");
    assert_eq!(escape_rtf_hebrew("\u{8000}"), "\\u-32768?");
    assert_eq!(escape_rtf_hebrew("\u{ffff}"), "\\u-1?");
    assert_eq!(escape_rtf_hebrew("\u{10000}"), "\\u0?");
    assert_eq!(escape_rtf_hebrew("\u{1f600}"), "\\u62976?");
    assert_eq!(escape_rtf_hebrew("\u{10ffff}"), "\\u1048575?");
    assert_eq!(escape_rtf_hebrew("a\u{5d0}{b}"), "a\\u1488?\\{b\\}");
}

#[test]
fn file_names_keep_letters_numbers_hyphens_and_underscores() {
    assert_eq!(sanitize_filename(""), "");
    assert_eq!(sanitize_filename("Dana_Levi-2"), "Dana_Levi-2");
    assert_eq!(sanitize_filename("Dana Levi"), "Dana_Levi");
    assert_eq!(sanitize_filename("a/b\\c:d*e?f\"g<h>i|j"), "a_b_c_d_e_f_g_h_i_j");
    assert_eq!(sanitize_filename("  x  "), "__x__");
    assert_eq!(sanitize_filename("../../etc/passwd"), "______etc_passwd");
    assert_eq!(sanitize_filename("\u{5e9}\u{5dd} \u{5d8}\u{5d5}\u{5d1}"), "\u{5e9}\u{5dd}_\u{5d8}\u{5d5}\u{5d1}");
    assert_eq!(sanitize_filename("caf\u{e9}\u{b2}\u{2167}"), "caf\u{e9}\u{b2}\u{2167}");
    assert_eq!(sanitize_filename("tab\there\n"), "tab_here_");
}

#[test]
fn decimal_notation() {
    let cases: [(i32, &str); 9] = [
        (0, "0"),
        (7, "7"),
        (10, "10"),
        (1513, "1513"),
        (-1, "-1"),
        (-32768, "-32768"),
        (1048575, "1048575"),
        (i32::MAX, "2147483647"),
        (i32::MIN, "-2147483648"),
    ];
    for (number, text) in cases {
        let mut out = String::from("n=");
        push_decimal(&mut out, number);
        assert_eq!(out, format!("n={text}"));
    }
    let mut out = String::new();
    push_decimal_nat(&mut out, u64::MAX);
    push_decimal_nat(&mut out, 0);
    push_decimal_nat(&mut out, 1234567890);
    assert_eq!(out, "1844674407370955161501234567890");
}

#[test]
fn text_helpers() {
    assert!(str_eq("", ""));
    assert!(str_eq("OPTIONS", "OPTIONS"));
    assert!(!str_eq("OPTIONS", "OPTION"));
    assert!(!str_eq("a", "b"));
    assert!(str_eq("\u{5e9}\u{5dd}", "\u{5e9}\u{5dd}"));
    assert_eq!(strip_prefix("Bearer abc", "Bearer "), Some("abc"));
    assert_eq!(strip_prefix("Bearer ", "Bearer "), Some(""));
    assert_eq!(strip_prefix("Bearer", "Bearer "), None);
    assert_eq!(strip_prefix("bearer abc", "Bearer "), None);
    assert_eq!(strip_prefix("\u{5e9}\u{5dd}x", "\u{5e9}"), Some("\u{5dd}x"));
    assert_eq!(strip_prefix("abc", ""), Some("abc"));
    assert_eq!(scan_char("a.b.c", '.'), (2, 3));
    assert_eq!(scan_char("..", '.'), (2, 1));
    assert_eq!(scan_char("\u{5e9}.\u{5dd}", '.'), (1, 1));
    assert_eq!(scan_char("abc", '.').0, 0);
    assert_eq!(scan_char("", '.').0, 0);
}
