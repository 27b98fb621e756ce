use syllables::corpus::{get_escape, get_script, make_word, words_of_line, cool_word, Escape, Script};
use syllables::escape::{decode_html_entity, decode_json_escape, unescape_line};
use syllables::label::{char_to_string, code_point_label, friendly};
use syllables::names::indic_name;

#[test]
fn script_and_escape_names() {
    assert_eq!(get_script("hi"), Some(Script::Devanagari));
    assert_eq!(get_script("pa"), Some(Script::Gurmukhi));
    assert_eq!(get_script("my"), Some(Script::Myanmar));
    assert_eq!(get_script("xx"), None);
    assert_eq!(get_escape("none"), Some(Escape::Plain));
    assert_eq!(get_escape("json"), Some(Escape::Json));
    assert_eq!(get_escape("html"), Some(Escape::Html));
    assert_eq!(get_escape("JSON"), None);
}

#[test]
fn words_are_split_filtered_and_trimmed() {
    let line = "abc \u{0915}\u{093F}\u{0924}\u{093E}\u{092C}, \u{0301}\u{0915}  \u{0951} \u{25CC}";
    assert_eq!(words_of_line(Script::Devanagari, line), vec![
            "\u{0915}\u{093F}\u{0924}\u{093E}\u{092C}".to_string(),
            "\u{0915}".to_string(),
            "\u{0951}".to_string(),
        ]);
    assert_eq!(words_of_line(Script::Bengali, line), Vec::<String>::new());
}

#[test]
fn extraction_is_idempotent() {
    let line = "x\u{0301}\u{0995}\u{09BE} y \u{0995}\u{200D}";
    let words = words_of_line(Script::Bengali, line);
    assert_eq!(words.len(), 2);
    for w in &words {
        assert_eq!(&words_of_line(Script::Bengali, w), &vec![w.clone()]);
    }
}

#[test]
fn cool_word_and_make_word() {
    let w: Vec<char> = "\u{0300}\u{0301}\u{0B95}".chars().collect();
    assert!(cool_word(Script::Tamil, &w));
    assert!(!cool_word(Script::Telugu, &w));
    assert_eq!(make_word(&w), "\u{0B95}");
}

#[test]
fn json_escape_keeps_the_character_before() {
    assert_eq!(decode_json_escape("a\\u0915"), "a\u{0915}");
    assert_eq!(decode_json_escape("a\\uD800"), "a ");
    assert_eq!(decode_json_escape("abc"), "abc");
    assert_eq!(unescape_line(Escape::Json, "x:\\u0915\\u093F!"), "x:\u{0915}\\u093F!");
    assert_eq!(unescape_line(Escape::Json, "\\u0915"), "\\u0915");
}

#[test]
fn html_references_are_decoded() {
    assert_eq!(decode_html_entity("&zwj;"), "\u{200D}");
    assert_eq!(decode_html_entity("&zwnj;"), "\u{200C}");
    assert_eq!(decode_html_entity("&#2325;"), "\u{0915}");
    assert_eq!(decode_html_entity("&#;"), " ");
    assert_eq!(decode_html_entity("&#55296;"), " ");
    assert_eq!(decode_html_entity("&#99999999999;"), " ");
    assert_eq!(unescape_line(Escape::Html, "a&#2325;&zwj;b&zwnj;"), "a\u{0915}\u{200D}b\u{200C}");
    assert_eq!(unescape_line(Escape::Plain, "a&#2325;"), "a&#2325;");
}

#[test]
fn code_point_labels() {
    assert_eq!(code_point_label('\u{0915}'), "U+915");
    assert_eq!(code_point_label('\u{0}'), "U+0");
    assert_eq!(code_point_label('\u{111E1}'), "U+111E1");
}

#[test]
fn names_and_friendly_labels() {
    assert_eq!(indic_name('\u{0915}'), Some("Ka"));
    assert_eq!(indic_name('\u{0902}'), Some("Anusvara"));
    assert_eq!(indic_name('A'), None);
    assert_eq!(char_to_string('\u{0915}'), "Ka");
    assert_eq!(char_to_string('A'), "U+41");
    assert_eq!(friendly("\u{0915}\u{094D}x"), format!("[Ka] + [{}] + [U+78]", indic_name('\u{094D}').unwrap()));
    assert_eq!(friendly(""), "");
}
