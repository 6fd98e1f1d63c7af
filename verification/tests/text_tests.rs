use wordguess::catalog::{derived_row_ok, weighted_row_ok, CorpusRow, DerivedRow, QuestionCatalog};
use wordguess::numfmt::u64_to_string;
use wordguess::question::Question;
use wordguess::router::Locale;
use wordguess::text::{contains_str, keep_alnum_space, normalize_text, str_eq, trim_str};

#[test]
fn decimal_rendering() {
    assert_eq!(u64_to_string(0), "0");
    assert_eq!(u64_to_string(7), "7");
    assert_eq!(u64_to_string(907), "907");
    assert_eq!(u64_to_string(120050), "120050");
}

#[test]
fn trimming_strips_unicode_whitespace() {
    assert_eq!(trim_str("  привіт\t\n"), "привіт");
    assert_eq!(trim_str("ціле"), "ціле");
    assert_eq!(trim_str("   "), "");
}

#[test]
fn normalization_lowers_and_removes_spaces() {
    assert_eq!(normalize_text("  За Мок Тут  "), "замоктут");
    assert_eq!(normalize_text("ABC def"), "abcdef");
}

#[test]
fn alnum_filter_keeps_letters_digits_spaces() {
    assert_eq!(keep_alnum_space("a.b c!2"), "ab c2");
    assert_eq!(keep_alnum_space("(лише) слова."), "лише слова");
}

#[test]
fn substring_search() {
    assert!(contains_str("абвгд", "вг"));
    assert!(!contains_str("абвгд", "га"));
    assert!(contains_str("абвгд", ""));
    assert!(str_eq("замок", "замок"));
    assert!(!str_eq("замок", "замк"));
}

#[test]
fn corpus_answer_is_unquoted_and_lowered() {
    let q = Question::from_corpus_row("означення".to_string(), "\"Замок\"", 4);
    assert_eq!(q.answer, "замок");
    assert_eq!(q.question, "означення");
    assert_eq!(q.score, 4);
}

#[test]
fn derived_prompt_is_cleaned_and_answer_lowered() {
    let q = Question::from_derived_row("A fine answer.  Extra, words!", "WORD");
    assert_eq!(q.question, "A fine answer Extra words");
    assert_eq!(q.answer, "word");
    assert!(q.score >= 1 && q.score < 5);
}

#[test]
fn question_line_strips_bold_markers() {
    let q = Question::new("Те саме, що [B]хата[/B]".to_string(), "дім".to_string(), 2);
    assert_eq!(q.display_line(Locale::Uk), "**Те саме, що хата** (3 літер) [+2]");
    let e = Question::new("a dwelling".to_string(), "house".to_string(), 1);
    assert_eq!(e.display_line(Locale::En), "**a dwelling** (5 letters) [1 point(s)]");
}

#[test]
fn weighted_rows_are_filtered() {
    assert!(weighted_row_ok("гарне означення", 3));
    assert!(!weighted_row_ok("", 3));
    assert!(!weighted_row_ok("(дужки навколо)", 3));
    assert!(!weighted_row_ok("Те саме, що інше", 3));
    assert!(!weighted_row_ok("гарне означення", -1));
    let rows = vec![
        CorpusRow { word: "замок".to_string(), text: "фортеця або укріплення".to_string(), weight: 3 },
        CorpusRow { word: "інше".to_string(), text: "Те саме, що щось".to_string(), weight: 1 },
        CorpusRow { word: "ще".to_string(), text: "(пояснення)".to_string(), weight: 1 },
    ];
    let cat = QuestionCatalog::from_weighted_rows(&rows);
    assert_eq!(cat.len(), 1);
    assert_eq!(cat.questions[0].answer, "замок");
}

#[test]
fn derived_rows_are_filtered() {
    assert!(derived_row_ok("a long enough definition", "word"));
    assert!(!derived_row_ok("short", "word"));
    assert!(!derived_row_ok("of the same kind", "word"));
    assert!(!derived_row_ok("See the other entry", "word"));
    assert!(!derived_row_ok("OF anything else", "word"));
    assert!(!derived_row_ok("contains the word itself", "word"));
    let rows = vec![
        DerivedRow { word: "lynx".to_string(), text: "a wild feline of the north".to_string() },
        DerivedRow { word: "dog".to_string(), text: "See hound".to_string() },
    ];
    let cat = QuestionCatalog::from_derived_rows(&rows);
    assert_eq!(cat.len(), 1);
    assert_eq!(cat.questions[0].answer, "lynx");
}
