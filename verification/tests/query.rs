use global_search::builder::IndexBuilder;
use global_search::dispatch::answer;
use global_search::document::IndexedDocument;
use global_search::error::ParseFault;
use global_search::error::SearchError;
use global_search::executor::QueryExecutor;
use global_search::query::admits;
use global_search::query::MAX_DEPTH;
use global_search::query::MAX_NEGATION_RUN;

fn executor() -> QueryExecutor {
    let builder = IndexBuilder::new().unwrap();
    let builder = builder
        .add_document(&IndexedDocument {
            book: "nomicon".to_string(),
            section: "intro.html".to_string(),
            title: "Introduction".to_string(),
            breadcrumbs: "Introduction".to_string(),
            body: "the dark arts of unsafe code".to_string(),
        })
        .unwrap();
    QueryExecutor::new(&builder.finish().unwrap())
}

#[test]
fn ordinary_queries_are_admitted() {
    assert!(admits(""));
    assert!(admits("ownership"));
    assert!(admits("ownership borrow"));
    assert!(admits("+ownership -borrow"));
    assert!(admits("(threads OR channels) AND NOT atomics"));
    assert!(admits("\"data races\""));
    assert!(admits("title:ownership body:\"borrow scopes\"~2"));
    assert!(admits("café 日本語"));
    assert!(admits("it's a query"));
}

#[test]
fn a_star_is_admitted_where_no_sign_and_white_space_stand_before_it() {
    assert!(admits("*"));
    assert!(admits("+*"));
    assert!(admits("-*"));
    assert!(admits("title:*"));
    assert!(admits("title: *"));
    assert!(admits("\"dark ar\"*"));
    assert!(admits("unsaf*"));
    assert!(admits("* unsafe"));
    assert!(admits("unsafe *"));
    assert!(admits("unsafe AND  *"));
    assert!(admits("a\t*"));
    assert!(admits(" *"));
    assert!(admits("+a *"));
    assert!(admits("+ a*"));
    assert!(admits("\"a *\""));
    assert!(admits("\"+ *\""));
    assert!(admits("x \"say \\\" + *\" y"));
}

#[test]
fn a_star_behind_a_sign_and_white_space_is_refused() {
    assert!(!admits("+ *"));
    assert!(!admits("- *"));
    assert!(!admits("+  \t\n *"));
    assert!(!admits("-\t*"));
    assert!(!admits("-\r*"));
    assert!(!admits("unsafe + *"));
    assert!(!admits("(+ *)"));
    assert!(!admits("\"phrase\" - *"));
    assert!(!admits("\\+ *"));
    assert!(!admits("it's + *"));
    assert!(!admits("it's \"+ *\""));
}

#[test]
fn groups_are_admitted_up_to_eight_open_at_once() {
    assert_eq!(MAX_DEPTH, 8);
    let eight = format!("{}x{}", "(".repeat(8), ")".repeat(8));
    let nine = format!("{}x{}", "(".repeat(9), ")".repeat(9));
    assert!(admits(&eight));
    assert!(!admits(&nine));
    assert!(admits("(a) (b) (c) (d) (e) (f) (g) (h) (i) (j) (k)"));
    assert!(admits(&"((a) (b)) ".repeat(40)));
    assert!(admits(&format!("{}{}", eight, eight)));
    assert!(!admits(&format!("(a) {}", nine)));
    assert!(!admits("((((((((("));
    assert!(admits(")))))))))))))"));
    assert!(!admits(&format!("{}{}", ")".repeat(20), "(".repeat(9))));
    assert!(admits(&format!("title:(a b) {}", eight)));
}

#[test]
fn parentheses_in_a_phrase_are_no_groups() {
    assert!(admits("\"(((((((((\""));
    assert!(admits("\"(((((((((\" (a) \")))))))))\""));
    assert!(admits("\"a \\\" (((((((((\" (b)"));
    let eight = format!("{}x{}", "(".repeat(8), ")".repeat(8));
    assert!(admits(&format!("\"(\" {}", eight)));
    assert!(!admits(&format!("( \")\" {}", eight)));
    assert!(!admits(&format!("(\\) {}", eight)));
    assert!(!admits(&format!("\\( {}", eight)));
}

#[test]
fn behind_a_single_quote_every_opening_parenthesis_counts() {
    assert!(admits("it's (a) (b) (c) (d) (e) (f) (g) (h)"));
    assert!(!admits("it's (a) (b) (c) (d) (e) (f) (g) (h) (i)"));
    assert!(!admits("'a' \"(((((((((\""));
    assert!(admits("(a) (b) (c) (d) (e) (f) (g) (h) (i) it's"));
    assert!(admits("\"it's\" (a) (b) (c) (d) (e) (f) (g) (h) (i)"));
}

#[test]
fn the_word_not_is_admitted_up_to_eight_times_in_a_row() {
    assert_eq!(MAX_NEGATION_RUN, 8);
    let eight = format!("{}x", "NOT ".repeat(8));
    let nine = format!("{}x", "NOT ".repeat(9));
    assert!(admits(&eight));
    assert!(!admits(&nine));
    assert!(!admits(&format!("a AND ({})", nine)));
    assert!(!admits(&"NOT\t \n".repeat(9)));
    assert!(!admits(&"NOT".repeat(9)));
    assert!(admits("a NOT b NOT c NOT d NOT e NOT f NOT g NOT h NOT i NOT j NOT k"));
    assert!(admits(&"NOTHING ".repeat(20)));
    assert!(admits(&format!("{}x {}y", "NOT ".repeat(8), "NOT ".repeat(8))));
    assert!(admits(&"nothing not Not nOT NO T N OT ".repeat(9)));
    assert!(admits(&format!("\"{}\"", "NOT ".repeat(20))));
    assert!(admits("NOT"));
}

#[test]
fn a_text_that_is_not_admitted_never_reaches_the_parser() {
    let executor = executor();
    for raw in ["+ *", "- *", "unsafe - *", "((((((((((unsafe))))))))))"] {
        assert!(matches!(executor.parse(raw), Err(SearchError::QueryParse(ParseFault::Refused))));
        assert!(matches!(executor.execute(raw), Err(SearchError::QueryParse(ParseFault::Refused))));
    }
    let nested = format!("{}unsafe{}", "(".repeat(5000), ")".repeat(5000));
    assert!(matches!(executor.execute(&nested), Err(SearchError::QueryParse(ParseFault::Refused))));
    let negated = format!("{}unsafe", "NOT ".repeat(5000));
    assert!(matches!(executor.execute(&negated), Err(SearchError::QueryParse(ParseFault::Refused))));
}

#[test]
fn a_text_that_the_parser_refuses_carries_the_parsers_error() {
    let executor = executor();
    assert!(matches!(executor.parse("title:["), Err(SearchError::QueryParse(ParseFault::Parser(_)))));
    assert!(matches!(executor.parse("nosuchfield:x"), Err(SearchError::QueryParse(ParseFault::Parser(_)))));
    assert!(matches!(executor.parse("(unsafe"), Err(SearchError::QueryParse(ParseFault::Parser(_)))));
}

#[test]
fn admitted_texts_at_the_limits_are_answered() {
    let executor = executor();
    let grouped = format!("{}unsafe{}", "(".repeat(8), ")".repeat(8));
    assert!(executor.execute(&grouped).unwrap().contains("intro.html"));
    assert!(executor.execute("+*").unwrap().contains("intro.html"));
    assert!(executor.execute("* unsafe").unwrap().contains("intro.html"));
    assert!(executor.execute("unsafe *").unwrap().contains("intro.html"));
    assert!(executor.execute("(unsafe) (dark) (arts) (code) (the) (of) (unsafe) (dark) (arts)").unwrap().contains("intro.html"));
    assert!(executor
        .execute("unsafe NOT a1 NOT a2 NOT a3 NOT a4 NOT a5 NOT a6 NOT a7 NOT a8 NOT a9")
        .unwrap()
        .contains("intro.html"));
    let negated = format!("unsafe {}missing", "NOT ".repeat(8));
    assert!(executor.execute(&negated).is_ok());
    assert_eq!(executor.execute("\"(((((((((\"").unwrap(), "[]\n");
}

#[test]
fn a_refused_text_is_answered_as_a_failed_search() {
    let response = answer(&executor(), "query=%2B%20*");
    assert_eq!(response.status, 500);
    assert_eq!(response.reason, Some("Error executing search query"));
    assert_eq!(response.body, "");
}

#[test]
fn admitted_texts_do_not_bring_the_parser_down() {
    let executor = executor();
    let pieces: Vec<&str> = vec![
        "+", "-", "*", "(", ")", ":", "\"", "'", "[", "]", "{", "}", "^", "~", " ", "\t", "NOT", "AND", "OR", "IN",
        "TO", "<", ">", "=", "a", "title", "body", "book", ".", "1", "\\", "é", "\n", ",", "!", "?", "/", "0.5",
        "AND ", "OR ", "NOT ", "title:", "nosuch:", "\u{a0}", "%", "unsafe", "\"dark arts\"", "  ", "+(", "-(",
        "+ ", "- ", " *", "* ", "\\+", "'a'",
    ];
    let mut state: u64 = 0x9e37_79b9_7f4a_7c15;
    let mut next = move || {
        state = state.wrapping_add(0x9e37_79b9_7f4a_7c15);
        let mut z = state;
        z = (z ^ (z >> 30)).wrapping_mul(0xbf58_476d_1ce4_e5b9);
        z = (z ^ (z >> 27)).wrapping_mul(0x94d0_49bb_1331_11eb);
        z ^ (z >> 31)
    };
    let mut admitted = 0;
    let mut refused = 0;
    for _ in 0..60_000 {
        let len = 1 + (next() % 10) as usize;
        let mut text = String::new();
        for _ in 0..len {
            text.push_str(pieces[(next() % pieces.len() as u64) as usize]);
        }
        if admits(&text) {
            admitted += 1;
            let _ = executor.execute(&text);
        } else {
            refused += 1;
            assert!(matches!(executor.parse(&text), Err(SearchError::QueryParse(ParseFault::Refused))));
        }
    }
    assert!(admitted > 30_000);
    assert!(refused > 0);
}

fn has_sign_space_star(text: &str) -> bool {
    let bytes = text.as_bytes();
    (0..bytes.len()).any(|i| {
        (bytes[i] == b'+' || bytes[i] == b'-') && {
            let spaces = bytes[i + 1..].iter().take_while(|b| **b == b' ' || **b == b'\t').count();
            spaces > 0 && bytes.get(i + 1 + spaces) == Some(&b'*')
        }
    })
}

#[test]
fn every_short_admitted_text_is_taken_or_refused_by_the_parser() {
    let executor = executor();
    let alphabet = ['+', '-', '*', ' ', 'a', '(', ')', '"', ':', '\\', '\'', '\t'];
    let mut texts: Vec<String> = vec![String::new()];
    let mut admitted = 0;
    let mut refused = 0;
    for _ in 0..5 {
        let mut longer = Vec::with_capacity(texts.len() * alphabet.len());
        for text in &texts {
            for c in alphabet {
                let mut next = text.clone();
                next.push(c);
                if admits(&next) {
                    admitted += 1;
                    let _ = executor.parse(&next);
                } else {
                    refused += 1;
                    assert!(has_sign_space_star(&next), "refused: {:?}", next);
                }
                longer.push(next);
            }
        }
        texts = longer;
    }
    assert_eq!(admitted + refused, 12 + 144 + 1728 + 20736 + 248832);
    assert!(refused > 0);
}
