use merc::diagnostic::LexError;
use merc::diagnostic::LexErrorKind;
use merc::diagnostic::Severity;
use merc::diagnostic::Span;
use merc::lexer::Token;
use merc::Lexer;
use merc::TokenKind;

fn lex_all(source: &str) -> Vec<Result<Token, LexError>> {
    let mut lexer = Lexer::new(source);
    let mut out = Vec::new();
    while let Some(item) = lexer.next() {
        out.push(item);
    }
    out
}

fn kinds(source: &str) -> Vec<TokenKind> {
    lex_all(source).into_iter().map(|item| item.unwrap().kind).collect()
}

#[test]
fn trailing_decimal_point_is_a_separate_dot() {
    assert_eq!(kinds("3."), vec![TokenKind::Number("3".to_string()), TokenKind::Dot]);
}

#[test]
fn trailing_decimal_point_positions() {
    let tokens = lex_all("3.");
    assert_eq!(
        tokens[0],
        Ok(Token { kind: TokenKind::Number("3".to_string()), row: 1, column: 1, index: 2 })
    );
    assert_eq!(tokens[1], Ok(Token { kind: TokenKind::Dot, row: 1, column: 2, index: 3 }));
    assert_eq!(tokens.len(), 2);
}

#[test]
fn unterminated_string_spans_from_quote_to_end() {
    let items = lex_all("\"abc");
    assert_eq!(items.len(), 1);
    let error = items[0].clone().unwrap_err();
    assert_eq!(error.kind, LexErrorKind::UnterminatedString);
    assert_eq!(error.span, Span { offset: 0, length: 4 });
    assert_eq!(error.severity(), Severity::Error);
    assert_eq!(error.label(), "Unterminated string");
    assert_eq!(error.help(), "this string is not terminated");
    assert_eq!(error.message(), "Unterminated string: at line: 1 column: 4 character: \"");
}

fn tok(kind: TokenKind, row: usize, column: usize, index: usize) -> Result<Token, LexError> {
    Ok(Token { kind, row, column, index })
}

fn ident(name: &str) -> TokenKind {
    TokenKind::Identifier(name.to_string())
}

fn num(text: &str) -> TokenKind {
    TokenKind::Number(text.to_string())
}

#[test]
fn empty_input_yields_nothing() {
    assert!(lex_all("").is_empty());
    assert!(lex_all("    ").is_empty());
    let mut lexer = Lexer::new("x");
    assert!(lexer.next().is_some());
    assert!(lexer.next().is_none());
    assert!(lexer.next().is_none());
}

#[test]
fn punctuation_is_one_token_each() {
    assert_eq!(
        kinds("(){}[],.-+;*/"),
        vec![
            TokenKind::LeftParen,
            TokenKind::RightParen,
            TokenKind::LeftBrace,
            TokenKind::RightBrace,
            TokenKind::LeftBracket,
            TokenKind::RightBracket,
            TokenKind::Comma,
            TokenKind::Dot,
            TokenKind::Minus,
            TokenKind::Plus,
            TokenKind::Semicolon,
            TokenKind::Star,
            TokenKind::Slash,
        ]
    );
}

#[test]
fn punctuation_positions_count_spaces_as_columns() {
    assert_eq!(
        lex_all("( )"),
        vec![tok(TokenKind::LeftParen, 1, 1, 2), tok(TokenKind::RightParen, 1, 3, 4)]
    );
}

#[test]
fn a_lone_slash_is_division() {
    assert_eq!(kinds("a / b"), vec![ident("a"), TokenKind::Slash, ident("b")]);
}

#[test]
fn a_comment_runs_through_the_line_feed() {
    assert_eq!(kinds("// note\nlet"), vec![TokenKind::Let]);
    assert_eq!(lex_all("// note\nlet"), vec![tok(TokenKind::Let, 2, 3, 12)]);
    assert_eq!(kinds("a // note\nb"), vec![ident("a"), ident("b")]);
    assert!(lex_all("// only a comment").is_empty());
    assert!(lex_all("//").is_empty());
}

#[test]
fn line_breaks_are_tokens() {
    assert_eq!(
        lex_all("\n"),
        vec![tok(TokenKind::NewLine, 2, 1, 2)]
    );
    assert_eq!(
        lex_all("\r\n"),
        vec![tok(TokenKind::NewLine, 2, 1, 3)]
    );
    assert_eq!(
        lex_all("\r"),
        vec![tok(TokenKind::NewLine, 2, 1, 2)]
    );
    assert_eq!(
        lex_all("a\nb"),
        vec![tok(ident("a"), 1, 1, 2), tok(TokenKind::NewLine, 2, 1, 3), tok(ident("b"), 2, 2, 4)]
    );
}

#[test]
fn operators_look_ahead_for_an_equal_sign() {
    assert_eq!(
        kinds("a = b == c ! d != e < f <= g > h >= i"),
        vec![
            ident("a"),
            TokenKind::Equal,
            ident("b"),
            TokenKind::EqualEqual,
            ident("c"),
            TokenKind::Bang,
            ident("d"),
            TokenKind::BangEqual,
            ident("e"),
            TokenKind::Less,
            ident("f"),
            TokenKind::LessEqual,
            ident("g"),
            TokenKind::Greater,
            ident("h"),
            TokenKind::GreaterEqual,
            ident("i"),
        ]
    );
    assert_eq!(kinds("="), vec![TokenKind::Equal]);
    assert_eq!(kinds("=="), vec![TokenKind::EqualEqual]);
    assert_eq!(kinds("==="), vec![TokenKind::EqualEqual, TokenKind::Equal]);
    assert_eq!(kinds("= =="), vec![TokenKind::EqualEqual, TokenKind::Equal]);
}

#[test]
fn operators_read_over_spaces_before_the_equal_sign() {
    assert_eq!(kinds("=  ="), vec![TokenKind::EqualEqual]);
    assert_eq!(kinds("! ="), vec![TokenKind::BangEqual]);
    assert_eq!(kinds("<   ="), vec![TokenKind::LessEqual]);
    assert_eq!(kinds("> ="), vec![TokenKind::GreaterEqual]);
    assert_eq!(kinds("a < b"), vec![ident("a"), TokenKind::Less, ident("b")]);
    assert_eq!(kinds("x = 5"), vec![ident("x"), TokenKind::Equal, num("5")]);
    assert_eq!(lex_all("< ="), vec![tok(TokenKind::LessEqual, 1, 1, 4)]);
    assert_eq!(lex_all("<"), vec![tok(TokenKind::Less, 1, 1, 2)]);
}

#[test]
fn strings_hold_their_text() {
    assert_eq!(kinds("\"hi\""), vec![TokenKind::String("hi".to_string())]);
    assert_eq!(kinds("\"\""), vec![TokenKind::String(String::new())]);
    assert_eq!(lex_all("\"hi\""), vec![tok(TokenKind::String("hi".to_string()), 1, 4, 5)]);
    assert_eq!(kinds("\"h\u{e9}llo w\u{f6}rld\""), vec![TokenKind::String("h\u{e9}llo w\u{f6}rld".to_string())]);
}

#[test]
fn a_line_feed_in_a_string_begins_a_new_line() {
    assert_eq!(
        lex_all("\"a\nb\" x"),
        vec![
            tok(TokenKind::String("a\nb".to_string()), 2, 3, 6),
            tok(ident("x"), 2, 4, 8),
        ]
    );
}

#[test]
fn unterminated_string_after_other_tokens() {
    let items = lex_all("let s = \"abc\ndef");
    assert_eq!(items.len(), 4);
    assert_eq!(
        items[3],
        Err(LexError {
            kind: LexErrorKind::UnterminatedString,
            span: Span { offset: 8, length: 8 },
            line: 2,
            column: 4,
            character: '"',
        })
    );
}

#[test]
fn numbers_take_one_decimal_point_with_digits_behind_it() {
    assert_eq!(kinds("3.14"), vec![num("3.14")]);
    assert_eq!(kinds("007"), vec![num("007")]);
    assert_eq!(kinds("3.x"), vec![num("3"), TokenKind::Dot, ident("x")]);
    assert_eq!(kinds("3.."), vec![num("3"), TokenKind::Dot, TokenKind::Dot]);
    assert_eq!(kinds("3.1.4"), vec![num("3.1"), TokenKind::Dot, num("4")]);
    assert_eq!(kinds("1. 2."), vec![num("1"), TokenKind::Dot, num("2"), TokenKind::Dot]);
    assert_eq!(kinds("12ab"), vec![num("12"), ident("ab")]);
    assert_eq!(lex_all("3.14"), vec![tok(num("3.14"), 1, 4, 5)]);
    assert_eq!(
        lex_all("12 3"),
        vec![tok(num("12"), 1, 2, 3), tok(num("3"), 1, 4, 5)]
    );
}

#[test]
fn keywords_are_told_from_identifiers() {
    assert_eq!(
        kinds("and class else false func for if nil or return super this true let while"),
        vec![
            TokenKind::And,
            TokenKind::Class,
            TokenKind::Else,
            TokenKind::False,
            TokenKind::Fun,
            TokenKind::For,
            TokenKind::If,
            TokenKind::Nil,
            TokenKind::Or,
            TokenKind::Return,
            TokenKind::Super,
            TokenKind::This,
            TokenKind::True,
            TokenKind::Let,
            TokenKind::While,
        ]
    );
    assert_eq!(
        kinds("fun Let lets _x x_1 iff"),
        vec![ident("fun"), ident("Let"), ident("lets"), ident("_x"), ident("x_1"), ident("iff")]
    );
}

#[test]
fn identifiers_continue_over_alphanumeric_characters() {
    assert_eq!(kinds("caf\u{e9}2 x"), vec![ident("caf\u{e9}2"), ident("x")]);
    assert_eq!(kinds("a-b"), vec![ident("a"), TokenKind::Minus, ident("b")]);
}

#[test]
fn the_column_stays_behind_a_keyword() {
    assert_eq!(
        lex_all("ab cd"),
        vec![tok(ident("ab"), 1, 2, 3), tok(ident("cd"), 1, 5, 6)]
    );
    assert_eq!(
        lex_all("if cd"),
        vec![tok(TokenKind::If, 1, 2, 3), tok(ident("cd"), 1, 4, 6)]
    );
}

#[test]
fn an_unexpected_character_is_an_error_and_lexing_goes_on() {
    let items = lex_all("a @ b");
    assert_eq!(items.len(), 3);
    assert_eq!(items[0], tok(ident("a"), 1, 1, 2));
    let error = items[1].clone().unwrap_err();
    assert_eq!(
        error,
        LexError {
            kind: LexErrorKind::UnexpectedCharacter,
            span: Span { offset: 2, length: 1 },
            line: 1,
            column: 3,
            character: '@',
        }
    );
    assert_eq!(error.label(), "Unexpected character");
    assert_eq!(error.help(), "Please use valid characters");
    assert_eq!(error.severity(), Severity::Error);
    assert_eq!(error.message(), "Unexpected character: at line: 1 column: 3 character: @");
    assert_eq!(items[2], tok(ident("b"), 1, 5, 6));
    assert!(lex_all("\t")[0].is_err());
    assert!(lex_all("\u{e9}")[0].is_err());
}

#[test]
fn messages_write_numbers_in_decimal() {
    let error = LexError {
        kind: LexErrorKind::UnexpectedCharacter,
        span: Span { offset: 0, length: 1 },
        line: 120,
        column: 1007,
        character: '#',
    };
    assert_eq!(error.message(), "Unexpected character: at line: 120 column: 1007 character: #");
    let zero = LexError { line: 0, column: 10, ..error };
    assert_eq!(zero.message(), "Unexpected character: at line: 0 column: 10 character: #");
}

#[test]
fn kinds_render_as_their_names() {
    assert_eq!(TokenKind::LeftParen.to_string(), "LeftParen");
    assert_eq!(TokenKind::EOF.to_string(), "EOF");
    assert_eq!(TokenKind::NewLine.to_string(), "NewLine");
    assert_eq!(TokenKind::BangEqual.to_string(), "BangEqual");
    assert_eq!(TokenKind::Fun.to_string(), "Fun");
    assert_eq!(TokenKind::While.to_string(), "While");
    assert_eq!(TokenKind::String("a b".to_string()).to_string(), "String(a b)");
    assert_eq!(TokenKind::Number("3.5".to_string()).to_string(), "Number(3.5)");
    assert_eq!(TokenKind::Identifier("count".to_string()).to_string(), "count");
    let token = Token { kind: TokenKind::Number("1".to_string()), row: 4, column: 2, index: 9 };
    assert_eq!(token.to_string(), "Number(1)");
}

#[test]
fn kinds_compare_by_kind_and_text() {
    assert!(TokenKind::Plus.same(&TokenKind::Plus));
    assert!(!TokenKind::Plus.same(&TokenKind::Minus));
    assert!(ident("a").same(&ident("a")));
    assert!(!ident("a").same(&ident("b")));
    assert!(!ident("1").same(&num("1")));
    assert_eq!(ident("a").clone(), ident("a"));
}
