//! The lexer: which tokens a text holds, and a cursor that reads them.
//!
//! Identifiers and integer literals are runs of characters that match a
//! pattern each. The patterns are asked of the `regex` crate; what it
//! answers is named (`regex_search`), and the tokens are stated over that name.

use crate::lexer::token::{Token, TokenKind, TokenView};
use vstd::prelude::*;
use vstd::string::StringExecFns;

verus! {

/// `String::push` appends one character to the string.
pub assume_specification[ std::string::String::push ](text: &mut std::string::String, c: char)
    ensures
        final(text)@ == old(text)@.push(c),
;

/// What the `regex` crate answers when `pattern` is compiled with
/// `Regex::new` and the compiled expression is asked with `Regex::is_match`
/// whether `text` holds a match: `None` where the pattern does not compile.
pub uninterp spec fn regex_search(pattern: Seq<char>, text: Seq<char>) -> Option<bool>;

/// Compiles `pattern` with `regex::Regex::new` and asks with
/// `Regex::is_match` whether the text made of the one character `c` holds a
/// match. Both depend on the pattern and the text alone, so the answer is
/// the named one; nothing more is claimed of it.
#[verifier::external_body]
fn pattern_matches(pattern: &str, c: char) -> (found: Option<bool>)
    ensures
        found == regex_search(pattern@, seq![c]),
{
    match regex::Regex::new(pattern) {
        Ok(expression) => Some(expression.is_match(c.encode_utf8(&mut [0u8; 4]))),
        Err(_) => None,
    }
}

/// What a character can begin, apart from the symbols.
#[derive(Clone, Copy, Debug, PartialEq, Eq, Structural)]
pub enum CharClass {
    /// It begins an identifier or a keyword.
    Letter,
    /// It begins an integer literal.
    Digit,
    /// It begins neither.
    Other,
}

/// The pattern of the characters that identifiers are made of.
pub open spec fn identifier_pattern() -> Seq<char> {
    "[a-zA-Z_]"@
}

/// The pattern of the characters that integer literals are made of.
pub open spec fn integer_pattern() -> Seq<char> {
    "[0-9]"@
}

/// Whether `c` matches `pattern`.
pub open spec fn matches(pattern: Seq<char>, c: char) -> bool {
    regex_search(pattern, seq![c]) == Some(true)
}

/// The class that the answers of the two patterns give a character: the
/// identifier pattern is asked first.
pub open spec fn class_from(identifier: Option<bool>, integer: Option<bool>) -> CharClass {
    if identifier == Some(true) {
        CharClass::Letter
    } else if integer == Some(true) {
        CharClass::Digit
    } else {
        CharClass::Other
    }
}

/// The class of `c`.
pub open spec fn class_of(c: char) -> CharClass {
    class_from(
        regex_search(identifier_pattern(), seq![c]),
        regex_search(integer_pattern(), seq![c]),
    )
}

/// Whether `c` separates tokens without being one.
pub open spec fn is_skip(c: char) -> bool {
    c == ' ' || c == '\n' || c == '\t' || c == '\r'
}

/// The first position from `pos` on that holds no separator.
pub open spec fn skipped(chars: Seq<char>, pos: int) -> int
    decreases chars.len() - pos,
{
    if 0 <= pos < chars.len() && is_skip(chars[pos]) {
        skipped(chars, pos + 1)
    } else {
        pos
    }
}

/// The first position from `pos` on that holds no character matching `pattern`.
pub open spec fn run_end(chars: Seq<char>, pos: int, pattern: Seq<char>) -> int
    decreases chars.len() - pos,
{
    if 0 <= pos < chars.len() && matches(pattern, chars[pos]) {
        run_end(chars, pos + 1, pattern)
    } else {
        pos
    }
}

/// The first position from `pos` on that holds a double quote, or the end.
pub open spec fn quote_end(chars: Seq<char>, pos: int) -> int
    decreases chars.len() - pos,
{
    if 0 <= pos < chars.len() && chars[pos] != '"' {
        quote_end(chars, pos + 1)
    } else {
        pos
    }
}

/// The keyword that `word` is, if it is one.
pub open spec fn keyword(word: Seq<char>) -> Option<TokenKind> {
    if word == "fn"@ {
        Some(TokenKind::Function)
    } else if word == "let"@ {
        Some(TokenKind::Let)
    } else if word == "true"@ {
        Some(TokenKind::True)
    } else if word == "false"@ {
        Some(TokenKind::False)
    } else if word == "if"@ {
        Some(TokenKind::If)
    } else if word == "else"@ {
        Some(TokenKind::Else)
    } else if word == "ret"@ {
        Some(TokenKind::Return)
    } else if word == "err"@ {
        Some(TokenKind::Error)
    } else if word == "while"@ {
        Some(TokenKind::While)
    } else {
        None
    }
}

/// The token that a word is: a keyword, or an identifier.
pub open spec fn word_token(word: Seq<char>) -> TokenView {
    match keyword(word) {
        Some(kind) => TokenView::plain(kind),
        None => TokenView { kind: TokenKind::Ident, text: word },
    }
}

/// The symbol that `current` begins, given the character behind it: its
/// kind, and whether it takes the character behind it too. `None` where
/// `current` begins no symbol.
pub open spec fn symbol(current: char, next: Option<char>) -> Option<(TokenKind, bool)> {
    if current == '(' {
        Some((TokenKind::LParent, false))
    } else if current == ')' {
        Some((TokenKind::RParent, false))
    } else if current == '{' {
        Some((TokenKind::LBrace, false))
    } else if current == '}' {
        Some((TokenKind::RBrace, false))
    } else if current == '[' {
        Some((TokenKind::LBracket, false))
    } else if current == ']' {
        Some((TokenKind::RBracket, false))
    } else if current == '=' {
        if next == Some('=') {
            Some((TokenKind::Equal, true))
        } else {
            Some((TokenKind::Assign, false))
        }
    } else if current == '+' {
        Some((TokenKind::Plus, false))
    } else if current == '-' {
        Some((TokenKind::Minus, false))
    } else if current == '*' {
        Some((TokenKind::Asterisk, false))
    } else if current == '/' {
        Some((TokenKind::Slash, false))
    } else if current == '%' {
        Some((TokenKind::Modular, false))
    } else if current == '!' {
        if next == Some('=') {
            Some((TokenKind::NotEqual, true))
        } else {
            Some((TokenKind::Bang, false))
        }
    } else if current == '<' {
        if next == Some('=') {
            Some((TokenKind::Lte, true))
        } else {
            Some((TokenKind::Lt, false))
        }
    } else if current == '>' {
        if next == Some('=') {
            Some((TokenKind::Gte, true))
        } else {
            Some((TokenKind::Gt, false))
        }
    } else if current == '|' {
        if next == Some('|') {
            Some((TokenKind::Or, true))
        } else {
            Some((TokenKind::Illegal, false))
        }
    } else if current == '&' {
        if next == Some('&') {
            Some((TokenKind::And, true))
        } else {
            Some((TokenKind::Illegal, false))
        }
    } else if current == ',' {
        Some((TokenKind::Comma, false))
    } else if current == ';' {
        Some((TokenKind::Semicolon, false))
    } else {
        None
    }
}

/// A token, and the position behind it.
pub struct Lexed {
    pub token: TokenView,
    pub position: int,
}

/// The character at `pos`, if there is one.
pub open spec fn char_at(chars: Seq<char>, pos: int) -> Option<char> {
    if 0 <= pos < chars.len() {
        Some(chars[pos])
    } else {
        None
    }
}

/// The token that begins at `pos`, where a character stands that is no separator.
pub open spec fn token_at(chars: Seq<char>, pos: int) -> Lexed
    recommends
        0 <= pos < chars.len(),
{
    let current = chars[pos];
    match symbol(current, char_at(chars, pos + 1)) {
        Some((kind, double)) => Lexed {
            token: TokenView::plain(kind),
            position: if double {
                pos + 2
            } else {
                pos + 1
            },
        },
        None => if current == '"' {
            let end = quote_end(chars, pos + 1);
            Lexed {
                token: TokenView { kind: TokenKind::String, text: chars.subrange(pos + 1, end) },
                position: if end < chars.len() {
                    end + 1
                } else {
                    end
                },
            }
        } else {
            match class_of(current) {
                CharClass::Letter => {
                    let end = run_end(chars, pos, identifier_pattern());
                    Lexed { token: word_token(chars.subrange(pos, end)), position: end }
                },
                CharClass::Digit => {
                    let end = run_end(chars, pos, integer_pattern());
                    Lexed {
                        token: TokenView { kind: TokenKind::Int, text: chars.subrange(pos, end) },
                        position: end,
                    }
                },
                CharClass::Other => Lexed {
                    token: TokenView::plain(TokenKind::Illegal),
                    position: pos + 1,
                },
            }
        },
    }
}

/// The next token from `pos` on, behind the separators there, if any
/// character is left.
pub open spec fn next_token(chars: Seq<char>, pos: int) -> Option<Lexed> {
    let start = skipped(chars, pos);
    if 0 <= start < chars.len() {
        Some(token_at(chars, start))
    } else {
        None
    }
}

/// All tokens from `pos` on, and the end marker behind them.
pub open spec fn tokens_from(chars: Seq<char>, pos: int) -> Seq<TokenView>
    decreases chars.len() - pos,
{
    match next_token(chars, pos) {
        Some(lexed) => if pos < lexed.position <= chars.len() {
            seq![lexed.token] + tokens_from(chars, lexed.position)
        } else {
            seq![lexed.token, TokenView::plain(TokenKind::Eof)]
        },
        None => seq![TokenView::plain(TokenKind::Eof)],
    }
}

/// `skipped` moves forward, and not past the end.
pub proof fn lemma_skipped_bounds(chars: Seq<char>, pos: int)
    requires
        0 <= pos <= chars.len(),
    ensures
        pos <= skipped(chars, pos) <= chars.len(),
    decreases chars.len() - pos,
{
    if pos < chars.len() && is_skip(chars[pos]) {
        lemma_skipped_bounds(chars, pos + 1);
    }
}

/// The characters of `text`, in order.
pub fn characters(text: &str) -> (chars: Vec<char>)
    ensures
        chars@ == text@,
{
    let mut chars: Vec<char> = Vec::new();
    for c in it: text.chars()
        invariant
            chars@ == it.history(),
    {
        chars.push(c);
    }
    chars
}

/// The class that the answers of the two patterns give a character.
pub fn char_class(identifier: Option<bool>, integer: Option<bool>) -> (class: CharClass)
    ensures
        class == class_from(identifier, integer),
{
    match identifier {
        Some(true) => CharClass::Letter,
        _ => match integer {
            Some(true) => CharClass::Digit,
            _ => CharClass::Other,
        },
    }
}

/// The symbol that `current` begins, given the character behind it.
pub fn symbol_token(current: char, next: Option<char>) -> (found: Option<(Token, bool)>)
    ensures
        match symbol(current, next) {
            Some((kind, double)) => found matches Some((token, taken)) && token@
                == TokenView::plain(kind) && taken == double,
            None => found is None,
        },
{
    let follows_equal = match next {
        Some(c) => c == '=',
        None => false,
    };
    match current {
        '(' => Some((Token::LParent, false)),
        ')' => Some((Token::RParent, false)),
        '{' => Some((Token::LBrace, false)),
        '}' => Some((Token::RBrace, false)),
        '[' => Some((Token::LBracket, false)),
        ']' => Some((Token::RBracket, false)),
        '=' => if follows_equal {
            Some((Token::Equal, true))
        } else {
            Some((Token::Assign, false))
        },
        '+' => Some((Token::Plus, false)),
        '-' => Some((Token::Minus, false)),
        '*' => Some((Token::Asterisk, false)),
        '/' => Some((Token::Slash, false)),
        '%' => Some((Token::Modular, false)),
        '!' => if follows_equal {
            Some((Token::NotEqual, true))
        } else {
            Some((Token::Bang, false))
        },
        '<' => if follows_equal {
            Some((Token::Lte, true))
        } else {
            Some((Token::Lt, false))
        },
        '>' => if follows_equal {
            Some((Token::Gte, true))
        } else {
            Some((Token::Gt, false))
        },
        '|' => match next {
            Some('|') => Some((Token::Or, true)),
            _ => Some((Token::Illegal, false)),
        },
        '&' => match next {
            Some('&') => Some((Token::And, true)),
            _ => Some((Token::Illegal, false)),
        },
        ',' => Some((Token::Comma, false)),
        ';' => Some((Token::Semicolon, false)),
        _ => None,
    }
}

/// The token that a word is: a keyword, or an identifier.
pub fn keyword_or_identifier(word: String) -> (token: Token)
    ensures
        token@ == word_token(word@),
{
    if word == String::from_str("fn") {
        Token::Function
    } else if word == String::from_str("let") {
        Token::Let
    } else if word == String::from_str("true") {
        Token::True
    } else if word == String::from_str("false") {
        Token::False
    } else if word == String::from_str("if") {
        Token::If
    } else if word == String::from_str("else") {
        Token::Else
    } else if word == String::from_str("ret") {
        Token::Return
    } else if word == String::from_str("err") {
        Token::Error
    } else if word == String::from_str("while") {
        Token::While
    } else {
        Token::Ident(word)
    }
}

} // verus!

verus! {

/// `run_end` moves forward, and not past the end.
pub proof fn lemma_run_end_bounds(chars: Seq<char>, pos: int, pattern: Seq<char>)
    requires
        0 <= pos <= chars.len(),
    ensures
        pos <= run_end(chars, pos, pattern) <= chars.len(),
    decreases chars.len() - pos,
{
    if pos < chars.len() && matches(pattern, chars[pos]) {
        lemma_run_end_bounds(chars, pos + 1, pattern);
    }
}

/// `quote_end` moves forward, and not past the end.
pub proof fn lemma_quote_end_bounds(chars: Seq<char>, pos: int)
    requires
        0 <= pos <= chars.len(),
    ensures
        pos <= quote_end(chars, pos) <= chars.len(),
    decreases chars.len() - pos,
{
    if pos < chars.len() && chars[pos] != '"' {
        lemma_quote_end_bounds(chars, pos + 1);
    }
}

/// The views of a list of tokens, in order.
pub open spec fn lexed_view(tokens: Seq<Token>) -> Seq<TokenView> {
    tokens.map_values(|token: Token| token@)
}

/// A cursor over the characters of a program, from which tokens are read.
pub struct Lexer {
    /// The characters of the program.
    pub chars: Vec<char>,
    /// The position of the cursor.
    pub pointer_position: usize,
}

impl Lexer {
    /// The position of the cursor.
    pub open spec fn position(&self) -> int {
        self.pointer_position as int
    }

    /// Whether `self` has the characters of `before`.
    pub open spec fn same_text(&self, before: &Lexer) -> bool {
        self.chars == before.chars
    }

    /// A lexer at the start of the text that `program` is shown as.
    pub fn new<T: std::fmt::Display>(program: T) -> (lexer: Self)
        ensures
            lexer.pointer_position == 0,
            exists|text: String| #[trigger]
                vstd::string::to_string_from_display_ensures::<T>(&program, text) && lexer.chars@
                    == text@,
    {
        let text = program.to_string();
        Lexer::from_text(text.as_str())
    }

    /// A lexer at the start of `program`.
    pub fn from_text(program: &str) -> (lexer: Self)
        ensures
            lexer.pointer_position == 0,
            lexer.chars@ == program@,
    {
        Lexer { chars: characters(program), pointer_position: 0 }
    }

    /// Reads all tokens from the cursor on, and adds the end marker.
    pub fn generate_tokens(&mut self) -> (tokens: Vec<Token>)
        ensures
            final(self).same_text(old(self)),
            lexed_view(tokens@) == tokens_from(old(self).chars@, old(self).position()),
    {
        let mut tokens: Vec<Token> = Vec::new();
        let ghost mut read: Seq<TokenView> = Seq::empty();
        assert(lexed_view(tokens@) =~= read);
        loop
            invariant
                self.same_text(old(self)),
                lexed_view(tokens@) == read,
                read + tokens_from(self.chars@, self.position()) == tokens_from(
                    old(self).chars@,
                    old(self).position(),
                ),
            decreases self.chars.len() - self.pointer_position,
        {
            let ghost before = self.position();
            match self.next_token() {
                Some(token) => {
                    proof {
                        assert(read + (seq![token@] + tokens_from(self.chars@, self.position()))
                            =~= read.push(token@) + tokens_from(self.chars@, self.position()));
                        assert(lexed_view(tokens@.push(token)) =~= read.push(token@));
                        read = read.push(token@);
                    }
                    tokens.push(token);
                },
                None => {
                    proof {
                        assert(lexed_view(tokens@.push(Token::Eof)) =~= read + seq![
                            TokenView::plain(TokenKind::Eof),
                        ]);
                    }
                    tokens.push(Token::Eof);
                    return tokens;
                },
            }
        }
    }

    /// Whether the cursor stands behind the last character.
    pub fn out_of_chars(&self) -> (out: bool)
        ensures
            out == (self.pointer_position >= self.chars.len()),
    {
        self.pointer_position >= self.chars.len()
    }

    /// Reads the next token and moves the cursor behind it. `None` when
    /// only separators are left; the cursor then stands at the end.
    pub fn next_token(&mut self) -> (token: Option<Token>)
        ensures
            final(self).same_text(old(self)),
            match next_token(old(self).chars@, old(self).position()) {
                Some(lexed) => {
                    &&& token matches Some(read) && read@ == lexed.token
                    &&& final(self).position() == lexed.position
                    &&& old(self).position() < lexed.position <= old(self).chars.len()
                },
                None => token is None && final(self).position() == skipped(
                    old(self).chars@,
                    old(self).position(),
                ),
            },
    {
        self.skip_whitespaces();
        if self.out_of_chars() {
            return None;
        }
        let current = self.chars[self.pointer_position];
        let next = match self.peek_char() {
            Some(c) => Some(*c),
            None => None,
        };
        let token = match symbol_token(current, next) {
            Some((token, double)) => {
                if double {
                    self.move_pointer();
                }
                token
            },
            None => {
                if current == '"' {
                    Token::String(self.read_string())
                } else {
                    let class = char_class(
                        pattern_matches("[a-zA-Z_]", current),
                        pattern_matches("[0-9]", current),
                    );
                    match class {
                        CharClass::Letter => keyword_or_identifier(self.read_identifier()),
                        CharClass::Digit => Token::Int(self.read_integer()),
                        CharClass::Other => Token::Illegal,
                    }
                }
            },
        };
        self.move_pointer();
        Some(token)
    }

    /// Reads a string literal whose opening quote stands under the cursor,
    /// and leaves the cursor on the closing quote, or at the end if there is none.
    fn read_string(&mut self) -> (text: String)
        requires
            old(self).pointer_position < old(self).chars.len(),
        ensures
            final(self).same_text(old(self)),
            final(self).position() == quote_end(old(self).chars@, old(self).position() + 1),
            old(self).position() < final(self).position() <= old(self).chars.len(),
            text@ == old(self).chars@.subrange(old(self).position() + 1, final(self).position()),
    {
        self.move_pointer();
        let mut buf = String::new();
        let ghost start = self.position();
        assert(buf@ =~= self.chars@.subrange(start, start));
        while !self.out_of_chars() && self.chars[self.pointer_position] != '"'
            invariant
                self.same_text(old(self)),
                start == old(self).position() + 1,
                start <= self.position() <= self.chars.len(),
                quote_end(self.chars@, self.position()) == quote_end(self.chars@, start),
                buf@ == self.chars@.subrange(start, self.position()),
            decreases self.chars.len() - self.pointer_position,
        {
            buf.push(self.chars[self.pointer_position]);
            self.move_pointer();
            assert(buf@ =~= self.chars@.subrange(start, self.position()));
        }
        buf
    }

    /// Whether the character under the cursor matches `pattern`.
    fn run_goes_on(&self, pattern: &str) -> (goes_on: bool)
        ensures
            goes_on == (self.pointer_position < self.chars.len() && matches(
                pattern@,
                self.chars[self.position()],
            )),
    {
        if self.out_of_chars() {
            return false;
        }
        match pattern_matches(pattern, self.chars[self.pointer_position]) {
            Some(true) => true,
            _ => false,
        }
    }

    /// Reads the characters that match `pattern`, from the cursor on, of
    /// which the one under the cursor is the first, and leaves the cursor
    /// on the last of them.
    fn read_run(&mut self, pattern: &str) -> (text: String)
        requires
            old(self).pointer_position < old(self).chars.len(),
            matches(pattern@, old(self).chars[old(self).position()]),
        ensures
            final(self).same_text(old(self)),
            final(self).position() + 1 == run_end(
                old(self).chars@,
                old(self).position(),
                pattern@,
            ),
            old(self).position() <= final(self).position() < old(self).chars.len(),
            text@ == old(self).chars@.subrange(
                old(self).position(),
                final(self).position() + 1,
            ),
    {
        let mut buf = String::new();
        let ghost start = self.position();
        assert(buf@ =~= self.chars@.subrange(start, start));
        while self.run_goes_on(pattern)
            invariant
                self.same_text(old(self)),
                start == old(self).position(),
                start < self.chars.len(),
                matches(pattern@, self.chars[start]),
                start <= self.position() <= self.chars.len(),
                run_end(self.chars@, self.position(), pattern@) == run_end(
                    self.chars@,
                    start,
                    pattern@,
                ),
                buf@ == self.chars@.subrange(start, self.position()),
            decreases self.chars.len() - self.pointer_position,
        {
            buf.push(self.chars[self.pointer_position]);
            self.move_pointer();
            assert(buf@ =~= self.chars@.subrange(start, self.position()));
        }
        self.move_pointer_back();
        buf
    }

    /// Reads an integer literal as long as it goes.
    fn read_integer(&mut self) -> (text: String)
        requires
            old(self).pointer_position < old(self).chars.len(),
            matches(integer_pattern(), old(self).chars[old(self).position()]),
        ensures
            final(self).same_text(old(self)),
            final(self).position() + 1 == run_end(
                old(self).chars@,
                old(self).position(),
                integer_pattern(),
            ),
            old(self).position() <= final(self).position() < old(self).chars.len(),
            text@ == old(self).chars@.subrange(
                old(self).position(),
                final(self).position() + 1,
            ),
    {
        self.read_run("[0-9]")
    }

    /// Reads an identifier as long as it goes.
    fn read_identifier(&mut self) -> (text: String)
        requires
            old(self).pointer_position < old(self).chars.len(),
            matches(identifier_pattern(), old(self).chars[old(self).position()]),
        ensures
            final(self).same_text(old(self)),
            final(self).position() + 1 == run_end(
                old(self).chars@,
                old(self).position(),
                identifier_pattern(),
            ),
            old(self).position() <= final(self).position() < old(self).chars.len(),
            text@ == old(self).chars@.subrange(
                old(self).position(),
                final(self).position() + 1,
            ),
    {
        self.read_run("[a-zA-Z_]")
    }

    /// Moves the cursor over the separators under and behind it.
    fn skip_whitespaces(&mut self)
        ensures
            final(self).same_text(old(self)),
            final(self).position() == skipped(old(self).chars@, old(self).position()),
            old(self).position() <= final(self).position(),
            old(self).position() <= old(self).chars.len() ==> final(self).position() <= old(self).chars.len(),
    {
        while !self.out_of_chars() && (self.chars[self.pointer_position] == ' '
            || self.chars[self.pointer_position] == '\n' || self.chars[self.pointer_position]
            == '\t' || self.chars[self.pointer_position] == '\r')
            invariant
                self.same_text(old(self)),
                old(self).position() <= self.position(),
                old(self).position() <= self.chars.len() ==> self.position() <= self.chars.len(),
                skipped(self.chars@, self.position()) == skipped(
                    old(self).chars@,
                    old(self).position(),
                ),
            decreases self.chars.len() - self.pointer_position,
        {
            self.move_pointer();
        }
    }

    /// The character under the cursor.
    pub fn current_char(&self) -> (found: Option<&char>)
        ensures
            match found {
                Some(c) => char_at(self.chars@, self.position()) == Some(*c),
                None => char_at(self.chars@, self.position()) is None,
            },
    {
        if self.pointer_position < self.chars.len() {
            Some(&self.chars[self.pointer_position])
        } else {
            None
        }
    }

    /// The character behind the one under the cursor.
    pub fn peek_char(&self) -> (found: Option<&char>)
        ensures
            match found {
                Some(c) => char_at(self.chars@, self.position() + 1) == Some(*c),
                None => char_at(self.chars@, self.position() + 1) is None,
            },
    {
        if self.pointer_position < self.chars.len() && self.pointer_position + 1
            < self.chars.len() {
            Some(&self.chars[self.pointer_position + 1])
        } else {
            None
        }
    }

    /// Moves the cursor one character on, unless it stands behind the last one.
    pub fn move_pointer(&mut self) -> (moved: Option<()>)
        ensures
            final(self).same_text(old(self)),
            old(self).pointer_position < old(self).chars.len() ==> moved is Some && final(self).pointer_position == old(self).pointer_position + 1,
            old(self).pointer_position >= old(self).chars.len() ==> moved is None && final(self).pointer_position == old(self).pointer_position,
    {
        if self.out_of_chars() {
            return None;
        }
        self.pointer_position += 1;
        Some(())
    }

    /// Moves the cursor one character back, unless it stands on the first one.
    pub fn move_pointer_back(&mut self) -> (moved: Option<()>)
        ensures
            final(self).same_text(old(self)),
            old(self).pointer_position > 0 ==> moved is Some && final(self).pointer_position
                == old(self).pointer_position - 1,
            old(self).pointer_position == 0 ==> moved is None && final(self).pointer_position
                == 0,
    {
        if self.pointer_position == 0 {
            return None;
        }
        self.pointer_position -= 1;
        Some(())
    }

    /// The characters of the program.
    pub fn chars(&self) -> (chars: &Vec<char>)
        ensures
            chars == &self.chars,
    {
        &self.chars
    }

    /// The position of the cursor.
    pub fn pointer_position(&self) -> (position: &usize)
        ensures
            *position == self.pointer_position,
    {
        &self.pointer_position
    }
}

} // verus!
