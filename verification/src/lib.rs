//! Validation of SPDX-style license expressions.
//!
//! An expression combines registered license and exception identifiers with
//! the operators `AND`, `OR` and `WITH`. `validate_license_expr` splits the
//! input into whitespace-delimited words, classifies each word against the
//! identifier registry, and checks that the resulting token sequence follows
//! the expression grammar, reporting the first error found.
//!
//! The grammar check is deliberately pairwise: it only constrains each token
//! against the one before it. An empty expression, or one that ends in a
//! dangling operator such as `MIT AND`, is therefore accepted; this keeps
//! the permissive behaviour that existing callers rely on.

use vstd::prelude::*;
use vstd::string::StringExecFns;

pub mod laws;
pub mod registry;
pub mod split;

use crate::registry::{
    is_exception_id, is_license_id, spec_is_exception_id, spec_is_license_id,
    spec_version, str_equal, version,
};
use crate::split::{split_ws, tokenize};

verus! {

/// A word of an expression, classified: a registered license identifier,
/// a registered exception identifier, or one of the three operators.
/// Identifier variants carry the originating word verbatim.
#[derive(Debug)]
pub enum LicenseExpr {
    License(String),
    Exception(String),
    And,
    Or,
    With,
}

/// The mathematical model of a classified word: the same five categories
/// over the word's character sequence.
pub enum Token {
    License(Seq<char>),
    Exception(Seq<char>),
    And,
    Or,
    With,
}

impl View for LicenseExpr {
    type V = Token;

    open spec fn view(&self) -> Token {
        match self {
            LicenseExpr::License(w) => Token::License(w@),
            LicenseExpr::Exception(w) => Token::Exception(w@),
            LicenseExpr::And => Token::And,
            LicenseExpr::Or => Token::Or,
            LicenseExpr::With => Token::With,
        }
    }
}

/// The rendering of a token: the operator keyword, or the identifier
/// verbatim.
pub open spec fn spec_token_text(t: Token) -> Seq<char> {
    match t {
        Token::License(w) => w,
        Token::Exception(w) => w,
        Token::And => "AND"@,
        Token::Or => "OR"@,
        Token::With => "WITH"@,
    }
}

impl LicenseExpr {
    /// Renders the token as it appeared in the expression.
    pub fn text(&self) -> (t: String)
        ensures
            t@ == spec_token_text(self@),
    {
        match self {
            LicenseExpr::License(w) => w.clone(),
            LicenseExpr::Exception(w) => w.clone(),
            LicenseExpr::And => "AND".to_owned(),
            LicenseExpr::Or => "OR".to_owned(),
            LicenseExpr::With => "WITH".to_owned(),
        }
    }
}

/// Why an expression was rejected: a word that is neither a keyword nor a
/// registered identifier, or a well-classified token in a position the
/// grammar disallows.
#[derive(Debug)]
pub enum ParseError {
    UnknownIdentifier(String),
    InvalidStructure(LicenseExpr),
}

/// The mathematical model of a rejection.
pub enum SpecParseError {
    UnknownIdentifier(Seq<char>),
    InvalidStructure(Token),
}

impl View for ParseError {
    type V = SpecParseError;

    open spec fn view(&self) -> SpecParseError {
        match self {
            ParseError::UnknownIdentifier(w) => SpecParseError::UnknownIdentifier(w@),
            ParseError::InvalidStructure(t) => SpecParseError::InvalidStructure(t@),
        }
    }
}

/// The one-line category of an error.
pub open spec fn spec_error_description(e: SpecParseError) -> Seq<char> {
    match e {
        SpecParseError::UnknownIdentifier(_) => "unknown license or other term"@,
        SpecParseError::InvalidStructure(_) => "invalid license expression"@,
    }
}

/// The word or token an error carries, rendered.
pub open spec fn spec_error_text(e: SpecParseError) -> Seq<char> {
    match e {
        SpecParseError::UnknownIdentifier(w) => w,
        SpecParseError::InvalidStructure(t) => spec_token_text(t),
    }
}

impl ParseError {
    /// The one-line category of the error.
    pub fn description(&self) -> (d: &'static str)
        ensures
            d@ == spec_error_description(self@),
    {
        match self {
            ParseError::UnknownIdentifier(_) => "unknown license or other term",
            ParseError::InvalidStructure(_) => "invalid license expression",
        }
    }

    /// Renders the error as its description, a separator, and the offending
    /// word or token.
    pub fn message(&self) -> (m: String)
        ensures
            m@ == spec_error_description(self@) + ": "@ + spec_error_text(self@),
    {
        let mut m = self.description().to_owned();
        m.append(": ");
        match self {
            ParseError::UnknownIdentifier(w) => m.append(w.as_str()),
            ParseError::InvalidStructure(t) => {
                let rendered = t.text();
                m.append(rendered.as_str());
            },
        }
        m
    }
}

/// The model of a classification result.
pub open spec fn token_result_view(r: Result<LicenseExpr, ParseError>) -> Result<
    Token,
    SpecParseError,
> {
    match r {
        Ok(t) => Ok(t@),
        Err(e) => Err(e@),
    }
}

/// The model of a validation verdict.
pub open spec fn verdict_view(r: Result<(), ParseError>) -> Result<(), SpecParseError> {
    match r {
        Ok(u) => Ok(u),
        Err(e) => Err(e@),
    }
}

/// Classification of a single word: the keywords first, then the license
/// set, then the exception set, else unknown.
pub open spec fn spec_classify(w: Seq<char>) -> Result<Token, SpecParseError> {
    if w == "AND"@ {
        Ok(Token::And)
    } else if w == "OR"@ {
        Ok(Token::Or)
    } else if w == "WITH"@ {
        Ok(Token::With)
    } else if spec_is_license_id(w) {
        Ok(Token::License(w))
    } else if spec_is_exception_id(w) {
        Ok(Token::Exception(w))
    } else {
        Err(SpecParseError::UnknownIdentifier(w))
    }
}

/// Classifies one word, consuming it into the token or the error.
pub fn classify(word: String) -> (r: Result<LicenseExpr, ParseError>)
    ensures
        token_result_view(r) == spec_classify(word@),
{
    if str_equal(word.as_str(), "AND") {
        Ok(LicenseExpr::And)
    } else if str_equal(word.as_str(), "OR") {
        Ok(LicenseExpr::Or)
    } else if str_equal(word.as_str(), "WITH") {
        Ok(LicenseExpr::With)
    } else if is_license_id(word.as_str()) {
        Ok(LicenseExpr::License(word))
    } else if is_exception_id(word.as_str()) {
        Ok(LicenseExpr::Exception(word))
    } else {
        Err(ParseError::UnknownIdentifier(word))
    }
}

/// The grammar's state: the category of the token last accepted, or `Start`
/// before any token.
#[derive(Clone, Copy, PartialEq, Eq, Structural)]
pub enum State {
    Start,
    AfterLicense,
    AfterException,
    AfterAnd,
    AfterOr,
    AfterWith,
}

/// The allowed transitions: the new state when `t` may follow `st`, `None`
/// when it may not.
pub open spec fn spec_step(st: State, t: Token) -> Option<State> {
    match (st, t) {
        (State::Start, Token::License(_)) => Some(State::AfterLicense),
        (State::AfterLicense, Token::With) => Some(State::AfterWith),
        (State::AfterLicense, Token::And) => Some(State::AfterAnd),
        (State::AfterLicense, Token::Or) => Some(State::AfterOr),
        (State::AfterException, Token::And) => Some(State::AfterAnd),
        (State::AfterException, Token::Or) => Some(State::AfterOr),
        (State::AfterAnd, Token::License(_)) => Some(State::AfterLicense),
        (State::AfterOr, Token::License(_)) => Some(State::AfterLicense),
        (State::AfterWith, Token::Exception(_)) => Some(State::AfterException),
        _ => None,
    }
}

/// One grammar transition, executably.
pub fn next_state(st: State, t: &LicenseExpr) -> (r: Option<State>)
    ensures
        r == spec_step(st, t@),
{
    match (st, t) {
        (State::Start, LicenseExpr::License(_)) => Some(State::AfterLicense),
        (State::AfterLicense, LicenseExpr::With) => Some(State::AfterWith),
        (State::AfterLicense, LicenseExpr::And) => Some(State::AfterAnd),
        (State::AfterLicense, LicenseExpr::Or) => Some(State::AfterOr),
        (State::AfterException, LicenseExpr::And) => Some(State::AfterAnd),
        (State::AfterException, LicenseExpr::Or) => Some(State::AfterOr),
        (State::AfterAnd, LicenseExpr::License(_)) => Some(State::AfterLicense),
        (State::AfterOr, LicenseExpr::License(_)) => Some(State::AfterLicense),
        (State::AfterWith, LicenseExpr::Exception(_)) => Some(State::AfterException),
        _ => None,
    }
}

/// The left-to-right scan over a word sequence from state `st`: the first
/// classification failure or disallowed transition decides the verdict; a
/// fully consumed sequence is accepted.
pub open spec fn spec_run(st: State, words: Seq<Seq<char>>) -> Result<(), SpecParseError>
    decreases words.len(),
{
    if words.len() == 0 {
        Ok(())
    } else {
        match spec_classify(words.first()) {
            Err(e) => Err(e),
            Ok(t) => match spec_step(st, t) {
                None => Err(SpecParseError::InvalidStructure(t)),
                Some(ns) => spec_run(ns, words.drop_first()),
            },
        }
    }
}

/// The verdict on a whole expression: split into words, then scan from
/// `Start`.
pub open spec fn spec_validate(s: Seq<char>) -> Result<(), SpecParseError> {
    spec_run(State::Start, split_ws(s))
}

/// Validates a license expression: returns `Ok(())` when the expression's
/// words all classify and follow the grammar, and the first error found
/// otherwise.
pub fn validate_license_expr(license_expr: &str) -> (r: Result<(), ParseError>)
    ensures
        verdict_view(r) == spec_validate(license_expr@),
{
    let words = tokenize(license_expr);
    let ghost all = words.deep_view();
    let n = words.len();
    let mut st = State::Start;
    let mut i: usize = 0;
    proof {
        assert(all.skip(0) =~= all);
    }
    while i < n
        invariant
            i <= n,
            n == words.len(),
            all == words.deep_view(),
            all == split_ws(license_expr@),
            spec_run(st, all.skip(i as int)) == spec_validate(license_expr@),
        decreases n - i,
    {
        proof {
            assert(all.skip(i as int).first() == all[i as int]);
            assert(all[i as int] == words[i as int]@);
            assert(all.skip(i as int).drop_first() =~= all.skip(i as int + 1));
        }
        let word = words[i].clone();
        match classify(word) {
            Err(e) => {
                return Err(e);
            },
            Ok(t) => {
                match next_state(st, &t) {
                    None => {
                        return Err(ParseError::InvalidStructure(t));
                    },
                    Some(ns) => {
                        st = ns;
                    },
                }
            },
        }
        i = i + 1;
    }
    proof {
        assert(all.skip(n as int) =~= Seq::<Seq<char>>::empty());
    }
    Ok(())
}

/// The version tag of the identifier lists consulted by the classifier.
pub fn license_version() -> (v: &'static str)
    ensures
        v@ == spec_version(),
{
    version()
}

} // verus!
