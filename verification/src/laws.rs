//! The library's general laws, stated and proved over the specification
//! model: what `spec_validate` accepts and which error it reports, for
//! whole families of inputs at once.

use vstd::prelude::*;

use crate::registry::{
    is_keyword, is_plain_word, is_ws_char, lemma_registry_facts, spec_is_exception_id,
    spec_is_license_id,
};
use crate::split::{
    lemma_split_append_word, lemma_split_insert_ws, lemma_split_push_ws, lemma_split_single_word,
    split_ws,
};
use crate::{spec_classify, spec_run, spec_step, spec_validate, SpecParseError, State, Token};

verus! {

broadcast use vstd::string::group_string_axioms;

/// Three plain words joined by single spaces split into exactly those words.
proof fn lemma_split_three_words(a: Seq<char>, b: Seq<char>, c: Seq<char>)
    requires
        is_plain_word(a),
        is_plain_word(b),
        is_plain_word(c),
    ensures
        split_ws(a + seq![' '] + b + seq![' '] + c) == seq![a, b, c],
{
    lemma_split_single_word(a);
    lemma_split_push_ws(a, ' ');
    assert(a.push(' ') =~= a + seq![' ']);
    lemma_split_append_word(a + seq![' '], b);
    assert((a + seq![' ']).last() == ' ');
    assert(split_ws(a + seq![' '] + b) == seq![a, b]);
    lemma_split_push_ws(a + seq![' '] + b, ' ');
    assert((a + seq![' '] + b).push(' ') =~= a + seq![' '] + b + seq![' ']);
    lemma_split_append_word(a + seq![' '] + b + seq![' '], c);
    assert((a + seq![' '] + b + seq![' ']).last() == ' ');
    assert(seq![a, b].push(c) =~= seq![a, b, c]);
}

/// A registered license identifier classifies as a license token.
proof fn lemma_classify_license(l: Seq<char>)
    requires
        spec_is_license_id(l),
    ensures
        spec_classify(l) == Ok::<Token, SpecParseError>(Token::License(l)),
{
    lemma_registry_facts();
}

/// Every identifier registered as a license id validates on its own.
pub proof fn lemma_license_alone_accepted(l: Seq<char>)
    requires
        spec_is_license_id(l),
    ensures
        spec_validate(l) == Ok::<(), SpecParseError>(()),
{
    lemma_registry_facts();
    lemma_classify_license(l);
    lemma_split_single_word(l);
    let words = seq![l];
    assert(words.first() == l);
    assert(words.drop_first() =~= Seq::<Seq<char>>::empty());
    assert(spec_run(State::AfterLicense, words.drop_first()) == Ok::<(), SpecParseError>(()));
}

/// A registered license id combined with itself by `AND` or by `OR`
/// validates.
pub proof fn lemma_self_combination_accepted(l: Seq<char>)
    requires
        spec_is_license_id(l),
    ensures
        spec_validate(l + " AND "@ + l) == Ok::<(), SpecParseError>(()),
        spec_validate(l + " OR "@ + l) == Ok::<(), SpecParseError>(()),
{
    reveal_with_fuel(spec_run, 5);
    lemma_registry_facts();
    lemma_classify_license(l);
    reveal_strlit(" AND ");
    reveal_strlit("AND");
    reveal_strlit(" OR ");
    reveal_strlit("OR");
    assert(" AND "@ =~= seq![' '] + "AND"@ + seq![' ']);
    assert(" OR "@ =~= seq![' '] + "OR"@ + seq![' ']);
    lemma_split_three_words(l, "AND"@, l);
    lemma_split_three_words(l, "OR"@, l);
    assert(l + " AND "@ + l =~= l + seq![' '] + "AND"@ + seq![' '] + l);
    assert(l + " OR "@ + l =~= l + seq![' '] + "OR"@ + seq![' '] + l);
    let wa = seq![l, "AND"@, l];
    assert(seq![l].first() == l);
    assert(seq![l].drop_first() =~= Seq::<Seq<char>>::empty());
    assert(spec_run(State::AfterAnd, seq![l]) == Ok::<(), SpecParseError>(()));
    assert(seq!["AND"@, l].first() == "AND"@);
    assert(seq!["AND"@, l].drop_first() =~= seq![l]);
    assert(spec_run(State::AfterLicense, seq!["AND"@, l]) == Ok::<(), SpecParseError>(()));
    assert(wa.first() == l);
    assert(wa.drop_first() =~= seq!["AND"@, l]);
    assert(spec_run(State::Start, wa) == Ok::<(), SpecParseError>(()));
    assert(split_ws(l + " AND "@ + l) == wa);
    let wo = seq![l, "OR"@, l];
    assert(spec_run(State::AfterOr, seq![l]) == Ok::<(), SpecParseError>(()));
    assert(seq!["OR"@, l].first() == "OR"@);
    assert(seq!["OR"@, l].drop_first() =~= seq![l]);
    assert(spec_run(State::AfterLicense, seq!["OR"@, l]) == Ok::<(), SpecParseError>(()));
    assert(wo.first() == l);
    assert(wo.drop_first() =~= seq!["OR"@, l]);
    assert(spec_run(State::Start, wo) == Ok::<(), SpecParseError>(()));
    assert(split_ws(l + " OR "@ + l) == wo);
}

/// A `WITH` clause after a license validates exactly when the word after
/// `WITH` is a registered exception id. A license id there is a structure
/// error carrying that token; any other plain word is unknown.
pub proof fn lemma_with_clause(l: Seq<char>, e: Seq<char>)
    requires
        spec_is_license_id(l),
        is_plain_word(e),
    ensures
        spec_validate(l + " WITH "@ + e) == Ok::<(), SpecParseError>(())
            <==> spec_is_exception_id(e),
        spec_is_license_id(e) ==> spec_validate(l + " WITH "@ + e) == Err::<(), SpecParseError>(
            SpecParseError::InvalidStructure(Token::License(e)),
        ),
        !spec_is_license_id(e) && !spec_is_exception_id(e) && !is_keyword(e) ==> spec_validate(
            l + " WITH "@ + e,
        ) == Err::<(), SpecParseError>(SpecParseError::UnknownIdentifier(e)),
{
    reveal_with_fuel(spec_run, 5);
    lemma_registry_facts();
    lemma_classify_license(l);
    reveal_strlit(" WITH ");
    reveal_strlit("WITH");
    reveal_strlit("AND");
    reveal_strlit("OR");
    assert(" WITH "@ =~= seq![' '] + "WITH"@ + seq![' ']);
    lemma_split_three_words(l, "WITH"@, e);
    assert(l + " WITH "@ + e =~= l + seq![' '] + "WITH"@ + seq![' '] + e);
    let words = seq![l, "WITH"@, e];
    assert(words.first() == l);
    assert(words.drop_first() =~= seq!["WITH"@, e]);
    assert(seq!["WITH"@, e].first() == "WITH"@);
    assert(seq!["WITH"@, e].drop_first() =~= seq![e]);
    assert(seq![e].first() == e);
    assert(seq![e].drop_first() =~= Seq::<Seq<char>>::empty());
    assert(split_ws(l + " WITH "@ + e) == words);
    if spec_is_exception_id(e) {
        assert(spec_classify(e) == Ok::<Token, SpecParseError>(Token::Exception(e)));
        assert(spec_run(State::AfterWith, seq![e]) == Ok::<(), SpecParseError>(()));
        assert(spec_run(State::AfterLicense, seq!["WITH"@, e]) == Ok::<(), SpecParseError>(()));
        assert(spec_run(State::Start, words) == Ok::<(), SpecParseError>(()));
    } else if spec_is_license_id(e) {
        assert(spec_classify(e) == Ok::<Token, SpecParseError>(Token::License(e)));
        assert(spec_run(State::AfterWith, seq![e]) == Err::<(), SpecParseError>(
            SpecParseError::InvalidStructure(Token::License(e)),
        ));
        assert(spec_run(State::AfterLicense, seq!["WITH"@, e]) == spec_run(
            State::AfterWith,
            seq![e],
        ));
        assert(spec_run(State::Start, words) == spec_run(State::AfterLicense, seq!["WITH"@, e]));
    } else if is_keyword(e) {
        assert(spec_step(State::AfterWith, spec_classify(e)->Ok_0) is None);
        assert(spec_run(State::AfterWith, seq![e]) is Err);
        assert(spec_run(State::AfterLicense, seq!["WITH"@, e]) == spec_run(
            State::AfterWith,
            seq![e],
        ));
        assert(spec_run(State::Start, words) == spec_run(State::AfterLicense, seq!["WITH"@, e]));
    } else {
        assert(spec_classify(e) == Err::<Token, SpecParseError>(
            SpecParseError::UnknownIdentifier(e),
        ));
        assert(spec_run(State::AfterWith, seq![e]) == Err::<(), SpecParseError>(
            SpecParseError::UnknownIdentifier(e),
        ));
        assert(spec_run(State::AfterLicense, seq!["WITH"@, e]) == spec_run(
            State::AfterWith,
            seq![e],
        ));
        assert(spec_run(State::Start, words) == spec_run(State::AfterLicense, seq!["WITH"@, e]));
    }
}

/// An exception identifier on its own is rejected as a structure error
/// carrying that exception token.
pub proof fn lemma_exception_alone_rejected(e: Seq<char>)
    requires
        spec_is_exception_id(e),
    ensures
        spec_validate(e) == Err::<(), SpecParseError>(
            SpecParseError::InvalidStructure(Token::Exception(e)),
        ),
{
    lemma_registry_facts();
    lemma_split_single_word(e);
    let words = seq![e];
    assert(words.first() == e);
    assert(spec_classify(e) == Ok::<Token, SpecParseError>(Token::Exception(e)));
    assert(spec_step(State::Start, Token::Exception(e)) is None);
}

/// The scan from `st` passes the first `k` words without an error: each of
/// them classifies and its transition is allowed.
pub open spec fn scan_reaches(st: State, words: Seq<Seq<char>>, k: int) -> bool
    decreases k,
{
    if k <= 0 {
        true
    } else if words.len() == 0 {
        false
    } else {
        match spec_classify(words.first()) {
            Err(_) => false,
            Ok(t) => match spec_step(st, t) {
                None => false,
                Some(ns) => scan_reaches(ns, words.drop_first(), k - 1),
            },
        }
    }
}

/// When the scan reaches an unrecognized word, the verdict is
/// `UnknownIdentifier` carrying exactly that word, wherever it stands.
pub proof fn lemma_unknown_word_reported(st: State, words: Seq<Seq<char>>, k: int)
    requires
        0 <= k < words.len(),
        scan_reaches(st, words, k),
        spec_classify(words[k]) is Err,
    ensures
        spec_run(st, words) == Err::<(), SpecParseError>(
            SpecParseError::UnknownIdentifier(words[k]),
        ),
    decreases k,
{
    if k == 0 {
        assert(spec_classify(words.first()) == Err::<Token, SpecParseError>(
            SpecParseError::UnknownIdentifier(words[0]),
        ));
    } else {
        let t = spec_classify(words.first())->Ok_0;
        let ns = spec_step(st, t)->0;
        assert(words.drop_first()[k - 1] == words[k]);
        lemma_unknown_word_reported(ns, words.drop_first(), k - 1);
    }
}

/// The same, stated for a whole expression from the start state.
pub proof fn lemma_unknown_in_expression(s: Seq<char>, k: int)
    requires
        0 <= k < split_ws(s).len(),
        scan_reaches(State::Start, split_ws(s), k),
        spec_classify(split_ws(s)[k]) is Err,
    ensures
        spec_validate(s) == Err::<(), SpecParseError>(
            SpecParseError::UnknownIdentifier(split_ws(s)[k]),
        ),
{
    lemma_unknown_word_reported(State::Start, split_ws(s), k);
}

/// An accepted expression contains no unrecognized word at all.
pub proof fn lemma_accepted_all_words_known(st: State, words: Seq<Seq<char>>)
    requires
        spec_run(st, words) is Ok,
    ensures
        forall|k: int| 0 <= k < words.len() ==> spec_classify(#[trigger] words[k]) is Ok,
    decreases words.len(),
{
    if words.len() > 0 {
        let t = spec_classify(words.first())->Ok_0;
        let ns = spec_step(st, t)->0;
        lemma_accepted_all_words_known(ns, words.drop_first());
        assert forall|k: int| 0 <= k < words.len() implies spec_classify(
            #[trigger] words[k],
        ) is Ok by {
            if k > 0 {
                assert(words.drop_first()[k - 1] == words[k]);
            }
        }
    }
}

/// Extra whitespace at either end of the expression, or next to existing
/// whitespace, never changes the verdict.
pub proof fn lemma_whitespace_insensitive(s: Seq<char>, i: int, c: char)
    requires
        is_ws_char(c),
        0 <= i <= s.len(),
        i == 0 || i == s.len() || is_ws_char(s[i - 1]) || is_ws_char(s[i]),
    ensures
        spec_validate(s.insert(i, c)) == spec_validate(s),
{
    lemma_split_insert_ws(s, i, c);
}

/// The verdict depends on the word sequence alone.
pub proof fn lemma_verdict_from_words(s: Seq<char>, t: Seq<char>)
    requires
        split_ws(s) == split_ws(t),
    ensures
        spec_validate(s) == spec_validate(t),
{
}

/// The lowercase forms of the operator keywords are not operators: each is
/// an unknown identifier.
pub proof fn lemma_lowercase_keywords_unknown()
    ensures
        spec_classify("and"@) == Err::<Token, SpecParseError>(
            SpecParseError::UnknownIdentifier("and"@),
        ),
        spec_classify("or"@) == Err::<Token, SpecParseError>(
            SpecParseError::UnknownIdentifier("or"@),
        ),
        spec_classify("with"@) == Err::<Token, SpecParseError>(
            SpecParseError::UnknownIdentifier("with"@),
        ),
{
    lemma_registry_facts();
    reveal_strlit("and");
    reveal_strlit("or");
    reveal_strlit("with");
    reveal_strlit("AND");
    reveal_strlit("OR");
    reveal_strlit("WITH");
    // Every registered identifier and keyword begins with an uppercase
    // letter; these three words do not.
    assert(("and"@)[0] == 'a' && ("or"@)[0] == 'o' && ("with"@)[0] == 'w');
    assert(!is_keyword("and"@) && !spec_is_license_id("and"@) && !spec_is_exception_id("and"@));
    assert(!is_keyword("or"@) && !spec_is_license_id("or"@) && !spec_is_exception_id("or"@));
    assert(!is_keyword("with"@) && !spec_is_license_id("with"@) && !spec_is_exception_id("with"@));
}

/// Whether the word contains a parenthesis character.
pub open spec fn has_paren(w: Seq<char>) -> bool {
    exists|i: int| 0 <= i < w.len() && ((#[trigger] w[i]) == '(' || w[i] == ')')
}

/// A word containing a parenthesis is neither a keyword nor a registered
/// identifier: it always classifies as an unknown identifier.
pub proof fn lemma_paren_word_unknown(w: Seq<char>)
    requires
        has_paren(w),
    ensures
        spec_classify(w) == Err::<Token, SpecParseError>(SpecParseError::UnknownIdentifier(w)),
{
    lemma_registry_facts();
    let i = choose|i: int| 0 <= i < w.len() && ((#[trigger] w[i]) == '(' || w[i] == ')');
    if is_keyword(w) || spec_is_license_id(w) || spec_is_exception_id(w) {
        assert(is_plain_word(w));
        assert(!is_ws_char(w[i]) && w[i] != '(' && w[i] != ')');
    }
}

/// An expression one of whose words contains a parenthesis is never
/// accepted.
pub proof fn lemma_paren_input_never_accepted(s: Seq<char>, k: int)
    requires
        0 <= k < split_ws(s).len(),
        has_paren(split_ws(s)[k]),
    ensures
        spec_validate(s) is Err,
{
    lemma_paren_word_unknown(split_ws(s)[k]);
    if spec_validate(s) is Ok {
        lemma_accepted_all_words_known(State::Start, split_ws(s));
    }
}

} // verus!
