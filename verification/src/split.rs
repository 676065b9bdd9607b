//! Splitting an expression into words: the mathematical model of
//! whitespace-delimited splitting, the executable tokenizer, and the lemmas
//! that describe how splitting behaves under concatenation and under
//! insertion of extra whitespace.

use vstd::prelude::*;

use crate::registry::{is_plain_word, is_ws_char};

verus! {

broadcast use vstd::string::group_string_axioms;

/// The ordered sequence of non-empty maximal whitespace-free words of `s`.
/// Defined one character at a time from the right: a whitespace character
/// ends the current word, a non-whitespace character either starts a new
/// word (at the start of the string or after whitespace) or extends the
/// word in progress.
pub open spec fn split_ws(s: Seq<char>) -> Seq<Seq<char>>
    decreases s.len(),
{
    if s.len() == 0 {
        Seq::empty()
    } else {
        let rest = split_ws(s.drop_last());
        let c = s.last();
        if is_ws_char(c) {
            rest
        } else if s.len() == 1 || is_ws_char(s[s.len() - 2]) {
            rest.push(seq![c])
        } else {
            rest.update(rest.len() - 1, rest.last().push(c))
        }
    }
}

/// Appending a whitespace character leaves the word sequence unchanged.
pub proof fn lemma_split_push_ws(s: Seq<char>, c: char)
    requires
        is_ws_char(c),
    ensures
        split_ws(s.push(c)) == split_ws(s),
{
    assert(s.push(c).drop_last() =~= s);
}

/// Appending a plain word to a string that is empty or ends in whitespace
/// appends exactly that word to the word sequence.
pub proof fn lemma_split_append_word(s: Seq<char>, w: Seq<char>)
    requires
        s.len() == 0 || is_ws_char(s.last()),
        is_plain_word(w),
    ensures
        split_ws(s + w) == split_ws(s).push(w),
    decreases w.len(),
{
    let t = s + w;
    assert(t.last() == w.last());
    assert(!is_ws_char(t.last()));
    if w.len() == 1 {
        assert(t.drop_last() =~= s);
        if s.len() == 0 {
            assert(split_ws(t) == split_ws(s).push(seq![w.last()]));
        } else {
            assert(t[t.len() - 2] == s.last());
            assert(split_ws(t) == split_ws(s).push(seq![w.last()]));
        }
        assert(seq![w.last()] =~= w);
    } else {
        let w0 = w.drop_last();
        lemma_split_append_word(s, w0);
        assert(t.drop_last() =~= s + w0);
        assert(t[t.len() - 2] == w0.last());
        assert(!is_ws_char(t[t.len() - 2]));
        let rest = split_ws(s + w0);
        assert(rest == split_ws(s).push(w0));
        assert(rest.len() > 0);
        assert(rest.last() == w0);
        assert(split_ws(t) == rest.update(rest.len() - 1, w0.push(w.last())));
        assert(w0.push(w.last()) =~= w);
        assert(rest.update(rest.len() - 1, w) =~= split_ws(s).push(w));
    }
}

/// A plain word splits into just itself.
pub proof fn lemma_split_single_word(w: Seq<char>)
    requires
        is_plain_word(w),
    ensures
        split_ws(w) == seq![w],
{
    lemma_split_append_word(Seq::empty(), w);
    assert(Seq::<char>::empty() + w =~= w);
    assert(split_ws(Seq::<char>::empty()).push(w) =~= seq![w]);
}

/// Inserting a whitespace character at either end of the string, or next to
/// an existing whitespace character, leaves the word sequence unchanged.
pub proof fn lemma_split_insert_ws(s: Seq<char>, i: int, c: char)
    requires
        is_ws_char(c),
        0 <= i <= s.len(),
        i == 0 || i == s.len() || is_ws_char(s[i - 1]) || is_ws_char(s[i]),
    ensures
        split_ws(s.insert(i, c)) == split_ws(s),
    decreases s.len(),
{
    let t = s.insert(i, c);
    if i == s.len() {
        assert(t =~= s.push(c));
        lemma_split_push_ws(s, c);
    } else {
        // i < s.len(), so s is non-empty and t keeps s's last character.
        assert(t.len() == s.len() + 1);
        assert(t.last() == s.last());
        assert(t.drop_last() =~= s.drop_last().insert(i, c));
        let s0 = s.drop_last();
        if is_ws_char(s.last()) {
            lemma_split_insert_ws(s0, i, c);
        } else {
            if i == s.len() - 1 {
                // The inserted whitespace stands directly before the last
                // word character, so that character starts a word in `t`.
                assert(t[t.len() - 2] == c);
                assert(t.drop_last() =~= s0.push(c));
                lemma_split_push_ws(s0, c);
                assert(split_ws(t) == split_ws(s0).push(seq![s.last()]));
                // By the side condition, s's last character also starts a
                // word in `s` itself.
                if s.len() == 1 {
                    assert(split_ws(s) == split_ws(s0).push(seq![s.last()]));
                } else {
                    assert(is_ws_char(s[s.len() - 2]));
                    assert(split_ws(s) == split_ws(s0).push(seq![s.last()]));
                }
            } else {
                // The insertion happens strictly before the last two
                // characters, so both strings end the same way.
                assert(i < s.len() - 1);
                assert(t[t.len() - 2] == s[s.len() - 2]);
                lemma_split_insert_ws(s0, i, c);
                let rest = split_ws(s0);
                if is_ws_char(s[s.len() - 2]) {
                    assert(split_ws(t) == rest.push(seq![s.last()]));
                    assert(split_ws(s) == rest.push(seq![s.last()]));
                } else {
                    assert(split_ws(t) == rest.update(rest.len() - 1, rest.last().push(s.last())));
                    assert(split_ws(s) == rest.update(rest.len() - 1, rest.last().push(s.last())));
                }
            }
        }
    }
}

/// Whether `c` is a whitespace character, executably.
pub fn is_whitespace_char(c: char) -> (r: bool)
    ensures
        r == is_ws_char(c),
{
    c == ' ' || c == '\t' || c == '\n' || c == '\r'
}

/// Splits `s` into its ordered sequence of non-empty whitespace-delimited
/// words. An empty or all-whitespace input yields an empty sequence.
pub fn tokenize(s: &str) -> (words: Vec<String>)
    ensures
        words.deep_view() == split_ws(s@),
{
    let n = s.unicode_len();
    let mut words: Vec<String> = Vec::new();
    let mut i: usize = 0;
    // Start index of the word in progress, if the scan stands inside one.
    let mut start: Option<usize> = None;
    while i < n
        invariant
            i <= n,
            n == s@.len(),
            match start {
                Some(st) => {
                    &&& st < i
                    &&& (st == 0 || is_ws_char(s@[st - 1]))
                    &&& (forall|k: int| st <= k < i ==> !is_ws_char(#[trigger] s@[k]))
                    &&& split_ws(s@.take(i as int)) == words.deep_view().push(
                        s@.subrange(st as int, i as int),
                    )
                },
                None => {
                    &&& (i == 0 || is_ws_char(s@[i - 1]))
                    &&& split_ws(s@.take(i as int)) == words.deep_view()
                },
            },
        decreases n - i,
    {
        let c = s.get_char(i);
        proof {
            assert(s@.take(i as int + 1).drop_last() =~= s@.take(i as int));
            assert(s@.take(i as int + 1).last() == s@[i as int]);
        }
        if is_whitespace_char(c) {
            match start {
                Some(st) => {
                    let w = s.substring_char(st, i).to_owned();
                    let ghost prev = words.deep_view();
                    words.push(w);
                    start = None;
                    proof {
                        assert(split_ws(s@.take(i as int + 1)) == split_ws(s@.take(i as int)));
                        assert(words.deep_view() =~= prev.push(w@));
                    }
                },
                None => {
                    proof {
                        assert(split_ws(s@.take(i as int + 1)) == split_ws(s@.take(i as int)));
                    }
                },
            }
        } else {
            match start {
                Some(st) => {
                    proof {
                        let t = s@.take(i as int + 1);
                        assert(t[t.len() - 2] == s@[i - 1]);
                        assert(!is_ws_char(s@[i - 1]));
                        let rest = split_ws(s@.take(i as int));
                        assert(rest.len() > 0);
                        assert(rest.last() == s@.subrange(st as int, i as int));
                        assert(split_ws(t) == rest.update(
                            rest.len() - 1,
                            rest.last().push(s@[i as int]),
                        ));
                        assert(s@.subrange(st as int, i as int).push(s@[i as int]) =~= s@.subrange(
                            st as int,
                            i as int + 1,
                        ));
                        assert(split_ws(t) =~= words.deep_view().push(
                            s@.subrange(st as int, i as int + 1),
                        ));
                    }
                },
                None => {
                    start = Some(i);
                    proof {
                        let t = s@.take(i as int + 1);
                        if i > 0 {
                            assert(t[t.len() - 2] == s@[i - 1]);
                        }
                        assert(split_ws(t) == split_ws(s@.take(i as int)).push(seq![s@[i as int]]));
                        assert(seq![s@[i as int]] =~= s@.subrange(i as int, i as int + 1));
                    }
                },
            }
        }
        i = i + 1;
    }
    proof {
        assert(s@.take(n as int) =~= s@);
    }
    match start {
        Some(st) => {
            let w = s.substring_char(st, n).to_owned();
            let ghost prev = words.deep_view();
            words.push(w);
            proof {
                assert(words.deep_view() =~= prev.push(w@));
            }
        },
        None => {},
    }
    words
}

} // verus!
