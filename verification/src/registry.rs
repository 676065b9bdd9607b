//! The identifier registry: exact-match membership tests over the set of
//! registered license identifiers and the set of registered exception
//! identifiers, plus the version tag of the identifier lists.
//!
//! Matching is exact and case-sensitive; a trailing `+` is part of the
//! identifier itself, never stripped.

use vstd::prelude::*;

verus! {

broadcast use vstd::string::group_string_axioms;

/// A whitespace character for the purposes of expression splitting.
pub open spec fn is_ws_char(c: char) -> bool {
    c == ' ' || c == '\t' || c == '\n' || c == '\r'
}

/// A plain word: non-empty, free of whitespace and of parentheses.
/// Every registered identifier and every operator keyword is a plain word.
pub open spec fn is_plain_word(w: Seq<char>) -> bool {
    &&& w.len() > 0
    &&& forall|i: int|
        0 <= i < w.len() ==> !is_ws_char(#[trigger] w[i]) && w[i] != '(' && w[i] != ')'
}

/// One of the three operator keywords.
pub open spec fn is_keyword(w: Seq<char>) -> bool {
    w == "AND"@ || w == "OR"@ || w == "WITH"@
}

/// Membership in the registered license-identifier set.
pub open spec fn spec_is_license_id(w: Seq<char>) -> bool {
    ||| w == "AAL"@
    ||| w == "AGPL-1.0"@
    ||| w == "AGPL-1.0+"@
    ||| w == "AGPL-3.0"@
    ||| w == "Apache-1.1"@
    ||| w == "Apache-2.0"@
    ||| w == "BSD-2-Clause"@
    ||| w == "BSD-3-Clause"@
    ||| w == "BlueOak-1.0.0"@
    ||| w == "CC0-1.0"@
    ||| w == "GPL-2.0"@
    ||| w == "GPL-2.0+"@
    ||| w == "GPL-3.0"@
    ||| w == "GPL-3.0+"@
    ||| w == "ISC"@
    ||| w == "LGPL-2.1"@
    ||| w == "LGPL-2.1+"@
    ||| w == "LGPL-3.0"@
    ||| w == "LGPL-3.0+"@
    ||| w == "MIT"@
    ||| w == "MPL-2.0"@
    ||| w == "Parity-6.0.0"@
    ||| w == "Unlicense"@
    ||| w == "Zlib"@
}

/// Membership in the registered exception-identifier set.
pub open spec fn spec_is_exception_id(w: Seq<char>) -> bool {
    ||| w == "Autoconf-exception-3.0"@
    ||| w == "Bison-exception-2.2"@
    ||| w == "Classpath-exception-2.0"@
    ||| w == "GCC-exception-3.1"@
    ||| w == "LLVM-exception"@
}

/// The version tag of the identifier lists in use.
pub open spec fn spec_version() -> Seq<char> {
    "3.6"@
}

/// Every registered identifier is a plain word, is not an operator keyword,
/// and the license and exception sets are disjoint; the keywords themselves
/// are plain words as well.
pub proof fn lemma_registry_facts()
    ensures
        forall|w: Seq<char>|
            #[trigger] spec_is_license_id(w) ==> is_plain_word(w) && !is_keyword(w),
        forall|w: Seq<char>|
            #[trigger] spec_is_exception_id(w) ==> is_plain_word(w) && !is_keyword(w)
                && !spec_is_license_id(w),
        is_plain_word("AND"@) && is_plain_word("OR"@) && is_plain_word("WITH"@),
        forall|w: Seq<char>|
            #![trigger spec_is_license_id(w)]
            #![trigger spec_is_exception_id(w)]
            #![trigger is_keyword(w)]
            spec_is_license_id(w) || spec_is_exception_id(w) || is_keyword(w) ==> 'A' as int <= w[0]
                as int <= 'Z' as int,
{
    reveal_strlit("AND");
    reveal_strlit("OR");
    reveal_strlit("WITH");
    reveal_strlit("AAL");
    reveal_strlit("AGPL-1.0");
    reveal_strlit("AGPL-1.0+");
    reveal_strlit("AGPL-3.0");
    reveal_strlit("Apache-1.1");
    reveal_strlit("Apache-2.0");
    reveal_strlit("BSD-2-Clause");
    reveal_strlit("BSD-3-Clause");
    reveal_strlit("BlueOak-1.0.0");
    reveal_strlit("CC0-1.0");
    reveal_strlit("GPL-2.0");
    reveal_strlit("GPL-2.0+");
    reveal_strlit("GPL-3.0");
    reveal_strlit("GPL-3.0+");
    reveal_strlit("ISC");
    reveal_strlit("LGPL-2.1");
    reveal_strlit("LGPL-2.1+");
    reveal_strlit("LGPL-3.0");
    reveal_strlit("LGPL-3.0+");
    reveal_strlit("MIT");
    reveal_strlit("MPL-2.0");
    reveal_strlit("Parity-6.0.0");
    reveal_strlit("Unlicense");
    reveal_strlit("Zlib");
    reveal_strlit("Autoconf-exception-3.0");
    reveal_strlit("Bison-exception-2.2");
    reveal_strlit("Classpath-exception-2.0");
    reveal_strlit("GCC-exception-3.1");
    reveal_strlit("LLVM-exception");
    assert(is_plain_word("AND"@));
    assert(is_plain_word("OR"@));
    assert(is_plain_word("WITH"@));
    assert(is_plain_word("AAL"@));
    assert(is_plain_word("AGPL-1.0"@));
    assert(is_plain_word("AGPL-1.0+"@));
    assert(is_plain_word("AGPL-3.0"@));
    assert(is_plain_word("Apache-1.1"@));
    assert(is_plain_word("Apache-2.0"@));
    assert(is_plain_word("BSD-2-Clause"@));
    assert(is_plain_word("BSD-3-Clause"@));
    assert(is_plain_word("BlueOak-1.0.0"@));
    assert(is_plain_word("CC0-1.0"@));
    assert(is_plain_word("GPL-2.0"@));
    assert(is_plain_word("GPL-2.0+"@));
    assert(is_plain_word("GPL-3.0"@));
    assert(is_plain_word("GPL-3.0+"@));
    assert(is_plain_word("ISC"@));
    assert(is_plain_word("LGPL-2.1"@));
    assert(is_plain_word("LGPL-2.1+"@));
    assert(is_plain_word("LGPL-3.0"@));
    assert(is_plain_word("LGPL-3.0+"@));
    assert(is_plain_word("MIT"@));
    assert(is_plain_word("MPL-2.0"@));
    assert(is_plain_word("Parity-6.0.0"@));
    assert(is_plain_word("Unlicense"@));
    assert(is_plain_word("Zlib"@));
    assert(is_plain_word("Autoconf-exception-3.0"@));
    assert(is_plain_word("Bison-exception-2.2"@));
    assert(is_plain_word("Classpath-exception-2.0"@));
    assert(is_plain_word("GCC-exception-3.1"@));
    assert(is_plain_word("LLVM-exception"@));
    // The identifiers of the same length as a keyword differ from it in a
    // character; every other disequality follows from the lengths alone.
    assert(("AAL"@)[1] != ("AND"@)[1]);
    assert(("ISC"@)[0] != ("AND"@)[0]);
    assert(("MIT"@)[0] != ("AND"@)[0]);
    assert(("Zlib"@)[0] != ("WITH"@)[0]);
}

/// Exact equality of two strings, by their character sequences.
pub fn str_equal(a: &str, b: &str) -> (r: bool)
    ensures
        r == (a@ == b@),
{
    let x: String = a.to_owned();
    let y: String = b.to_owned();
    x == y
}

/// Exact-match membership test for license identifiers.
pub fn is_license_id(w: &str) -> (r: bool)
    ensures
        r == spec_is_license_id(w@),
{
    str_equal(w, "AAL") || str_equal(w, "AGPL-1.0") || str_equal(w, "AGPL-1.0+") || str_equal(w, "AGPL-3.0")
        || str_equal(w, "Apache-1.1") || str_equal(w, "Apache-2.0") || str_equal(w, "BSD-2-Clause")
        || str_equal(w, "BSD-3-Clause") || str_equal(w, "BlueOak-1.0.0") || str_equal(w, "CC0-1.0")
        || str_equal(w, "GPL-2.0") || str_equal(w, "GPL-2.0+") || str_equal(w, "GPL-3.0")
        || str_equal(w, "GPL-3.0+") || str_equal(w, "ISC") || str_equal(w, "LGPL-2.1")
        || str_equal(w, "LGPL-2.1+") || str_equal(w, "LGPL-3.0") || str_equal(w, "LGPL-3.0+")
        || str_equal(w, "MIT") || str_equal(w, "MPL-2.0") || str_equal(w, "Parity-6.0.0")
        || str_equal(w, "Unlicense") || str_equal(w, "Zlib")
}

/// Exact-match membership test for exception identifiers.
pub fn is_exception_id(w: &str) -> (r: bool)
    ensures
        r == spec_is_exception_id(w@),
{
    str_equal(w, "Autoconf-exception-3.0") || str_equal(w, "Bison-exception-2.2")
        || str_equal(w, "Classpath-exception-2.0") || str_equal(w, "GCC-exception-3.1")
        || str_equal(w, "LLVM-exception")
}

/// The version of the identifier lists behind the registry.
pub fn version() -> (v: &'static str)
    ensures
        v@ == spec_version(),
{
    "3.6"
}

} // verus!
