//! Feature names as they are written in configuration files and expressions.
use vstd::prelude::*;

verus! {

/// The character that `c` becomes in a normalized feature name:
/// spaces and hyphens become underscores, quotes are removed (`None`).
pub open spec fn normalized_char(c: char) -> Option<char> {
    if c == '"' {
        None
    } else if c == ' ' || c == '-' {
        Some('_')
    } else {
        Some(c)
    }
}

/// A feature name with every quote removed and every space or hyphen
/// replaced by an underscore.
pub open spec fn normalized(s: Seq<char>) -> Seq<char>
    decreases s.len(),
{
    if s.len() == 0 {
        Seq::empty()
    } else {
        let rest = normalized(s.drop_last());
        match normalized_char(s.last()) {
            Some(c) => rest.push(c),
            None => rest,
        }
    }
}

/// A name that has gone through normalization holds no quote, space or
/// hyphen, and is no longer than before.
pub proof fn lemma_normalized_is_clean(s: Seq<char>)
    ensures
        forall|i: int| 0 <= i < normalized(s).len() ==> {
            let c = #[trigger] normalized(s)[i];
            c != '"' && c != ' ' && c != '-'
        },
        normalized(s).len() <= s.len(),
    decreases s.len(),
{
    if s.len() > 0 {
        lemma_normalized_is_clean(s.drop_last());
    }
}

/// Normalizing a name twice is normalizing it once.
pub proof fn lemma_normalize_idempotent(s: Seq<char>)
    ensures
        normalized(normalized(s)) == normalized(s),
    decreases s.len(),
{
    if s.len() > 0 {
        let rest = normalized(s.drop_last());
        lemma_normalize_idempotent(s.drop_last());
        lemma_normalized_is_clean(s.drop_last());
        match normalized_char(s.last()) {
            Some(c) => {
                assert(rest.push(c).drop_last() == rest);
            },
            None => {},
        }
    }
}

/// Appends `c` to `s` (std's `String::push`).
#[verifier::external_body]
fn push_char(s: &mut String, c: char)
    ensures
        final(s)@ == old(s)@.push(c),
{
    s.push(c);
}

/// Normalizes a feature name: quotes are dropped, spaces and hyphens become
/// underscores, every other character is kept.
pub fn normalize_feature_name(s: &str) -> (res: String)
    ensures
        res@ == normalized(s@),
{
    broadcast use vstd::string::group_string_axioms;

    let mut res = String::new();
    for c in it: s.chars()
        invariant
            it.seq() == s@,
            res@ == normalized(it.seq().take(it.index() as int)),
    {
        assert(it.seq().take(it.index() + 1).drop_last() == it.seq().take(it.index() as int));
        if c == '"' {
        } else if c == ' ' || c == '-' {
            push_char(&mut res, '_');
        } else {
            push_char(&mut res, c);
        }
    }
    assert(s@.take(s@.len() as int) == s@);
    res
}

} // verus!
