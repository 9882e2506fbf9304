//! Turning command tokens or role names into a group key.
use vstd::prelude::*;
use crate::text::{
    contains_tp, has_tp, literal, lower_of, lowercase, strip_separators, without_separators,
};

verus! {

/// The pattern that a lower-cased role name must match to name a group:
/// an optional `tp`, any number of separators, a digit and a lower-case letter.
pub const ROLE_PATTERN: &'static str = "(tp)?[-_ ]*[0-9][a-z]";

/// Why a key could not be resolved.
#[derive(Debug, Clone, Copy, PartialEq, Eq, Structural)]
pub enum ResolveError {
    /// No token was given and no role of the user names a group.
    RoleLookupFailed,
}

/// `s` holds a decimal digit directly followed by a lower-case ASCII letter.
/// Since the optional parts of the role pattern may match nothing, this is
/// exactly when the pattern matches somewhere in `s`.
pub open spec fn has_digit_then_letter(s: Seq<char>) -> bool {
    exists|i: int|
        0 <= i && i + 1 < s.len() && '0' <= #[trigger] s[i] <= '9' && 'a' <= s[i + 1] <= 'z'
}

/// Relies on `regex::Regex::new` and `regex::Regex::is_match`: the role pattern
/// compiles, and `is_match` reports whether it matches anywhere in `text`.
#[verifier::external_body]
fn role_pattern_matches(pattern: &str, text: &str) -> (r: bool)
    requires
        pattern@ == ROLE_PATTERN@,
    ensures
        r == has_digit_then_letter(text@),
{
    regex::Regex::new(pattern).unwrap().is_match(text)
}

/// The key given by the tokens of a command, the first one already lower-cased.
pub open spec fn token_key(first: Seq<char>, second: Option<Seq<char>>) -> Seq<char> {
    if first == "tp"@ {
        match second {
            Some(x) => "TP"@ + x,
            // A bare "tp" resolves to this placeholder, kept as it always was.
            None => "wtf"@,
        }
    } else if has_tp(first) {
        first
    } else {
        "TP"@ + first
    }
}

/// The key that a lower-cased role name gives, if it names a group.
pub open spec fn role_key(name: Seq<char>) -> Option<Seq<char>> {
    if has_digit_then_letter(name) {
        let stripped = without_separators(name);
        Some(if has_tp(stripped) { stripped } else { "tp"@ + stripped })
    } else {
        None
    }
}

/// The key given by the last of the lower-cased role names that names a group.
pub open spec fn last_role_key(names: Seq<Seq<char>>) -> Option<Seq<char>>
    decreases names.len(),
{
    if names.len() == 0 {
        None
    } else {
        match role_key(names.last()) {
            Some(k) => Some(k),
            None => last_role_key(names.drop_last()),
        }
    }
}

/// The characters of an optional string.
pub open spec fn view_opt(o: Option<String>) -> Option<Seq<char>> {
    match o {
        Some(s) => Some(s@),
        None => None,
    }
}

/// The characters of an optional string slice.
pub open spec fn str_opt(o: Option<&str>) -> Option<Seq<char>> {
    match o {
        Some(s) => Some(s@),
        None => None,
    }
}

/// The characters of each string.
pub open spec fn views(v: Seq<String>) -> Seq<Seq<char>> {
    v.map_values(|s: String| s@)
}

/// What `str::to_lowercase` gives for each string.
pub open spec fn lowered_views(v: Seq<String>) -> Seq<Seq<char>> {
    v.map_values(|s: String| lower_of(s@))
}

/// The key resolved from the tokens, or, where there are none, from the role names.
pub open spec fn resolved_key(tokens: Seq<String>, roles: Seq<String>) -> Option<Seq<char>> {
    if tokens.len() > 0 {
        Some(
            token_key(
                lower_of(tokens[0]@),
                if tokens.len() > 1 { Some(tokens[1]@) } else { None },
            ),
        )
    } else {
        last_role_key(lowered_views(roles))
    }
}

/// The key for the tokens of a command whose first token is already lower-cased.
pub fn key_from_lowered_tokens(first: &str, second: Option<&str>) -> (r: String)
    ensures
        r@ == token_key(first@, str_opt(second)),
{
    proof {
        reveal_strlit("tp");
    }
    if first.unicode_len() == 2 && first.get_char(0) == 't' && first.get_char(1) == 'p' {
        assert(first@ =~= "tp"@);
        match second {
            Some(x) => {
                proof {
                    reveal_strlit("TP");
                }
                literal("TP").concat(x)
            },
            None => {
                proof {
                    reveal_strlit("wtf");
                }
                literal("wtf")
            },
        }
    } else {
        assert(first@ != "tp"@) by {
            if first@ == "tp"@ {
                assert(first@[0] == 't' && first@[1] == 'p');
            }
        }
        if contains_tp(first) {
            literal(first)
        } else {
            literal("TP").concat(first)
        }
    }
}

/// The key for the tokens of a command: the first token is lower-cased first.
pub fn key_from_tokens(first: &str, second: Option<&str>) -> (r: String)
    ensures
        r@ == token_key(lower_of(first@), str_opt(second)),
{
    let lowered = lowercase(first);
    key_from_lowered_tokens(lowered.as_str(), second)
}

/// The key that an already lower-cased role name gives, if it names a group.
pub fn role_key_from_lowered(name: &str) -> (r: Option<String>)
    ensures
        view_opt(r) == role_key(name@),
{
    if role_pattern_matches(ROLE_PATTERN, name) {
        let stripped = strip_separators(name);
        if contains_tp(stripped.as_str()) {
            Some(stripped)
        } else {
            proof {
                reveal_strlit("tp");
            }
            Some(literal("tp").concat(stripped.as_str()))
        }
    } else {
        None
    }
}

/// The key that a role name gives, if it names a group; the name is lower-cased first.
pub fn role_key_of(name: &str) -> (r: Option<String>)
    ensures
        view_opt(r) == role_key(lower_of(name@)),
{
    let lowered = lowercase(name);
    role_key_from_lowered(lowered.as_str())
}

/// Scans already lower-cased role names in order; a later name that names a
/// group replaces the key of an earlier one, so the last match wins.
pub fn key_from_lowered_roles(names: &Vec<String>) -> (r: Option<String>)
    ensures
        view_opt(r) == last_role_key(views(names@)),
{
    let mut key: Option<String> = None;
    let mut i: usize = 0;
    while i < names.len()
        invariant
            i <= names@.len(),
            view_opt(key) == last_role_key(views(names@.subrange(0, i as int))),
        decreases names@.len() - i,
    {
        assert(views(names@.subrange(0, i + 1)).drop_last() =~= views(names@.subrange(0, i as int)));
        assert(views(names@.subrange(0, i + 1)).last() == names@[i as int]@);
        match role_key_from_lowered(names[i].as_str()) {
            Some(k) => {
                key = Some(k);
            },
            None => {},
        }
        i = i + 1;
    }
    assert(names@.subrange(0, i as int) =~= names@);
    key
}

/// Scans role names in order, lower-casing each; the last one that names a group wins.
pub fn key_from_roles(roles: &Vec<String>) -> (r: Option<String>)
    ensures
        view_opt(r) == last_role_key(lowered_views(roles@)),
{
    let mut lowered: Vec<String> = Vec::new();
    let mut i: usize = 0;
    while i < roles.len()
        invariant
            i <= roles@.len(),
            lowered@.len() == i,
            forall|j: int| 0 <= j < i ==> #[trigger] lowered@[j]@ == lower_of(roles@[j]@),
        decreases roles@.len() - i,
    {
        lowered.push(lowercase(roles[i].as_str()));
        i = i + 1;
    }
    assert(views(lowered@) =~= lowered_views(roles@));
    key_from_lowered_roles(&lowered)
}

/// Resolves the group key of a command: from its tokens where it has any,
/// else from the role names of the user who sent it.
pub fn resolve_key(tokens: &Vec<String>, roles: &Vec<String>) -> (r: Result<String, ResolveError>)
    ensures
        match resolved_key(tokens@, roles@) {
            Some(k) => r matches Ok(s) && s@ == k,
            None => r == Err::<String, ResolveError>(ResolveError::RoleLookupFailed),
        },
{
    if tokens.len() > 0 {
        let second: Option<&str> = if tokens.len() > 1 {
            Some(tokens[1].as_str())
        } else {
            None
        };
        Ok(key_from_tokens(tokens[0].as_str(), second))
    } else {
        match key_from_roles(roles) {
            Some(k) => Ok(k),
            None => Err(ResolveError::RoleLookupFailed),
        }
    }
}

/// A lone token that lower-cases to `tp` resolves to the placeholder key `wtf`.
pub proof fn lemma_bare_tp_resolves_to_placeholder(first: Seq<char>)
    requires
        lower_of(first) == "tp"@,
    ensures
        token_key(lower_of(first), None) == "wtf"@,
{
}

/// A token that lower-cases to `tp`, followed by a second token `x`, resolves to
/// `TP` followed by `x` as written.
pub proof fn lemma_tp_then_token_resolves_to_prefixed(first: Seq<char>, x: Seq<char>)
    requires
        lower_of(first) == "tp"@,
    ensures
        token_key(lower_of(first), Some(x)) == "TP"@ + x,
{
}

/// A lone token whose lower-cased form contains `tp` (and is not `tp` itself)
/// resolves to that lower-cased form.
pub proof fn lemma_token_with_tp_resolves_to_itself(x: Seq<char>)
    requires
        has_tp(lower_of(x)),
        lower_of(x) != "tp"@,
    ensures
        token_key(lower_of(x), None) == lower_of(x),
{
}

/// A lone token whose lower-cased form does not contain `tp` resolves to `TP`
/// followed by that lower-cased form.
pub proof fn lemma_token_without_tp_resolves_to_prefixed(x: Seq<char>)
    requires
        !has_tp(lower_of(x)),
    ensures
        token_key(lower_of(x), None) == "TP"@ + lower_of(x),
{
    reveal_strlit("tp");
    if lower_of(x) == "tp"@ {
        assert(lower_of(x)[0] == 't' && lower_of(x)[1] == 'p');
    }
}

/// A role name that names a group decides the key, whatever roles came before it.
pub proof fn lemma_last_matching_role_wins(names: Seq<Seq<char>>, name: Seq<char>)
    requires
        role_key(name) is Some,
    ensures
        last_role_key(names.push(name)) == role_key(name),
{
    assert(names.push(name).last() == name);
}

/// A role name that names no group leaves the key as the roles before it gave it.
pub proof fn lemma_non_matching_role_changes_nothing(names: Seq<Seq<char>>, name: Seq<char>)
    requires
        role_key(name) is None,
    ensures
        last_role_key(names.push(name)) == last_role_key(names),
{
    assert(names.push(name).drop_last() =~= names);
}

} // verus!
