//! Network aliases under which a container is reachable on a network.
use crate::text::{chars_of, char_is_alnum, is_alnum, substring, trim, trim_bounds};
use vstd::prelude::*;

verus! {

/// Why a text is not a network alias.
#[derive(Debug, Clone, Copy, PartialEq, Eq, Structural)]
pub enum NetworkAliasError {
    Empty,
    InvalidChar(char),
}

/// A character that may stand in a network alias.
pub open spec fn is_alias_char(c: char) -> bool {
    is_alnum(c) || c == '-' || c == '_' || c == '.'
}

/// The first character of `s` that may not stand in an alias.
pub open spec fn first_bad_alias_char(s: Seq<char>) -> Option<char>
    decreases s.len(),
{
    if s.len() == 0 {
        None
    } else if !is_alias_char(s[0]) {
        Some(s[0])
    } else {
        first_bad_alias_char(s.drop_first())
    }
}

/// What `NetworkAlias::new` makes of `s`: the trimmed text, or the reason it is refused.
pub open spec fn alias_result(s: Seq<char>) -> Result<Seq<char>, NetworkAliasError> {
    let t = trim(s);
    if t.len() == 0 {
        Err(NetworkAliasError::Empty)
    } else {
        match first_bad_alias_char(t) {
            Some(c) => Err(NetworkAliasError::InvalidChar(c)),
            None => Ok(t),
        }
    }
}

/// The alias check finds no bad character exactly when every character is
/// allowed.
pub proof fn lemma_first_bad_alias_char(s: Seq<char>)
    ensures
        first_bad_alias_char(s) is None <==> forall|i: int| 0 <= i < s.len() ==> is_alias_char(
            #[trigger] s[i],
        ),
    decreases s.len(),
{
    if s.len() > 0 {
        lemma_first_bad_alias_char(s.drop_first());
        if first_bad_alias_char(s) is None {
            assert forall|i: int| 0 <= i < s.len() implies is_alias_char(#[trigger] s[i]) by {
                if i > 0 {
                    assert(s[i] == s.drop_first()[i - 1]);
                }
            }
        }
        if forall|i: int| 0 <= i < s.len() ==> is_alias_char(#[trigger] s[i]) {
            assert(is_alias_char(s[0]));
            assert forall|i: int| 0 <= i < s.drop_first().len() implies is_alias_char(
                #[trigger] s.drop_first()[i],
            ) by {
                assert(s.drop_first()[i] == s[i + 1]);
            }
        }
    }
}

/// A validated network alias.
#[derive(Debug, PartialEq, Eq, Hash)]
pub struct NetworkAlias(String);

impl Clone for NetworkAlias {
    fn clone(&self) -> (r: Self)
        ensures
            r@ == self@,
    {
        NetworkAlias(self.0.clone())
    }
}

impl View for NetworkAlias {
    type V = Seq<char>;

    closed spec fn view(&self) -> Seq<char> {
        self.0@
    }
}

impl NetworkAlias {
    /// Validates `value`, without its surrounding whitespace, as an alias.
    pub fn new(value: &str) -> (r: Result<Self, NetworkAliasError>)
        ensures
            match r {
                Ok(a) => alias_result(value@) == Ok::<Seq<char>, NetworkAliasError>(a@),
                Err(e) => alias_result(value@) == Err::<Seq<char>, NetworkAliasError>(e),
            },
    {
        let v = chars_of(value);
        let (a, b) = trim_bounds(&v);
        let ghost t = trim(value@);
        if a == b {
            return Err(NetworkAliasError::Empty);
        }
        let mut i = a;
        while i < b
            invariant
                v@ == value@,
                a <= i <= b <= v@.len(),
                t == v@.subrange(a as int, b as int),
                t == trim(value@),
                t.len() > 0,
                first_bad_alias_char(t) == first_bad_alias_char(v@.subrange(i as int, b as int)),
            decreases b - i,
        {
            let c = v[i];
            let ghost u = v@.subrange(i as int, b as int);
            assert(u[0] == c);
            assert(u.len() > 0);
            if !(char_is_alnum(c) || c == '-' || c == '_' || c == '.') {
                assert(first_bad_alias_char(u) == Some(c));
                assert(t.len() > 0);
                return Err(NetworkAliasError::InvalidChar(c));
            }
            assert(u.drop_first() =~= v@.subrange(i + 1, b as int));
            i = i + 1;
        }
        Ok(NetworkAlias(substring(value, a, b)))
    }

    pub fn as_str(&self) -> (r: &str)
        ensures
            r@ == self@,
    {
        self.0.as_str()
    }

    /// The alias, as `Display` writes it.
    pub fn to_string(&self) -> (r: String)
        ensures
            r@ == self@,
    {
        self.0.clone()
    }
}

} // verus!
