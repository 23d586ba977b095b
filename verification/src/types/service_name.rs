//! Service names: DNS labels in the sense of RFC 1123, lower case only.
use crate::text::{chars_of, char_is_digit, char_is_lower, char_is_upper, is_digit, is_lower, is_upper};
use vstd::string::StringSliceAdditionalSpecFns;
use vstd::prelude::*;

verus! {

/// Why a text is not a service name.
#[derive(Debug, Clone, Copy, PartialEq, Eq, Structural)]
pub enum ServiceNameError {
    Empty,
    TooLong,
    StartsWithHyphen,
    EndsWithHyphen,
    NotLowercase,
    InvalidChar(char),
}

/// The message that `Display` writes for a service name error.
pub open spec fn service_name_error_text(e: ServiceNameError) -> Seq<char> {
    match e {
        ServiceNameError::Empty => "service name cannot be empty"@,
        ServiceNameError::TooLong => "service name exceeds maximum length of 63 characters"@,
        ServiceNameError::StartsWithHyphen => "service name cannot start with a hyphen"@,
        ServiceNameError::EndsWithHyphen => "service name cannot end with a hyphen"@,
        ServiceNameError::NotLowercase => "service name must be lowercase"@,
        ServiceNameError::InvalidChar(c) => "invalid character in service name: '"@ + seq![c] + "'"@,
    }
}

impl ServiceNameError {
    /// The message that `Display` writes for this error.
    pub fn to_string(&self) -> (r: String)
        ensures
            r@ == service_name_error_text(*self),
    {
        match self {
            ServiceNameError::Empty => crate::text::own("service name cannot be empty"),
            ServiceNameError::TooLong => crate::text::own(
                "service name exceeds maximum length of 63 characters",
            ),
            ServiceNameError::StartsWithHyphen => crate::text::own(
                "service name cannot start with a hyphen",
            ),
            ServiceNameError::EndsWithHyphen => crate::text::own("service name cannot end with a hyphen"),
            ServiceNameError::NotLowercase => crate::text::own("service name must be lowercase"),
            ServiceNameError::InvalidChar(c) => {
                let mut s = crate::text::own("invalid character in service name: '");
                crate::text::push_char(&mut s, *c);
                s.append("'");
                s
            },
        }
    }
}

/// A character that may stand in a service name.
pub open spec fn is_name_char(c: char) -> bool {
    is_lower(c) || is_digit(c) || c == '-'
}

/// The verdict on the first character that may not stand in a service name:
/// upper-case ASCII letters are reported as such, anything else by itself.
pub open spec fn name_chars_error(s: Seq<char>) -> Option<ServiceNameError>
    decreases s.len(),
{
    if s.len() == 0 {
        None
    } else if is_upper(s[0]) {
        Some(ServiceNameError::NotLowercase)
    } else if !is_name_char(s[0]) {
        Some(ServiceNameError::InvalidChar(s[0]))
    } else {
        name_chars_error(s.drop_first())
    }
}

/// The first rule that text `s`, of `byte_len` UTF-8 bytes, breaks, in the order
/// the rules are checked; `None` when it is a valid service name.
pub open spec fn service_name_error(s: Seq<char>, byte_len: nat) -> Option<ServiceNameError> {
    if s.len() == 0 {
        Some(ServiceNameError::Empty)
    } else if byte_len > 63 {
        Some(ServiceNameError::TooLong)
    } else if s[0] == '-' {
        Some(ServiceNameError::StartsWithHyphen)
    } else if s.last() == '-' {
        Some(ServiceNameError::EndsWithHyphen)
    } else {
        name_chars_error(s)
    }
}

/// What every service name satisfies.
pub open spec fn valid_service_name(s: Seq<char>) -> bool {
    &&& 0 < s.len() <= 63
    &&& s[0] != '-'
    &&& s.last() != '-'
    &&& forall|i: int| 0 <= i < s.len() ==> is_name_char(#[trigger] s[i])
}

/// The character check of a name reports nothing exactly when every character
/// is allowed.
pub proof fn lemma_name_chars_error(s: Seq<char>)
    ensures
        name_chars_error(s) is None <==> forall|i: int| 0 <= i < s.len() ==> is_name_char(
            #[trigger] s[i],
        ),
    decreases s.len(),
{
    if s.len() > 0 {
        lemma_name_chars_error(s.drop_first());
        if name_chars_error(s) is None {
            assert forall|i: int| 0 <= i < s.len() implies is_name_char(#[trigger] s[i]) by {
                if i > 0 {
                    assert(s[i] == s.drop_first()[i - 1]);
                }
            }
        }
        if forall|i: int| 0 <= i < s.len() ==> is_name_char(#[trigger] s[i]) {
            assert(is_name_char(s[0]));
            assert forall|i: int| 0 <= i < s.drop_first().len() implies is_name_char(
                #[trigger] s.drop_first()[i],
            ) by {
                assert(s.drop_first()[i] == s[i + 1]);
            }
        }
    }
}

/// A validated service name.
#[derive(Debug, PartialEq, Eq, Hash)]
pub struct ServiceName(String);

impl Clone for ServiceName {
    fn clone(&self) -> (r: Self)
        ensures
            r@ == self@,
    {
        proof {
            use_type_invariant(self);
        }
        ServiceName(self.0.clone())
    }
}

impl crate::strmap::Duplicate for ServiceName {
    fn duplicate(&self) -> (r: Self) {
        proof {
            use_type_invariant(self);
        }
        ServiceName(self.0.clone())
    }
}

impl View for ServiceName {
    type V = Seq<char>;

    closed spec fn view(&self) -> Seq<char> {
        self.0@
    }
}

impl ServiceName {
    #[verifier::type_invariant]
    closed spec fn inv(self) -> bool {
        valid_service_name(self.0@)
    }

    /// Validates `value` as a service name.
    pub fn new(value: &str) -> (r: Result<Self, ServiceNameError>)
        ensures
            match r {
                Ok(name) => service_name_error(value@, value.len() as nat) is None && name@
                    == value@,
                Err(e) => service_name_error(value@, value.len() as nat) == Some(e),
            },
            r is Ok <==> valid_service_name(value@),
    {
        proof {
            lemma_name_chars_error(value@);
            if valid_service_name(value@) {
                lemma_ascii_len(value);
            }
        }
        let v = chars_of(value);
        if v.len() == 0 {
            return Err(ServiceNameError::Empty);
        }
        if value.len() > 63 {
            return Err(ServiceNameError::TooLong);
        }
        if v[0] == '-' {
            return Err(ServiceNameError::StartsWithHyphen);
        }
        if v[v.len() - 1] == '-' {
            return Err(ServiceNameError::EndsWithHyphen);
        }
        let mut i: usize = 0;
        assert(v@.skip(0) =~= v@);
        while i < v.len()
            invariant
                v@ == value@,
                i <= v@.len(),
                forall|j: int| 0 <= j < i ==> is_name_char(#[trigger] v@[j]),
                name_chars_error(v@) == name_chars_error(v@.skip(i as int)),
                service_name_error(value@, value.len() as nat) == name_chars_error(v@),
            decreases v@.len() - i,
        {
            let c = v[i];
            let ghost t = v@.skip(i as int);
            assert(t[0] == c);
            assert(t.len() > 0);
            if char_is_upper(c) {
                assert(name_chars_error(t) == Some(ServiceNameError::NotLowercase));
                return Err(ServiceNameError::NotLowercase);
            }
            if !(char_is_lower(c) || char_is_digit(c) || c == '-') {
                assert(name_chars_error(t) == Some(ServiceNameError::InvalidChar(c)));
                return Err(ServiceNameError::InvalidChar(c));
            }
            assert(t.drop_first() =~= v@.skip(i + 1));
            i = i + 1;
        }
        proof {
            assert(v@.skip(i as int).len() == 0);
            lemma_name_chars_error(v@);
            lemma_ascii_len(value);
            assert(value.len() as nat == value@.len());
        }
        Ok(ServiceName(String::from_str(value)))
    }

    /// A name already known to be valid.
    pub(crate) fn from_valid(value: String) -> (r: Self)
        requires
            valid_service_name(value@),
        ensures
            r@ == value@,
    {
        ServiceName(value)
    }

    pub fn as_str(&self) -> (r: &str)
        ensures
            r@ == self@,
            valid_service_name(self@),
    {
        proof {
            use_type_invariant(self);
        }
        self.0.as_str()
    }

    /// The network alias under which the service is reachable: the name itself,
    /// which is always a valid alias.
    pub fn as_alias(&self) -> (r: crate::types::NetworkAlias)
        ensures
            r@ == self@,
    {
        proof {
            use_type_invariant(self);
        }
        let r = crate::types::NetworkAlias::new(self.0.as_str());
        proof {
            lemma_service_name_is_alias(self.0@);
        }
        match r {
            Ok(a) => a,
            Err(_) => {
                assert(false);
                crate::types::NetworkAlias::new(self.0.as_str()).unwrap()
            },
        }
    }

    /// The name, as `Display` writes it.
    pub fn to_string(&self) -> (r: String)
        ensures
            r@ == self@,
            valid_service_name(self@),
    {
        proof {
            use_type_invariant(self);
        }
        self.0.clone()
    }
}

/// Every service name is accepted, unchanged, as a network alias.
pub proof fn lemma_service_name_is_alias(s: Seq<char>)
    requires
        valid_service_name(s),
    ensures
        crate::types::network_alias::alias_result(s) == Ok::<Seq<char>, crate::types::NetworkAliasError>(s),
{
    assert forall|i: int| 0 <= i < s.len() implies !crate::text::is_ws(#[trigger] s[i]) by {
        assert(is_name_char(s[i]));
    }
    crate::text::lemma_lead_ws(s);
    crate::text::lemma_trail_ws(s);
    assert(crate::text::lead_ws(s) == 0) by {
        if crate::text::lead_ws(s) > 0 {
            assert(crate::text::is_ws(s[0]));
        }
    }
    assert(s.skip(0) =~= s);
    assert(crate::text::trail_ws(s) == 0) by {
        if crate::text::trail_ws(s) > 0 {
            assert(crate::text::is_ws(s[s.len() - 1]));
        }
    }
    assert(crate::text::trim(s) =~= s);
    crate::types::network_alias::lemma_first_bad_alias_char(s);
    assert forall|i: int| 0 <= i < s.len() implies crate::types::network_alias::is_alias_char(
        #[trigger] s[i],
    ) by {
        assert(is_name_char(s[i]));
    }
}

/// A text made of service-name characters has as many bytes as characters.
proof fn lemma_ascii_len(value: &str)
    requires
        forall|i: int| 0 <= i < value@.len() ==> is_name_char(#[trigger] value@[i]),
    ensures
        value.spec_bytes().len() == value@.len(),
{
    broadcast use vstd::string::is_ascii_spec_bytes;

    assert(vstd::string::is_ascii(value)) by {
        assert forall|i: int| 0 <= i < value@.len() implies '\0' <= #[trigger] value@[i] <= '\u{7f}' by {
            assert(is_name_char(value@[i]));
        }
    }
    assert(value.spec_bytes().len() == value@.len());
}

} // verus!
