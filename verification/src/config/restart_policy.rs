//! Container restart policies: `no`, `always`, `unless-stopped` and
//! `on-failure[:max-retries]`.
use crate::text::{
    chars_of, dec, dec_string, digits_value, join2, parse_uint, parse_uint_range, push_dec,
    starts_with, str_eq, substring, vec_starts_with, all_digits, digit_char, digit_value,
};
use vstd::prelude::*;

verus! {

/// When the runtime restarts a container.
#[derive(Debug, Clone, Copy, PartialEq, Eq, Structural)]
pub enum RestartPolicy {
    No,
    Always,
    UnlessStopped,
    OnFailure { max_retries: Option<u32> },
}

impl Default for RestartPolicy {
    fn default() -> (r: Self)
        ensures
            r == RestartPolicy::UnlessStopped,
    {
        RestartPolicy::UnlessStopped
    }
}

/// The largest `u32`.
pub open spec fn u32_max() -> nat {
    0xffff_ffff
}

/// What `RestartPolicy::from_str` makes of `s`; the error is the message.
pub open spec fn parse_restart_policy(s: Seq<char>) -> Result<RestartPolicy, Seq<char>> {
    if s == "no"@ {
        Ok(RestartPolicy::No)
    } else if s == "always"@ {
        Ok(RestartPolicy::Always)
    } else if s == "unless-stopped"@ {
        Ok(RestartPolicy::UnlessStopped)
    } else if s == "on-failure"@ {
        Ok(RestartPolicy::OnFailure { max_retries: None })
    } else if starts_with(s, "on-failure:"@) {
        let rest = s.skip(11);
        match parse_uint(rest, u32_max()) {
            Some(n) => Ok(RestartPolicy::OnFailure { max_retries: Some(n as u32) }),
            None => Err("invalid max retries: "@ + rest),
        }
    } else {
        Err("unknown restart policy: "@ + s)
    }
}

/// How `Display` writes a restart policy.
pub open spec fn display_restart_policy(p: RestartPolicy) -> Seq<char> {
    match p {
        RestartPolicy::No => "no"@,
        RestartPolicy::Always => "always"@,
        RestartPolicy::UnlessStopped => "unless-stopped"@,
        RestartPolicy::OnFailure { max_retries: None } => "on-failure"@,
        RestartPolicy::OnFailure { max_retries: Some(n) } => "on-failure:"@ + dec(n as nat),
    }
}

impl RestartPolicy {
    /// Parses a restart policy (`FromStr`).
    pub fn from_str(s: &str) -> (r: Result<Self, String>)
        ensures
            match parse_restart_policy(s@) {
                Ok(p) => r == Ok::<RestartPolicy, String>(p),
                Err(m) => r is Err && r->Err_0@ == m,
            },
    {
        if str_eq(s, "no") {
            return Ok(RestartPolicy::No);
        }
        if str_eq(s, "always") {
            return Ok(RestartPolicy::Always);
        }
        if str_eq(s, "unless-stopped") {
            return Ok(RestartPolicy::UnlessStopped);
        }
        if str_eq(s, "on-failure") {
            return Ok(RestartPolicy::OnFailure { max_retries: None });
        }
        let v = chars_of(s);
        if vec_starts_with(&v, "on-failure:") {
            proof {
                reveal_strlit("on-failure:");
            }
            let rest = substring(s, 11, v.len());
            assert(rest@ =~= s@.skip(11));
            match parse_uint_range(&v, 11, v.len(), 0xffff_ffff) {
                Some(n) => {
                    return Ok(RestartPolicy::OnFailure { max_retries: Some(n as u32) });
                },
                None => {
                    return Err(join2("invalid max retries: ", rest.as_str()));
                },
            }
        }
        Err(join2("unknown restart policy: ", s))
    }

    /// The policy, as `Display` writes it.
    pub fn to_string(&self) -> (r: String)
        ensures
            r@ == display_restart_policy(*self),
    {
        match self {
            RestartPolicy::No => crate::text::own("no"),
            RestartPolicy::Always => crate::text::own("always"),
            RestartPolicy::UnlessStopped => crate::text::own("unless-stopped"),
            RestartPolicy::OnFailure { max_retries: None } => crate::text::own("on-failure"),
            RestartPolicy::OnFailure { max_retries: Some(n) } => {
                let mut s = crate::text::own("on-failure:");
                push_dec(&mut s, *n as u64);
                s
            },
        }
    }
}

/// The decimal digits of `n` are all digits, do not start with `+`, and read back as `n`.
pub proof fn lemma_dec_digits(n: nat)
    ensures
        dec(n).len() > 0,
        all_digits(dec(n)),
        digits_value(dec(n)) == n,
        dec(n)[0] != '+',
    decreases n,
{
    if n < 10 {
        assert(dec(n) == seq![digit_char(n)]);
        assert(seq![digit_char(n)].drop_last() =~= Seq::<char>::empty());
        assert(digit_value(digit_char(n)) == n);
        assert(digits_value(Seq::<char>::empty()) == 0);
        assert(digits_value(dec(n)) == digits_value(dec(n).drop_last()) * 10 + digit_value(dec(n).last()));
    } else {
        lemma_dec_digits(n / 10);
        let s = dec(n);
        assert(s == dec(n / 10) + seq![digit_char(n % 10)]);
        assert(s.drop_last() =~= dec(n / 10));
        assert(digit_value(digit_char(n % 10)) == n % 10);
        assert(digits_value(s) == digits_value(s.drop_last()) * 10 + digit_value(s.last()));
        assert(n == (n / 10) * 10 + n % 10);
        assert forall|i: int| 0 <= i < s.len() implies crate::text::is_digit(#[trigger] s[i]) by {
            if i < s.len() - 1 {
                assert(s[i] == dec(n / 10)[i]);
            }
        }
        assert(s[0] == dec(n / 10)[0]);
    }
}

/// Decimal parsing reads back what decimal rendering writes.
pub proof fn lemma_parse_dec(n: nat, max: nat)
    requires
        n <= max,
    ensures
        parse_uint(dec(n), max) == Some(n),
{
    lemma_dec_digits(n);
}

/// Reading a restart policy back from its text gives the same policy.
pub proof fn lemma_restart_policy_round_trip(p: RestartPolicy)
    ensures
        parse_restart_policy(display_restart_policy(p)) == Ok::<RestartPolicy, Seq<char>>(p),
{
    reveal_strlit("no");
    reveal_strlit("always");
    reveal_strlit("unless-stopped");
    reveal_strlit("on-failure");
    reveal_strlit("on-failure:");
    match p {
        RestartPolicy::OnFailure { max_retries: Some(n) } => {
            let s = display_restart_policy(p);
            lemma_dec_digits(n as nat);
            assert(s.len() >= 12);
            assert(s != "no"@);
            assert(s != "always"@);
            assert(s != "unless-stopped"@) by {
                assert(s[0] == 'o');
            }
            assert(s != "on-failure"@);
            assert(s.subrange(0, 11) =~= "on-failure:"@);
            assert(s.skip(11) =~= dec(n as nat));
            lemma_parse_dec(n as nat, u32_max());
        },
        _ => {},
    }
}

} // verus!
