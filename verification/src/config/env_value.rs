//! Environment values: literals, or references to variables of the deploying
//! machine's environment with an optional default.
use crate::error::Error;
use crate::strmap::{Duplicate, StrMap};
use vstd::prelude::*;

verus! {

/// A configured environment value.
#[derive(Debug)]
pub enum EnvValue {
    Literal(String),
    FromEnv { var: String, default: Option<String> },
}

/// What a value resolves to in `environment`; `None` when a referenced variable
/// is unset and has no default.
pub open spec fn resolve_value(v: EnvValue, environment: Map<Seq<char>, String>) -> Option<Seq<char>> {
    match v {
        EnvValue::Literal(s) => Some(s@),
        EnvValue::FromEnv { var, default } => if environment.contains_key(var@) {
            Some(environment[var@]@)
        } else {
            match default {
                Some(d) => Some(d@),
                None => None,
            }
        },
    }
}

/// A value taken from a variable is the variable's value whenever it is set,
/// whatever the default; the default stands in only for an unset variable, and
/// without one the value cannot be resolved.
pub proof fn lemma_set_variable_wins(var: String, default: Option<String>, environment: Map<Seq<char>, String>)
    ensures
        environment.contains_key(var@) ==> resolve_value(EnvValue::FromEnv { var, default }, environment)
            == Some(environment[var@]@),
        !environment.contains_key(var@) ==> resolve_value(EnvValue::FromEnv { var, default }, environment)
            == match default {
            Some(d) => Some(d@),
            None => None::<Seq<char>>,
        },
{
}

impl EnvValue {
    /// Resolves the value in `environment` (the deploying process's variables).
    pub fn resolve(&self, environment: &StrMap<String>) -> (r: Result<String, Error>)
        ensures
            match resolve_value(*self, environment@) {
                Some(s) => r is Ok && r->Ok_0@ == s,
                None => r is Err && match (r->Err_0, *self) {
                    (Error::MissingEnvVar(m), EnvValue::FromEnv { var, .. }) => m@ == var@,
                    _ => false,
                },
            },
    {
        match self {
            EnvValue::Literal(s) => Ok(s.clone()),
            EnvValue::FromEnv { var, default } => match environment.get(var.as_str()) {
                Some(val) => Ok(val.clone()),
                None => match default {
                    Some(d) => Ok(d.clone()),
                    None => Err(Error::MissingEnvVar(var.clone())),
                },
            },
        }
    }

}

impl Duplicate for EnvValue {
    fn duplicate(&self) -> (r: Self) {
        match self {
            EnvValue::Literal(s) => EnvValue::Literal(s.clone()),
            EnvValue::FromEnv { var, default } => EnvValue::FromEnv {
                var: var.clone(),
                default: match default {
                    Some(d) => Some(d.clone()),
                    None => None,
                },
            },
        }
    }
}

/// Resolves every value of `map` in `environment`. It fails, naming a variable,
/// exactly when some referenced variable is unset and has no default.
pub fn resolve_env_map(map: &StrMap<EnvValue>, environment: &StrMap<String>) -> (r: Result<
    StrMap<String>,
    Error,
>)
    ensures
        r is Ok <==> forall|k: Seq<char>| #[trigger]
            map@.contains_key(k) ==> resolve_value(map@[k], environment@) is Some,
        r is Ok ==> r->Ok_0@.dom() == map@.dom() && forall|k: Seq<char>| #[trigger]
            map@.contains_key(k) ==> Some(r->Ok_0@[k]@) == resolve_value(map@[k], environment@),
        r is Err ==> match r->Err_0 {
            Error::MissingEnvVar(v) => exists|k: Seq<char>|
                #[trigger] map@.contains_key(k) && resolve_value(map@[k], environment@) is None
                    && (map@[k] matches EnvValue::FromEnv { var, .. } && var@ == v@),
            _ => false,
        },
{
    map.lemma_seqs();
    let mut out: StrMap<String> = StrMap::new();
    let mut i: usize = 0;
    while i < map.len()
        invariant
            i <= map.key_seq().len(),
            map.key_seq().len() == map.value_seq().len(),
            forall|a: int, b: int|
                0 <= a < b < map.key_seq().len() ==> map.key_seq()[a] != map.key_seq()[b],
            forall|k: Seq<char>| #[trigger] map@.contains_key(k) <==> map.key_seq().contains(k),
            forall|j: int|
                0 <= j < map.key_seq().len() ==> #[trigger] map@[map.key_seq()[j]]
                    == map.value_seq()[j],
            forall|k: Seq<char>| #[trigger]
                out@.contains_key(k) <==> map.key_seq().take(i as int).contains(k),
            forall|j: int|
                0 <= j < i ==> resolve_value(map.value_seq()[j], environment@) is Some,
            forall|j: int|
                0 <= j < i ==> Some(#[trigger] out@[map.key_seq()[j]]@) == resolve_value(
                    map.value_seq()[j],
                    environment@,
                ),
        decreases map.key_seq().len() - i,
    {
        let v = map.value_at(i);
        match v.resolve(environment) {
            Ok(s) => {
                let k = map.key_at(i).clone();
                let ghost old_out = out@;
                out.insert(k, s);
                proof {
                    let ks = map.key_seq();
                    assert(ks.take(i + 1) =~= ks.take(i as int).push(ks[i as int]));
                    assert forall|k: Seq<char>| #[trigger]
                        out@.contains_key(k) <==> ks.take(i + 1).contains(k) by {
                        if ks.take(i + 1).contains(k) {
                            let t = ks.take(i + 1);
                            let j = choose|j: int| 0 <= j < t.len() && t[j] == k;
                            if j < i {
                                assert(ks.take(i as int)[j] == k);
                            } else {
                                assert(k == ks[i as int]);
                            }
                        }
                        if k == ks[i as int] {
                            assert(ks.take(i + 1)[i as int] == k);
                        }
                        if old_out.contains_key(k) {
                            let t = ks.take(i as int);
                            let j = choose|j: int| 0 <= j < t.len() && t[j] == k;
                            assert(ks.take(i + 1)[j] == k);
                        }
                    }
                    assert forall|j: int| 0 <= j < i + 1 implies Some(
                        #[trigger] out@[map.key_seq()[j]]@,
                    ) == resolve_value(map.value_seq()[j], environment@) by {
                        if j < i {
                            assert(map.key_seq()[j] != map.key_seq()[i as int]);
                        }
                    }
                }
                i = i + 1;
            },
            Err(e) => {
                proof {
                    let k = map.key_seq()[i as int];
                    assert(map@.contains_key(k)) by {
                        assert(map.key_seq().contains(k));
                    }
                }
                return Err(e);
            },
        }
    }
    proof {
        assert(map.key_seq().take(i as int) =~= map.key_seq());
        assert forall|k: Seq<char>| #[trigger] map@.contains_key(k) implies resolve_value(
            map@[k],
            environment@,
        ) is Some && Some(out@[k]@) == resolve_value(map@[k], environment@) by {
            let j = choose|j: int| 0 <= j < map.key_seq().len() && map.key_seq()[j] == k;
            assert(map@[map.key_seq()[j]] == map.value_seq()[j]);
        }
        assert(out@.dom() =~= map@.dom());
    }
    Ok(out)
}

} // verus!
