//! Turning a reference into a Secrets Manager secret id or an SSM parameter
//! name.

use vstd::prelude::*;
use vstd::string::*;

use crate::error::{ErrorClass, ProviderError};
use crate::protocol::Reference;
use crate::text::{
    leading_count, lemma_leading_count, lemma_leading_count_prefix, trim_leading, trim_start_char,
};

verus! {

/// The authority joined with the path: `aws-secrets://prod/db/password`
/// gives `prod/db/password`.
pub open spec fn joined_name(reference: Reference) -> Seq<char> {
    match reference.authority {
        Some(a) => a@ + reference.path@,
        None => reference.path@,
    }
}

/// The Secrets Manager secret id for a joined name: the name without its
/// leading slashes; none where nothing is left.
pub open spec fn secret_id_of(name: Seq<char>) -> Option<Seq<char>> {
    let id = trim_leading(name, '/');
    if id.len() == 0 {
        None
    } else {
        Some(id)
    }
}

/// The SSM parameter name for a joined name: the name itself where it starts
/// with a slash, else the name behind one slash; none for the empty name and
/// for a lone slash.
pub open spec fn parameter_name_of(name: Seq<char>) -> Option<Seq<char>> {
    if name.len() == 0 || name == seq!['/'] {
        None
    } else if name[0] == '/' {
        Some(name)
    } else {
        Some(seq!['/'] + name)
    }
}

/// The authority joined with the path.
fn joined(reference: &Reference) -> (r: String)
    ensures
        r@ == joined_name(*reference),
{
    match &reference.authority {
        Some(a) => a.clone().concat(reference.path.as_str()),
        None => reference.path.clone(),
    }
}

/// Secrets Manager secret id (no leading slash).
pub fn secret_manager_id(reference: &Reference) -> (r: Result<String, ProviderError>)
    ensures
        match r {
            Ok(id) => secret_id_of(joined_name(*reference)) == Some(id@),
            Err(e) => secret_id_of(joined_name(*reference)) is None && e.class
                == ErrorClass::InvalidReference && e.message@ == "empty Secrets Manager secret id"@,
        },
{
    let id = joined(reference);
    let id = trim_start_char(id.as_str(), '/');
    if id.unicode_len() == 0 {
        return Err(ProviderError::invalid_reference("empty Secrets Manager secret id"));
    }
    Ok(id)
}

/// SSM parameter name (absolute, leading slash).
pub fn ssm_parameter_name(reference: &Reference) -> (r: Result<String, ProviderError>)
    ensures
        match r {
            Ok(name) => parameter_name_of(joined_name(*reference)) == Some(name@),
            Err(e) => parameter_name_of(joined_name(*reference)) is None && e.class
                == ErrorClass::InvalidReference && e.message@ == "empty SSM parameter name"@,
        },
{
    let name = joined(reference);
    let n = name.unicode_len();
    if n == 0 || (n == 1 && name.get_char(0) == '/') {
        proof {
            if n == 1 {
                assert(name@ =~= seq!['/']);
            }
        }
        return Err(ProviderError::invalid_reference("empty SSM parameter name"));
    }
    proof {
        assert(name@ != seq!['/']) by {
            if name@ == seq!['/'] {
                assert(n == 1 && name@[0] == '/');
            }
        }
    }
    if name.get_char(0) == '/' {
        Ok(name)
    } else {
        proof {
            reveal_strlit("/");
        }
        Ok("/".to_owned().concat(name.as_str()))
    }
}

/// The SSM parameter name and the Secrets Manager secret id of a reference
/// name the same path: without its leading slashes the parameter name is the
/// secret id, and wherever a secret id exists, so does a parameter name.
pub proof fn lemma_parameter_name_and_secret_id_agree(reference: Reference)
    ensures
        parameter_name_of(joined_name(reference)) matches Some(n) ==> trim_leading(n, '/')
            == trim_leading(joined_name(reference), '/'),
        secret_id_of(joined_name(reference)) matches Some(id) ==> (parameter_name_of(
            joined_name(reference),
        ) is Some && secret_id_of(joined_name(reference)) == Some(
            trim_leading(parameter_name_of(joined_name(reference)).unwrap(), '/'),
        )),
{
    let j = joined_name(reference);
    let slashed = seq!['/'] + j;
    assert(slashed.drop_first() =~= j);
    assert(slashed[0] == '/');
    assert(leading_count(slashed, '/') == 1 + leading_count(j, '/'));
    lemma_leading_count_prefix(j, '/');
    assert(slashed.skip(1 + leading_count(j, '/') as int) =~= j.skip(leading_count(j, '/') as int));
    let lone = seq!['/'];
    assert(lone.len() == 1 && lone[0] == '/');
    assert(lone.drop_first().len() == 0);
    assert(leading_count(lone.drop_first(), '/') == 0);
    assert(leading_count(lone, '/') == 1);
}

/// A secret id is never empty and never starts with a slash; a parameter name
/// is always absolute: it starts with a slash and is more than that slash.
pub proof fn lemma_name_shapes(reference: Reference)
    ensures
        secret_id_of(joined_name(reference)) matches Some(id) ==> id.len() > 0 && id[0] != '/',
        parameter_name_of(joined_name(reference)) matches Some(n) ==> n.len() > 1 && n[0] == '/',
{
    let j = joined_name(reference);
    lemma_leading_count_prefix(j, '/');
    if parameter_name_of(j) is Some && j.len() > 0 && j[0] == '/' {
        if j.len() == 1 {
            assert(j =~= seq!['/']);
        }
    }
}

/// The secret id is the joined name with its leading slashes taken off: the
/// name is a run of slashes followed by the id, which does not start with a
/// slash; a name made of slashes alone has none.
pub proof fn lemma_secret_id_strips_leading_slashes(reference: Reference)
    ensures
        secret_id_of(joined_name(reference)) matches Some(id) ==> {
            let j = joined_name(reference);
            &&& id.len() <= j.len()
            &&& j.skip(j.len() - id.len()) == id
            &&& forall|i: int| 0 <= i < j.len() - id.len() ==> j[i] == '/'
            &&& id[0] != '/'
        },
        secret_id_of(joined_name(reference)) is None <==> forall|i: int|
            0 <= i < joined_name(reference).len() ==> joined_name(reference)[i] == '/',
{
    let j = joined_name(reference);
    lemma_leading_count_prefix(j, '/');
    if forall|i: int| 0 <= i < j.len() ==> j[i] == '/' {
        lemma_leading_count(j, '/', j.len() as int);
    }
}

/// The parameter name is the joined name where that starts with a slash, and
/// the joined name behind one slash otherwise; only the empty name and a lone
/// slash have none.
pub proof fn lemma_parameter_name_is_absolute_name(reference: Reference)
    ensures
        ({
            let j = joined_name(reference);
            parameter_name_of(j) is None <==> (j.len() == 0 || (j.len() == 1 && j[0] == '/'))
        }),
        ({
            let j = joined_name(reference);
            (j.len() > 1 && j[0] == '/') ==> parameter_name_of(j) == Some(j)
        }),
        ({
            let j = joined_name(reference);
            (j.len() > 0 && j[0] != '/') ==> parameter_name_of(j) == Some(seq!['/'] + j)
        }),
{
    let j = joined_name(reference);
    if j.len() == 1 && j[0] == '/' {
        assert(j =~= seq!['/']);
    }
}

} // verus!
