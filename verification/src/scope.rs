//! The scopes a login may request.

use vstd::prelude::*;

use crate::error::{LoginError, LoginErrorView};
use crate::text::same_text;

verus! {

/// The names of the permissible scopes, in the order in which a default
/// login requests them.
pub open spec fn allowed_scope_names() -> Seq<Seq<char>> {
    seq![
        "account:read"@,
        "user:read"@,
        "workers:write"@,
        "workers_kv:write"@,
        "workers_routes:write"@,
        "workers_scripts:write"@,
        "workers_tail:read"@,
        "zone:read"@,
    ]
}

/// Membership in the allow-list: an exact, case-sensitive match.
pub open spec fn is_allowed(name: Seq<char>) -> bool {
    allowed_scope_names().contains(name)
}

/// Tells whether `name` is one of the permissible scopes.
pub fn is_allowed_scope(name: &str) -> (allowed: bool)
    ensures
        allowed == is_allowed(name@),
{
    let allowed = same_text(name, "account:read") || same_text(name, "user:read")
        || same_text(name, "workers:write") || same_text(name, "workers_kv:write")
        || same_text(name, "workers_routes:write") || same_text(name, "workers_scripts:write")
        || same_text(name, "workers_tail:read") || same_text(name, "zone:read");
    proof {
        let names = allowed_scope_names();
        assert(names[0] == "account:read"@);
        assert(names[1] == "user:read"@);
        assert(names[2] == "workers:write"@);
        assert(names[3] == "workers_kv:write"@);
        assert(names[4] == "workers_routes:write"@);
        assert(names[5] == "workers_scripts:write"@);
        assert(names[6] == "workers_tail:read"@);
        assert(names[7] == "zone:read"@);
    }
    allowed
}

/// Every name of `names` is on the allow-list.
pub open spec fn all_allowed(names: Seq<Seq<char>>) -> bool {
    forall|i: int| 0 <= i < names.len() ==> is_allowed(#[trigger] names[i])
}

/// `i` is the place of the first name of `names` that is not on the
/// allow-list.
pub open spec fn is_first_rejected(names: Seq<Seq<char>>, i: int) -> bool {
    &&& 0 <= i < names.len()
    &&& !is_allowed(names[i])
    &&& forall|j: int| 0 <= j < i ==> is_allowed(#[trigger] names[j])
}

/// The place of the first name of `names` that is not on the allow-list,
/// where there is one.
pub open spec fn first_rejected(names: Seq<Seq<char>>) -> int {
    choose|i: int| is_first_rejected(names, i)
}

/// The scopes to request for a given wish: the whole allow-list where
/// nothing was asked for, the wish itself where all of it is permissible,
/// and otherwise the first name that is not.
pub open spec fn resolved_scopes(requested: Option<Seq<Seq<char>>>) -> Result<
    Seq<Seq<char>>,
    LoginErrorView,
> {
    match requested {
        None => Ok(allowed_scope_names()),
        Some(names) => if all_allowed(names) {
            Ok(names)
        } else {
            Err(LoginErrorView::InvalidScope(names[first_rejected(names)]))
        },
    }
}

/// Only one place can be the first rejected one.
pub proof fn lemma_first_rejected_is_unique(names: Seq<Seq<char>>, i: int)
    requires
        is_first_rejected(names, i),
    ensures
        first_rejected(names) == i,
        !all_allowed(names),
{
    let j = first_rejected(names);
    assert(is_first_rejected(names, j));
    if j < i {
        assert(is_allowed(names[j]));
    } else if i < j {
        assert(is_allowed(names[i]));
    }
}

/// The allow-list, in the order in which a default login requests it.
pub fn allowed_scopes() -> (scopes: Vec<String>)
    ensures
        scopes.deep_view() == allowed_scope_names(),
{
    let mut scopes: Vec<String> = Vec::new();
    scopes.push("account:read".to_owned());
    scopes.push("user:read".to_owned());
    scopes.push("workers:write".to_owned());
    scopes.push("workers_kv:write".to_owned());
    scopes.push("workers_routes:write".to_owned());
    scopes.push("workers_scripts:write".to_owned());
    scopes.push("workers_tail:read".to_owned());
    scopes.push("zone:read".to_owned());
    assert(scopes.deep_view() =~= allowed_scope_names());
    scopes
}

/// Resolves the scopes of a login.
///
/// With no request the whole allow-list is granted. A request is taken as
/// it stands, in its own order, if every name in it is permissible;
/// otherwise the first name that is not is reported and nothing is
/// resolved.
pub fn resolve_scopes(requested: Option<&Vec<String>>) -> (resolved: Result<
    Vec<String>,
    LoginError,
>)
    ensures
        match resolved_scopes(requested.deep_view()) {
            Ok(names) => resolved matches Ok(scopes) && scopes.deep_view() == names,
            Err(error) => resolved matches Err(e) && e@ == error,
        },
{
    match requested {
        None => Ok(allowed_scopes()),
        Some(list) => {
            let ghost names = list.deep_view();
            let mut scopes: Vec<String> = Vec::new();
            let mut i: usize = 0;
            while i < list.len()
                invariant
                    i <= list.len(),
                    names == list.deep_view(),
                    requested.deep_view() == Some(names),
                    scopes.len() == i,
                    scopes.deep_view() == names.subrange(0, i as int),
                    forall|j: int| 0 <= j < i ==> is_allowed(#[trigger] names[j]),
                decreases list.len() - i,
            {
                let name: &str = list[i].as_str();
                assert(name@ == names[i as int]);
                if !is_allowed_scope(name) {
                    proof {
                        lemma_first_rejected_is_unique(names, i as int);
                    }
                    return Err(LoginError::InvalidScope(name.to_owned()));
                }
                let ghost before = scopes.deep_view();
                scopes.push(name.to_owned());
                assert(scopes.deep_view() =~= names.subrange(0, i + 1)) by {
                    assert forall|k: int| 0 <= k < i implies scopes.deep_view()[k] == names[k] by {
                        assert(scopes.deep_view()[k] == before[k]);
                    }
                }
                i += 1;
            }
            assert(names.subrange(0, i as int) =~= names);
            Ok(scopes)
        },
    }
}

/// A request made of permissible names alone is granted exactly as it
/// stands, and a request that names the same scopes in another order is
/// granted the same set of scopes.
pub proof fn lemma_permissible_request_is_granted(
    names: Seq<Seq<char>>,
    reordered: Seq<Seq<char>>,
)
    requires
        all_allowed(names),
        reordered.to_set() == names.to_set(),
    ensures
        resolved_scopes(Some(names)) == Ok::<Seq<Seq<char>>, LoginErrorView>(names),
        resolved_scopes(Some(reordered)) matches Ok(granted) && granted.to_set() == names.to_set(),
{
    assert forall|i: int| 0 <= i < reordered.len() implies is_allowed(#[trigger] reordered[i]) by {
        assert(reordered.to_set().contains(reordered[i]));
        assert(names.to_set().contains(reordered[i]));
        let j = choose|j: int| 0 <= j < names.len() && names[j] == reordered[i];
        assert(is_allowed(names[j]));
    }
}

/// A request in which exactly one name is not permissible is refused, and
/// the refusal names that scope.
pub proof fn lemma_rejected_scope_is_named(names: Seq<Seq<char>>, i: int)
    requires
        0 <= i < names.len(),
        !is_allowed(names[i]),
        forall|j: int| 0 <= j < names.len() && j != i ==> is_allowed(#[trigger] names[j]),
    ensures
        resolved_scopes(Some(names)) == Err::<Seq<Seq<char>>, LoginErrorView>(
            LoginErrorView::InvalidScope(names[i]),
        ),
{
    lemma_first_rejected_is_unique(names, i);
}

} // verus!
