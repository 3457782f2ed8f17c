//! Access and entity validation: deciding, from the caller's identity,
//! whether an operation on an entity may proceed, and running custom
//! per-entity constraint checks.
//!
//! Identifiers are plain 128-bit values here; whoever parses or prints
//! them does so outside this crate.

use vstd::prelude::*;

use vstd::string::StringExecFns;

use crate::api::ApiError;

verus! {

/// The caller may touch entities of this network: either the entity is
/// network-less, or the network is among the caller's.
pub open spec fn network_access_ok(network_id: Option<u128>, user_network_ids: Seq<u128>) -> bool {
    network_id matches Some(id) ==> user_network_ids.contains(id)
}

/// The caller may touch entities of this organization: either the
/// entity carries none, or it is the caller's own.
pub open spec fn organization_access_ok(
    entity_organization_id: Option<u128>,
    user_organization_id: u128,
) -> bool {
    entity_organization_id matches Some(id) ==> id == user_organization_id
}

/// Whether `v` holds the identifier `id`.
fn contains_id(v: &[u128], id: u128) -> (r: bool)
    ensures
        r == v@.contains(id),
{
    let mut k: usize = 0;
    while k < v.len()
        invariant
            0 <= k <= v@.len(),
            forall|j: int| 0 <= j < k ==> v@[j] != id,
        decreases v@.len() - k,
    {
        if v[k] == id {
            return true;
        }
        k = k + 1;
    }
    false
}

/// Validate that the caller has access to a network.  Errors exactly
/// when the entity names a network outside the caller's set.
pub fn validate_network_access(
    network_id: Option<u128>,
    user_network_ids: &[u128],
    _action: &str,
) -> (r: Result<(), ApiError>)
    ensures
        r is Ok <==> network_access_ok(network_id, user_network_ids@),
        r matches Err(e) ==> e.status == 403,
{
    if let Some(id) = network_id {
        if !contains_id(user_network_ids, id) {
            return Err(ApiError::forbidden("Access denied to network"));
        }
    }
    Ok(())
}

/// Validate that the caller has access to an organization.  Errors
/// exactly when the entity carries a different organization.
pub fn validate_organization_access(
    entity_organization_id: Option<u128>,
    user_organization_id: u128,
    _action: &str,
) -> (r: Result<(), ApiError>)
    ensures
        r is Ok <==> organization_access_ok(entity_organization_id, user_organization_id),
        r matches Err(e) ==> e.status == 403,
{
    if let Some(id) = entity_organization_id {
        if id != user_organization_id {
            return Err(ApiError::forbidden("Access denied to organization"));
        }
    }
    Ok(())
}

/// Combined validation for create operations: network access, then
/// organization access.
pub fn validate_create_access(
    network_id: Option<u128>,
    organization_id: Option<u128>,
    user_network_ids: &[u128],
    user_organization_id: u128,
) -> (r: Result<(), ApiError>)
    ensures
        r is Ok <==> network_access_ok(network_id, user_network_ids@) && organization_access_ok(
            organization_id,
            user_organization_id,
        ),
        r matches Err(e) ==> e.status == 403,
{
    let nr = validate_network_access(network_id, user_network_ids, "create");
    if let Err(e) = nr {
        return Err(e);
    }
    let or = validate_organization_access(organization_id, user_organization_id, "create");
    if let Err(e) = or {
        return Err(e);
    }
    Ok(())
}

/// Combined validation for read and access operations.
pub fn validate_read_access(
    network_id: Option<u128>,
    organization_id: Option<u128>,
    user_network_ids: &[u128],
    user_organization_id: u128,
) -> (r: Result<(), ApiError>)
    ensures
        r is Ok <==> network_access_ok(network_id, user_network_ids@) && organization_access_ok(
            organization_id,
            user_organization_id,
        ),
        r matches Err(e) ==> e.status == 403,
{
    let nr = validate_network_access(network_id, user_network_ids, "access");
    if let Err(e) = nr {
        return Err(e);
    }
    let or = validate_organization_access(organization_id, user_organization_id, "access");
    if let Err(e) = or {
        return Err(e);
    }
    Ok(())
}

/// Combined validation for update operations: access to the existing
/// entity and to every new value being set.
pub fn validate_update_access(
    existing_network_id: Option<u128>,
    existing_organization_id: Option<u128>,
    new_network_id: Option<u128>,
    new_organization_id: Option<u128>,
    user_network_ids: &[u128],
    user_organization_id: u128,
) -> (r: Result<(), ApiError>)
    ensures
        r is Ok <==> network_access_ok(existing_network_id, user_network_ids@)
            && organization_access_ok(existing_organization_id, user_organization_id)
            && network_access_ok(new_network_id, user_network_ids@) && organization_access_ok(
            new_organization_id,
            user_organization_id,
        ),
        r matches Err(e) ==> e.status == 403,
{
    // First check access to the existing entity...
    let nr = validate_network_access(existing_network_id, user_network_ids, "update");
    if let Err(e) = nr {
        return Err(e);
    }
    let or = validate_organization_access(existing_organization_id, user_organization_id, "update");
    if let Err(e) = or {
        return Err(e);
    }
    // ...then to the new values being set.
    let nr = validate_network_access(new_network_id, user_network_ids, "update");
    if let Err(e) = nr {
        return Err(e);
    }
    let or = validate_organization_access(new_organization_id, user_organization_id, "update");
    if let Err(e) = or {
        return Err(e);
    }
    Ok(())
}

/// Combined validation for delete operations.
pub fn validate_delete_access(
    network_id: Option<u128>,
    organization_id: Option<u128>,
    user_network_ids: &[u128],
    user_organization_id: u128,
) -> (r: Result<(), ApiError>)
    ensures
        r is Ok <==> network_access_ok(network_id, user_network_ids@) && organization_access_ok(
            organization_id,
            user_organization_id,
        ),
        r matches Err(e) ==> e.status == 403,
{
    let nr = validate_network_access(network_id, user_network_ids, "delete");
    if let Err(e) = nr {
        return Err(e);
    }
    let or = validate_organization_access(organization_id, user_organization_id, "delete");
    if let Err(e) = or {
        return Err(e);
    }
    Ok(())
}

/// Validation for bulk delete operations, same rule for every entity of
/// the batch.
pub fn validate_bulk_delete_access(
    network_id: Option<u128>,
    organization_id: Option<u128>,
    user_network_ids: &[u128],
    user_organization_id: u128,
) -> (r: Result<(), ApiError>)
    ensures
        r is Ok <==> network_access_ok(network_id, user_network_ids@) && organization_access_ok(
            organization_id,
            user_organization_id,
        ),
        r matches Err(e) ==> e.status == 403,
{
    let nr = validate_network_access(network_id, user_network_ids, "delete");
    if let Err(e) = nr {
        return Err(e);
    }
    let or = validate_organization_access(organization_id, user_organization_id, "delete");
    if let Err(e) = or {
        return Err(e);
    }
    Ok(())
}

/// Run a custom validation and turn its report into a bad-request error
/// naming the entity: `"<entity> validation failed: <report>"`.
pub fn validate_entity<F: FnOnce() -> Result<(), String>>(validate_fn: F, entity_name: &str) -> (r:
    Result<(), ApiError>)
    requires
        call_requires(validate_fn, ()),
    ensures
        r is Ok ==> call_ensures(validate_fn, (), Ok::<(), String>(())),
        r matches Err(e) ==> e.status == 400 && exists|msg: String|
            call_ensures(validate_fn, (), Err(msg)) && e.message@ == entity_name@
                + " validation failed: "@ + msg@,
{
    let res = validate_fn();
    match res {
        Ok(u) => {
            proof {
                assert(call_ensures(validate_fn, (), Ok::<(), String>(u)));
            }
            Ok(())
        },
        Err(err) => {
            let mut message = entity_name.to_owned();
            message.append(" validation failed: ");
            message.append(err.as_str());
            proof {
                assert(call_ensures(validate_fn, (), Err::<(), String>(err)));
            }
            Err(ApiError { status: 400, message })
        },
    }
}

} // verus!
