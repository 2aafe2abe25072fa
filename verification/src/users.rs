//! Endpoint paths for the user resources.
//!
//! Each function builds the path of one GET endpoint, relative to the API
//! root; the transport appends it to the base URL.

use vstd::prelude::*;

verus! {

/// Relies on `String::push_str`: it appends the given slice's characters.
pub assume_specification[ String::push_str ](s: &mut String, other: &str)
    ensures
        final(s)@ == old(s)@ + other@,
;

/// The current authenticated user: the same record as "/users/{gid}" with
/// the authenticated user's gid.
pub fn me() -> (r: String)
    ensures
        r@ == "/users/me"@,
{
    "/users/me".to_owned()
}

/// The user records for all users in all workspaces and organizations
/// accessible to the authenticated user, sorted by user ID.
pub fn users() -> (r: String)
    ensures
        r@ == "/users"@,
{
    "/users".to_owned()
}

/// The full user record for the single user with the provided ID.
pub fn user(user_gid: &str) -> (r: String)
    ensures
        r@ == "/users/"@ + user_gid@,
{
    let mut r: String = "/users/".to_owned();
    r.push_str(user_gid);
    r
}

/// All of a user's favorites in the given workspace, of the given type, in
/// the same order as Asana's sidebar.
pub fn favorites(user_gid: &str, resource_type: &str, workspace_gid: &str) -> (r: String)
    ensures
        r@ == "/users/"@ + user_gid@ + "/favorites?resource_type="@ + resource_type@
            + "&workspace="@ + workspace_gid@,
{
    let mut r: String = "/users/".to_owned();
    r.push_str(user_gid);
    r.push_str("/favorites?resource_type=");
    r.push_str(resource_type);
    r.push_str("&workspace=");
    r.push_str(workspace_gid);
    r
}

/// The compact records for all users that are members of the team.
pub fn team(team_gid: &str) -> (r: String)
    ensures
        r@ == "/teams/"@ + team_gid@ + "/users"@,
{
    let mut r: String = "/teams/".to_owned();
    r.push_str(team_gid);
    r.push_str("/users");
    r
}

/// The user records for all users in the specified workspace or
/// organization, sorted alphabetically by user name.
pub fn workspace(workspace_gid: &str) -> (r: String)
    ensures
        r@ == "/workspaces/"@ + workspace_gid@ + "/users"@,
{
    let mut r: String = "/workspaces/".to_owned();
    r.push_str(workspace_gid);
    r.push_str("/users");
    r
}

} // verus!
