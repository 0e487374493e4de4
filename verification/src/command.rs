use vstd::prelude::*;

verus! {

/// The closed set of requests the broker accepts: one variant per engine
/// operation, each carrying exactly the arguments that operation needs.
/// A command is built by a caller and consumed once by the dispatcher.
pub enum CasbinCmd {
    Enforce(Vec<String>),
    AddPolicy(Vec<String>),
    AddPolicies(Vec<Vec<String>>),
    AddNamedPolicy(String, Vec<String>),
    AddNamedPolicies(String, Vec<Vec<String>>),
    AddGroupingPolicy(Vec<String>),
    AddGroupingPolicies(Vec<Vec<String>>),
    AddNamedGroupingPolicy(String, Vec<String>),
    AddNamedGroupingPolicies(String, Vec<Vec<String>>),
    RemovePolicy(Vec<String>),
    RemovePolicies(Vec<Vec<String>>),
    RemoveNamedPolicy(String, Vec<String>),
    RemoveNamedPolicies(String, Vec<Vec<String>>),
    RemoveGroupingPolicy(Vec<String>),
    RemoveGroupingPolicies(Vec<Vec<String>>),
    RemoveNamedGroupingPolicy(String, Vec<String>),
    RemoveNamedGroupingPolicies(String, Vec<Vec<String>>),
    RemoveFilteredNamedPolicy(String, usize, Vec<String>),
    RemoveFilteredNamedGroupingPolicy(String, usize, Vec<String>),
    AddRoleForUser(String, String, Option<String>),
    AddRolesForUser(String, Vec<String>, Option<String>),
    DeleteRoleForUser(String, String, Option<String>),
    DeleteRolesForUser(String, Option<String>),
    GetImplicitRolesForUser(String, Option<String>),
    GetImplicitPermissionsForUser(String, Option<String>),
}

/// The matching closed set of responses: the variant always mirrors the
/// command that produced it, so a caller can recover the outcome by a
/// single pattern match.
pub enum CasbinResult {
    Enforce(bool),
    AddPolicy(bool),
    AddPolicies(bool),
    AddNamedPolicy(bool),
    AddNamedPolicies(bool),
    AddGroupingPolicy(bool),
    AddGroupingPolicies(bool),
    AddNamedGroupingPolicy(bool),
    AddNamedGroupingPolicies(bool),
    RemovePolicy(bool),
    RemovePolicies(bool),
    RemoveNamedPolicy(bool),
    RemoveNamedPolicies(bool),
    RemoveGroupingPolicy(bool),
    RemoveGroupingPolicies(bool),
    RemoveNamedGroupingPolicy(bool),
    RemoveNamedGroupingPolicies(bool),
    RemoveFilteredNamedPolicy(bool),
    RemoveFilteredNamedGroupingPolicy(bool),
    AddRoleForUser(bool),
    AddRolesForUser(bool),
    DeleteRoleForUser(bool),
    DeleteRolesForUser(bool),
    GetImplicitRolesForUser(Vec<String>),
    GetImplicitPermissionsForUser(Vec<Vec<String>>),
}

} // verus!
