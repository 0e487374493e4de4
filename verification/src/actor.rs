use vstd::prelude::*;
use crate::command::CasbinCmd;
use crate::command::CasbinResult;
use crate::engine::default_configured;
use crate::engine::effect_supported;
use crate::engine::effect_value_supported;
use crate::engine::enforce_outcome;
use crate::engine::engine_add_named_grouping_policies;
use crate::engine::engine_add_named_grouping_policy;
use crate::engine::engine_add_named_policies;
use crate::engine::engine_add_named_policy;
use crate::engine::engine_disable_auto_save;
use crate::engine::engine_effect_entry;
use crate::engine::engine_enforce;
use crate::engine::engine_get_implicit_permissions;
use crate::engine::engine_get_implicit_roles;
use crate::engine::engine_get_named_grouping_policy;
use crate::engine::engine_get_named_policy;
use crate::engine::engine_has_grouping_tag;
use crate::engine::engine_has_policy_tag;
use crate::engine::engine_new_with_model;
use crate::engine::engine_remove_filtered_named_grouping_policy;
use crate::engine::engine_remove_filtered_named_policy;
use crate::engine::engine_remove_named_grouping_policies;
use crate::engine::engine_remove_named_grouping_policy;
use crate::engine::engine_remove_named_policies;
use crate::engine::engine_remove_named_policy;
use crate::engine::grouping_sections;
use crate::engine::grouping_tags;
use crate::engine::implicit_permission_set;
use crate::engine::implicit_role_set;
use crate::engine::links_buildable;
use crate::engine::model_accepted;
use crate::engine::model_of;
use crate::engine::policy_sections;
use crate::engine::policy_tags;
use crate::rules::add_batch;
use crate::rules::add_batch_changed;
use crate::rules::add_rule;
use crate::rules::add_rule_result;
use crate::rules::all_rows_scan_ok;
use crate::rules::check_rows_len;
use crate::rules::check_rows_scan;
use crate::rules::filtered_remove;
use crate::rules::filtered_result;
use crate::rules::remove_batch;
use crate::rules::remove_batch_changed;
use crate::rules::remove_rule;
use crate::rules::remove_rule_result;
use crate::rules::rows_min_len;

verus! {

/// How a submitted command can fail: the dispatcher's engine reference has
/// been cleared by a restart (every later command fails the same way until
/// a new dispatcher is built), or the engine itself rejected the operation,
/// in which case its error is handed through unchanged.
#[derive(Debug)]
pub enum BrokerError {
    NotConnected,
    Engine(casbin::Error),
}

/// What the dispatcher's engine holds, as one mathematical value: the model
/// text and the two stores of rows.
pub ghost struct EngineView {
    pub model: Seq<char>,
    pub policies: Map<Seq<char>, Seq<Seq<Seq<char>>>>,
    pub groupings: Map<Seq<char>, Seq<Seq<Seq<char>>>>,
}

/// The view of one engine value.
pub open spec fn view_of(e: casbin::Enforcer) -> EngineView {
    EngineView {
        model: model_of(e),
        policies: policy_sections(e),
        groupings: grouping_sections(e),
    }
}

/// The grouping row a role assignment stands for: `[user, role]`, with the
/// domain appended when one is given.
pub open spec fn role_rule(user: Seq<char>, role: Seq<char>, domain: Option<Seq<char>>) -> Seq<
    Seq<char>,
> {
    match domain {
        Some(d) => seq![user, role, d],
        None => seq![user, role],
    }
}

/// The grouping rows a batch role assignment stands for, one per role.
pub open spec fn roles_batch(
    user: Seq<char>,
    roles: Seq<Seq<char>>,
    domain: Option<Seq<char>>,
) -> Seq<Seq<Seq<char>>> {
    roles.map_values(|role: Seq<char>| role_rule(user, role, domain))
}

/// The pattern that deletes every role of a user: the user at the first
/// field; with a domain, any role in between and the domain at the third.
pub open spec fn roles_filter_pattern(user: Seq<char>, domain: Option<Seq<char>>) -> Seq<
    Seq<char>,
> {
    match domain {
        Some(d) => seq![user, Seq::empty(), d],
        None => seq![user],
    }
}

/// What a command needs of the engine before the broker will run it.  A
/// filtered removal must be able to test every stored row of its tag
/// against its pattern, and the implicit-permission query must find every
/// policy row long enough for its subject filter (the engine reads those
/// fields unchecked).  Enforcement needs an effect entry the engine's
/// effector knows (an unknown one aborts inside the engine).  A command
/// that fails its obligation would abort the engine; the broker treats it
/// as a fault of its own execution path.
pub open spec fn command_obligation(v: EngineView, m: CasbinCmd) -> bool {
    match m {
        CasbinCmd::Enforce(_) => effect_supported(v.model),
        CasbinCmd::RemoveFilteredNamedPolicy(t, idx, vals) => all_rows_scan_ok(
            v.policies,
            t@,
            idx as int,
            vals.deep_view(),
        ),
        CasbinCmd::RemoveFilteredNamedGroupingPolicy(t, idx, vals) => all_rows_scan_ok(
            v.groupings,
            t@,
            idx as int,
            vals.deep_view(),
        ),
        CasbinCmd::DeleteRolesForUser(user, domain) => all_rows_scan_ok(
            v.groupings,
            "g"@,
            0,
            roles_filter_pattern(user@, domain.deep_view()),
        ),
        CasbinCmd::GetImplicitPermissionsForUser(_, domain) => rows_min_len(
            v.policies,
            "p"@,
            if domain.deep_view() is Some {
                2
            } else {
                1
            },
        ),
        _ => true,
    }
}

/// The commands on which the engine cannot fail: operations on the policy
/// store alone (no role links to rebuild) and the two implicit queries.
pub open spec fn engine_infallible(m: CasbinCmd) -> bool {
    match m {
        CasbinCmd::AddPolicy(_) => true,
        CasbinCmd::AddPolicies(_) => true,
        CasbinCmd::AddNamedPolicy(_, _) => true,
        CasbinCmd::AddNamedPolicies(_, _) => true,
        CasbinCmd::RemovePolicy(_) => true,
        CasbinCmd::RemovePolicies(_) => true,
        CasbinCmd::RemoveNamedPolicy(_, _) => true,
        CasbinCmd::RemoveNamedPolicies(_, _) => true,
        CasbinCmd::RemoveFilteredNamedPolicy(_, _, _) => true,
        CasbinCmd::GetImplicitRolesForUser(_, _) => true,
        CasbinCmd::GetImplicitPermissionsForUser(_, _) => true,
        _ => false,
    }
}

/// The commands whose answer depends on the engine's evaluation
/// configuration, not on the stores alone: enforcement and the two
/// implicit queries.  Their answers are pinned only on a
/// default-configured engine.
pub open spec fn config_sensitive(m: CasbinCmd) -> bool {
    match m {
        CasbinCmd::Enforce(_) => true,
        CasbinCmd::GetImplicitRolesForUser(_, _) => true,
        CasbinCmd::GetImplicitPermissionsForUser(_, _) => true,
        _ => false,
    }
}

/// When a command, run on a default-configured engine that meets its
/// obligation, is owed a successful answer: always, except that
/// enforcement succeeds exactly when its outcome is defined, and a
/// grouping or role mutation succeeds exactly when the role links can be
/// rebuilt over the store it leaves behind.
pub open spec fn cmd_ok(v: EngineView, m: CasbinCmd) -> bool {
    match m {
        CasbinCmd::Enforce(req) => enforce_outcome(
            v.model,
            v.policies,
            v.groupings,
            req.deep_view(),
        ) is Some,
        CasbinCmd::AddGroupingPolicy(..) | CasbinCmd::AddGroupingPolicies(..)
            | CasbinCmd::AddNamedGroupingPolicy(..) | CasbinCmd::AddNamedGroupingPolicies(..)
            | CasbinCmd::RemoveGroupingPolicy(..) | CasbinCmd::RemoveGroupingPolicies(..)
            | CasbinCmd::RemoveNamedGroupingPolicy(..) | CasbinCmd::RemoveNamedGroupingPolicies(
            ..,
        ) | CasbinCmd::RemoveFilteredNamedGroupingPolicy(..) | CasbinCmd::AddRoleForUser(..)
            | CasbinCmd::AddRolesForUser(..) | CasbinCmd::DeleteRoleForUser(..)
            | CasbinCmd::DeleteRolesForUser(..) => links_buildable(
            v.model,
            cmd_step(v, m).groupings,
        ),
        _ => true,
    }
}

/// The engine view after a command is applied in full: queries leave it as
/// it is, plain policy commands go to the policy store under the tag they
/// name (`p` for the unnamed forms), grouping and role commands go to the
/// grouping store (`g` for the unnamed and role forms).
pub open spec fn cmd_step(v: EngineView, m: CasbinCmd) -> EngineView {
    match m {
        CasbinCmd::Enforce(_) => v,
        CasbinCmd::AddPolicy(rule) => EngineView {
            policies: add_rule(v.policies, "p"@, rule.deep_view()),
            ..v
        },
        CasbinCmd::AddPolicies(rules) => EngineView {
            policies: add_batch(v.policies, "p"@, rules.deep_view()),
            ..v
        },
        CasbinCmd::AddNamedPolicy(t, rule) => EngineView {
            policies: add_rule(v.policies, t@, rule.deep_view()),
            ..v
        },
        CasbinCmd::AddNamedPolicies(t, rules) => EngineView {
            policies: add_batch(v.policies, t@, rules.deep_view()),
            ..v
        },
        CasbinCmd::AddGroupingPolicy(rule) => EngineView {
            groupings: add_rule(v.groupings, "g"@, rule.deep_view()),
            ..v
        },
        CasbinCmd::AddGroupingPolicies(rules) => EngineView {
            groupings: add_batch(v.groupings, "g"@, rules.deep_view()),
            ..v
        },
        CasbinCmd::AddNamedGroupingPolicy(t, rule) => EngineView {
            groupings: add_rule(v.groupings, t@, rule.deep_view()),
            ..v
        },
        CasbinCmd::AddNamedGroupingPolicies(t, rules) => EngineView {
            groupings: add_batch(v.groupings, t@, rules.deep_view()),
            ..v
        },
        CasbinCmd::RemovePolicy(rule) => EngineView {
            policies: remove_rule(v.policies, "p"@, rule.deep_view()),
            ..v
        },
        CasbinCmd::RemovePolicies(rules) => EngineView {
            policies: remove_batch(v.policies, "p"@, rules.deep_view()),
            ..v
        },
        CasbinCmd::RemoveNamedPolicy(t, rule) => EngineView {
            policies: remove_rule(v.policies, t@, rule.deep_view()),
            ..v
        },
        CasbinCmd::RemoveNamedPolicies(t, rules) => EngineView {
            policies: remove_batch(v.policies, t@, rules.deep_view()),
            ..v
        },
        CasbinCmd::RemoveGroupingPolicy(rule) => EngineView {
            groupings: remove_rule(v.groupings, "g"@, rule.deep_view()),
            ..v
        },
        CasbinCmd::RemoveGroupingPolicies(rules) => EngineView {
            groupings: remove_batch(v.groupings, "g"@, rules.deep_view()),
            ..v
        },
        CasbinCmd::RemoveNamedGroupingPolicy(t, rule) => EngineView {
            groupings: remove_rule(v.groupings, t@, rule.deep_view()),
            ..v
        },
        CasbinCmd::RemoveNamedGroupingPolicies(t, rules) => EngineView {
            groupings: remove_batch(v.groupings, t@, rules.deep_view()),
            ..v
        },
        CasbinCmd::RemoveFilteredNamedPolicy(t, idx, vals) => EngineView {
            policies: filtered_remove(v.policies, t@, idx as int, vals.deep_view()),
            ..v
        },
        CasbinCmd::RemoveFilteredNamedGroupingPolicy(t, idx, vals) => EngineView {
            groupings: filtered_remove(v.groupings, t@, idx as int, vals.deep_view()),
            ..v
        },
        CasbinCmd::AddRoleForUser(user, role, domain) => EngineView {
            groupings: add_rule(
                v.groupings,
                "g"@,
                role_rule(user@, role@, domain.deep_view()),
            ),
            ..v
        },
        CasbinCmd::AddRolesForUser(user, roles, domain) => EngineView {
            groupings: add_batch(
                v.groupings,
                "g"@,
                roles_batch(user@, roles.deep_view(), domain.deep_view()),
            ),
            ..v
        },
        CasbinCmd::DeleteRoleForUser(user, role, domain) => EngineView {
            groupings: remove_rule(
                v.groupings,
                "g"@,
                role_rule(user@, role@, domain.deep_view()),
            ),
            ..v
        },
        CasbinCmd::DeleteRolesForUser(user, domain) => EngineView {
            groupings: filtered_remove(
                v.groupings,
                "g"@,
                0,
                roles_filter_pattern(user@, domain.deep_view()),
            ),
            ..v
        },
        CasbinCmd::GetImplicitRolesForUser(_, _) => v,
        CasbinCmd::GetImplicitPermissionsForUser(_, _) => v,
    }
}

/// The answer a command earns at a given engine view: the result variant
/// mirrors the command, every mutating command reports whether the store
/// changed, enforcement reports the engine's decision, and the implicit
/// queries hand back exactly the reachable set (the role query free of
/// repetition).
pub open spec fn answer_matches(v: EngineView, m: CasbinCmd, res: CasbinResult) -> bool {
    match (m, res) {
        (CasbinCmd::Enforce(req), CasbinResult::Enforce(b)) => enforce_outcome(
            v.model,
            v.policies,
            v.groupings,
            req.deep_view(),
        ) == Some(b),
        (CasbinCmd::AddPolicy(rule), CasbinResult::AddPolicy(b)) => b == add_rule_result(
            v.policies,
            "p"@,
            rule.deep_view(),
        ),
        (CasbinCmd::AddPolicies(rules), CasbinResult::AddPolicies(b)) => b == add_batch_changed(
            v.policies,
            "p"@,
            rules.deep_view(),
        ),
        (CasbinCmd::AddNamedPolicy(t, rule), CasbinResult::AddNamedPolicy(b)) => b
            == add_rule_result(v.policies, t@, rule.deep_view()),
        (CasbinCmd::AddNamedPolicies(t, rules), CasbinResult::AddNamedPolicies(b)) => b
            == add_batch_changed(v.policies, t@, rules.deep_view()),
        (CasbinCmd::AddGroupingPolicy(rule), CasbinResult::AddGroupingPolicy(b)) => b
            == add_rule_result(v.groupings, "g"@, rule.deep_view()),
        (CasbinCmd::AddGroupingPolicies(rules), CasbinResult::AddGroupingPolicies(b)) => b
            == add_batch_changed(v.groupings, "g"@, rules.deep_view()),
        (CasbinCmd::AddNamedGroupingPolicy(t, rule), CasbinResult::AddNamedGroupingPolicy(b)) => b
            == add_rule_result(v.groupings, t@, rule.deep_view()),
        (
            CasbinCmd::AddNamedGroupingPolicies(t, rules),
            CasbinResult::AddNamedGroupingPolicies(b),
        ) => b == add_batch_changed(v.groupings, t@, rules.deep_view()),
        (CasbinCmd::RemovePolicy(rule), CasbinResult::RemovePolicy(b)) => b == remove_rule_result(
            v.policies,
            "p"@,
            rule.deep_view(),
        ),
        (CasbinCmd::RemovePolicies(rules), CasbinResult::RemovePolicies(b)) => b
            == remove_batch_changed(v.policies, "p"@, rules.deep_view()),
        (CasbinCmd::RemoveNamedPolicy(t, rule), CasbinResult::RemoveNamedPolicy(b)) => b
            == remove_rule_result(v.policies, t@, rule.deep_view()),
        (CasbinCmd::RemoveNamedPolicies(t, rules), CasbinResult::RemoveNamedPolicies(b)) => b
            == remove_batch_changed(v.policies, t@, rules.deep_view()),
        (CasbinCmd::RemoveGroupingPolicy(rule), CasbinResult::RemoveGroupingPolicy(b)) => b
            == remove_rule_result(v.groupings, "g"@, rule.deep_view()),
        (CasbinCmd::RemoveGroupingPolicies(rules), CasbinResult::RemoveGroupingPolicies(b)) => b
            == remove_batch_changed(v.groupings, "g"@, rules.deep_view()),
        (
            CasbinCmd::RemoveNamedGroupingPolicy(t, rule),
            CasbinResult::RemoveNamedGroupingPolicy(b),
        ) => b == remove_rule_result(v.groupings, t@, rule.deep_view()),
        (
            CasbinCmd::RemoveNamedGroupingPolicies(t, rules),
            CasbinResult::RemoveNamedGroupingPolicies(b),
        ) => b == remove_batch_changed(v.groupings, t@, rules.deep_view()),
        (
            CasbinCmd::RemoveFilteredNamedPolicy(t, idx, vals),
            CasbinResult::RemoveFilteredNamedPolicy(b),
        ) => b == filtered_result(v.policies, t@, idx as int, vals.deep_view()),
        (
            CasbinCmd::RemoveFilteredNamedGroupingPolicy(t, idx, vals),
            CasbinResult::RemoveFilteredNamedGroupingPolicy(b),
        ) => b == filtered_result(v.groupings, t@, idx as int, vals.deep_view()),
        (CasbinCmd::AddRoleForUser(user, role, domain), CasbinResult::AddRoleForUser(b)) => b
            == add_rule_result(v.groupings, "g"@, role_rule(user@, role@, domain.deep_view())),
        (CasbinCmd::AddRolesForUser(user, roles, domain), CasbinResult::AddRolesForUser(b)) => b
            == add_batch_changed(
            v.groupings,
            "g"@,
            roles_batch(user@, roles.deep_view(), domain.deep_view()),
        ),
        (CasbinCmd::DeleteRoleForUser(user, role, domain), CasbinResult::DeleteRoleForUser(b)) => b
            == remove_rule_result(v.groupings, "g"@, role_rule(user@, role@, domain.deep_view())),
        (CasbinCmd::DeleteRolesForUser(user, domain), CasbinResult::DeleteRolesForUser(b)) => b
            == filtered_result(
            v.groupings,
            "g"@,
            0,
            roles_filter_pattern(user@, domain.deep_view()),
        ),
        (
            CasbinCmd::GetImplicitRolesForUser(user, domain),
            CasbinResult::GetImplicitRolesForUser(roles),
        ) => roles.deep_view().to_set() == implicit_role_set(
            v.model,
            v.groupings,
            user@,
            domain.deep_view(),
        ) && roles.deep_view().no_duplicates(),
        (
            CasbinCmd::GetImplicitPermissionsForUser(user, domain),
            CasbinResult::GetImplicitPermissionsForUser(perms),
        ) => perms.deep_view().to_set() == implicit_permission_set(
            v.model,
            v.policies,
            v.groupings,
            user@,
            domain.deep_view(),
        ),
        _ => false,
    }
}

/// The dispatcher: the one owner of the policy engine.  Commands are
/// applied one at a time through an exclusive borrow, so no two commands
/// ever interleave and every answer is computed against a store no other
/// command is touching.  `enforcer` is `None` after a supervised restart;
/// it stays `None` until a fresh dispatcher is built.
pub struct CasbinActor {
    pub enforcer: Option<casbin::Enforcer>,
}

impl CasbinActor {
    /// Builds a dispatcher around a fresh engine made from a model text and
    /// an empty store.  Construction succeeds exactly when the engine
    /// accepts the text; a rejected model yields the engine's error and no
    /// dispatcher.  On success the engine carries its construction-time
    /// configuration and the model's own tags, each with no rows yet.
    pub fn new(model_text: &str) -> (r: Result<CasbinActor, casbin::Error>)
        ensures
            r is Ok <==> model_accepted(model_text@),
            r matches Ok(a) ==> a.enforcer matches Some(e) && default_configured(e) && model_of(e)
                == model_text@ && policy_sections(e).dom() == policy_tags(model_text@)
                && grouping_sections(e).dom() == grouping_tags(model_text@) && (forall|
                t: Seq<char>,
            |
                policy_sections(e).dom().contains(t) ==> policy_sections(e)[t].len() == 0) && (
            forall|t: Seq<char>|
                grouping_sections(e).dom().contains(t) ==> grouping_sections(e)[t].len() == 0),
    {
        match engine_new_with_model(model_text) {
            Ok(e) => Ok(CasbinActor { enforcer: Some(e) }),
            Err(err) => Err(err),
        }
    }

    /// Builds a dispatcher around an engine that already exists, taking
    /// sole ownership of it: unlike a shared-lock design, no co-owned
    /// handle survives the call, so no other holder observes this
    /// dispatcher's commands.  The engine's auto-save is switched off on
    /// the way in -- an engine whose adapter really persists would
    /// otherwise keep writing through it -- and its model and stores are
    /// kept as they are.  An engine reconfigured before the handoff (a
    /// custom effector, matcher function or role manager, or enforcement
    /// switched off) is accepted, but its query answers are then the
    /// engine's own, not the ones this crate's contracts pin down.
    pub fn set_enforcer(e: casbin::Enforcer) -> (r: Result<CasbinActor, casbin::Error>)
        ensures
            r is Ok,
            r matches Ok(a) ==> (a.enforcer matches Some(e1) && view_of(e1) == view_of(e)
                && default_configured(e1) == default_configured(e)),
    {
        let mut eng = e;
        engine_disable_auto_save(&mut eng);
        Ok(CasbinActor { enforcer: Some(eng) })
    }

    /// The engine reference, if the dispatcher still holds one.
    pub fn get_enforcer(&self) -> (r: Option<&casbin::Enforcer>)
        ensures
            r is Some <==> self.enforcer is Some,
            r matches Some(e) ==> self.enforcer == Some(*e),
    {
        self.enforcer.as_ref()
    }

    /// The supervised-restart hook: a restart never resumes with the old
    /// engine; the reference is dropped and the dispatcher stays
    /// unavailable.
    pub fn restarting(&mut self)
        ensures
            final (self).enforcer is None,
    {
        self.enforcer = None;
    }

    /// Applies one command in full and answers it.  With no engine present
    /// the command fails at once with `NotConnected` and nothing changes.
    /// Otherwise, a successful command leaves the store at `cmd_step` and
    /// earns the answer `answer_matches` describes -- in particular every
    /// mutating command reports whether the store actually changed, so a
    /// batch answers `true` only when its tag is defined, it is non-empty
    /// and every row of it was newly added (or removed); an engine error
    /// is handed through with the model and the policy store untouched, and
    /// on an engine still carrying its construction-time configuration a
    /// command succeeds exactly when `cmd_ok` says it is owed success; and
    /// a command that fails its `command_obligation` -- one the engine
    /// would abort on rather than answer -- is a fault in the dispatcher's
    /// own path: the engine reference is dropped, as under a supervised
    /// restart.
    pub fn handle(&mut self, msg: CasbinCmd) -> (r: Result<CasbinResult, BrokerError>)
        ensures
            old(self).enforcer is None ==> (r matches Err(be) && be is NotConnected
                && final (self).enforcer is None),
            old(self).enforcer matches Some(e0) ==> {
                &&& command_obligation(view_of(e0), msg) ==> {
                    &&& r matches Ok(res) ==> (final (self).enforcer matches Some(e1) && view_of(
                        e1,
                    ) == cmd_step(view_of(e0), msg) && (default_configured(e0)
                        ==> default_configured(e1)) && ((default_configured(e0)
                        || !config_sensitive(msg)) ==> answer_matches(view_of(e0), msg, res)))
                    &&& r matches Err(be) ==> (final (self).enforcer matches Some(e1) && be
                        is Engine && view_of(e1).model == view_of(e0).model && view_of(e1).policies
                        == view_of(e0).policies)
                    &&& engine_infallible(msg) ==> r is Ok
                    &&& default_configured(e0) ==> (r is Ok <==> cmd_ok(view_of(e0), msg))
                    &&& config_sensitive(msg) ==> final (self).enforcer == old(self).enforcer
                }
                &&& !command_obligation(view_of(e0), msg) ==> (r matches Err(be) && be
                    is NotConnected && final (self).enforcer is None)
            },
    {
        let mut eng: casbin::Enforcer = match self.enforcer.take() {
            None => {
                return Err(BrokerError::NotConnected);
            },
            Some(e) => e,
        };
        let outcome: Result<CasbinResult, casbin::Error> = match msg {
            CasbinCmd::Enforce(req) => {
                let supported = match engine_effect_entry(&eng) {
                    Some(entry) => effect_string_supported(&entry),
                    None => true,
                };
                if !supported {
                    return Err(BrokerError::NotConnected);
                }
                match engine_enforce(&eng, req) {
                    Ok(b) => Ok(CasbinResult::Enforce(b)),
                    Err(err) => Err(err),
                }
            },
            CasbinCmd::AddPolicy(rule) => {
                match engine_add_named_policy(&mut eng, "p", rule) {
                    Ok(b) => Ok(CasbinResult::AddPolicy(b)),
                    Err(err) => Err(err),
                }
            },
            CasbinCmd::AddPolicies(rules) => {
                let defined = engine_has_policy_tag(&eng, "p");
                let nonempty = rules.len() > 0;
                match engine_add_named_policies(&mut eng, "p", rules) {
                    Ok(b) => Ok(CasbinResult::AddPolicies(b && defined && nonempty)),
                    Err(err) => Err(err),
                }
            },
            CasbinCmd::AddNamedPolicy(t, rule) => {
                match engine_add_named_policy(&mut eng, t.as_str(), rule) {
                    Ok(b) => Ok(CasbinResult::AddNamedPolicy(b)),
                    Err(err) => Err(err),
                }
            },
            CasbinCmd::AddNamedPolicies(t, rules) => {
                let defined = engine_has_policy_tag(&eng, t.as_str());
                let nonempty = rules.len() > 0;
                match engine_add_named_policies(&mut eng, t.as_str(), rules) {
                    Ok(b) => Ok(CasbinResult::AddNamedPolicies(b && defined && nonempty)),
                    Err(err) => Err(err),
                }
            },
            CasbinCmd::AddGroupingPolicy(rule) => {
                match engine_add_named_grouping_policy(&mut eng, "g", rule) {
                    Ok(b) => Ok(CasbinResult::AddGroupingPolicy(b)),
                    Err(err) => Err(err),
                }
            },
            CasbinCmd::AddGroupingPolicies(rules) => {
                let defined = engine_has_grouping_tag(&eng, "g");
                let nonempty = rules.len() > 0;
                match engine_add_named_grouping_policies(&mut eng, "g", rules) {
                    Ok(b) => Ok(CasbinResult::AddGroupingPolicies(b && defined && nonempty)),
                    Err(err) => Err(err),
                }
            },
            CasbinCmd::AddNamedGroupingPolicy(t, rule) => {
                match engine_add_named_grouping_policy(&mut eng, t.as_str(), rule) {
                    Ok(b) => Ok(CasbinResult::AddNamedGroupingPolicy(b)),
                    Err(err) => Err(err),
                }
            },
            CasbinCmd::AddNamedGroupingPolicies(t, rules) => {
                let defined = engine_has_grouping_tag(&eng, t.as_str());
                let nonempty = rules.len() > 0;
                match engine_add_named_grouping_policies(&mut eng, t.as_str(), rules) {
                    Ok(b) => Ok(CasbinResult::AddNamedGroupingPolicies(b && defined && nonempty)),
                    Err(err) => Err(err),
                }
            },
            CasbinCmd::RemovePolicy(rule) => {
                match engine_remove_named_policy(&mut eng, "p", rule) {
                    Ok(b) => Ok(CasbinResult::RemovePolicy(b)),
                    Err(err) => Err(err),
                }
            },
            CasbinCmd::RemovePolicies(rules) => {
                let defined = engine_has_policy_tag(&eng, "p");
                let nonempty = rules.len() > 0;
                match engine_remove_named_policies(&mut eng, "p", rules) {
                    Ok(b) => Ok(CasbinResult::RemovePolicies(b && defined && nonempty)),
                    Err(err) => Err(err),
                }
            },
            CasbinCmd::RemoveNamedPolicy(t, rule) => {
                match engine_remove_named_policy(&mut eng, t.as_str(), rule) {
                    Ok(b) => Ok(CasbinResult::RemoveNamedPolicy(b)),
                    Err(err) => Err(err),
                }
            },
            CasbinCmd::RemoveNamedPolicies(t, rules) => {
                let defined = engine_has_policy_tag(&eng, t.as_str());
                let nonempty = rules.len() > 0;
                match engine_remove_named_policies(&mut eng, t.as_str(), rules) {
                    Ok(b) => Ok(CasbinResult::RemoveNamedPolicies(b && defined && nonempty)),
                    Err(err) => Err(err),
                }
            },
            CasbinCmd::RemoveGroupingPolicy(rule) => {
                match engine_remove_named_grouping_policy(&mut eng, "g", rule) {
                    Ok(b) => Ok(CasbinResult::RemoveGroupingPolicy(b)),
                    Err(err) => Err(err),
                }
            },
            CasbinCmd::RemoveGroupingPolicies(rules) => {
                let defined = engine_has_grouping_tag(&eng, "g");
                let nonempty = rules.len() > 0;
                match engine_remove_named_grouping_policies(&mut eng, "g", rules) {
                    Ok(b) => Ok(CasbinResult::RemoveGroupingPolicies(b && defined && nonempty)),
                    Err(err) => Err(err),
                }
            },
            CasbinCmd::RemoveNamedGroupingPolicy(t, rule) => {
                match engine_remove_named_grouping_policy(&mut eng, t.as_str(), rule) {
                    Ok(b) => Ok(CasbinResult::RemoveNamedGroupingPolicy(b)),
                    Err(err) => Err(err),
                }
            },
            CasbinCmd::RemoveNamedGroupingPolicies(t, rules) => {
                let defined = engine_has_grouping_tag(&eng, t.as_str());
                let nonempty = rules.len() > 0;
                match engine_remove_named_grouping_policies(&mut eng, t.as_str(), rules) {
                    Ok(b) => Ok(CasbinResult::RemoveNamedGroupingPolicies(b && defined && nonempty)),
                    Err(err) => Err(err),
                }
            },
            CasbinCmd::RemoveFilteredNamedPolicy(t, idx, vals) => {
                let stored = engine_get_named_policy(&eng, t.as_str());
                if !check_rows_scan(&stored, idx, &vals) {
                    return Err(BrokerError::NotConnected);
                }
                match engine_remove_filtered_named_policy(&mut eng, t.as_str(), idx, vals) {
                    Ok(b) => Ok(CasbinResult::RemoveFilteredNamedPolicy(b)),
                    Err(err) => Err(err),
                }
            },
            CasbinCmd::RemoveFilteredNamedGroupingPolicy(t, idx, vals) => {
                let stored = engine_get_named_grouping_policy(&eng, t.as_str());
                if !check_rows_scan(&stored, idx, &vals) {
                    return Err(BrokerError::NotConnected);
                }
                match engine_remove_filtered_named_grouping_policy(
                    &mut eng,
                    t.as_str(),
                    idx,
                    vals,
                ) {
                    Ok(b) => Ok(CasbinResult::RemoveFilteredNamedGroupingPolicy(b)),
                    Err(err) => Err(err),
                }
            },
            CasbinCmd::AddRoleForUser(user, role, domain) => {
                let rule = build_role_row(user, role, domain);
                match engine_add_named_grouping_policy(&mut eng, "g", rule) {
                    Ok(b) => Ok(CasbinResult::AddRoleForUser(b)),
                    Err(err) => Err(err),
                }
            },
            CasbinCmd::AddRolesForUser(user, roles, domain) => {
                let rules = build_role_rows(user, roles, domain);
                let defined = engine_has_grouping_tag(&eng, "g");
                let nonempty = rules.len() > 0;
                match engine_add_named_grouping_policies(&mut eng, "g", rules) {
                    Ok(b) => Ok(CasbinResult::AddRolesForUser(b && defined && nonempty)),
                    Err(err) => Err(err),
                }
            },
            CasbinCmd::DeleteRoleForUser(user, role, domain) => {
                let rule = build_role_row(user, role, domain);
                match engine_remove_named_grouping_policy(&mut eng, "g", rule) {
                    Ok(b) => Ok(CasbinResult::DeleteRoleForUser(b)),
                    Err(err) => Err(err),
                }
            },
            CasbinCmd::DeleteRolesForUser(user, domain) => {
                let pattern = build_roles_filter(user, domain);
                let stored = engine_get_named_grouping_policy(&eng, "g");
                if !check_rows_scan(&stored, 0, &pattern) {
                    return Err(BrokerError::NotConnected);
                }
                match engine_remove_filtered_named_grouping_policy(&mut eng, "g", 0, pattern) {
                    Ok(b) => Ok(CasbinResult::DeleteRolesForUser(b)),
                    Err(err) => Err(err),
                }
            },
            CasbinCmd::GetImplicitRolesForUser(user, domain) => {
                let roles = engine_get_implicit_roles(&eng, user.as_str(), &domain);
                Ok(CasbinResult::GetImplicitRolesForUser(roles))
            },
            CasbinCmd::GetImplicitPermissionsForUser(user, domain) => {
                let need: usize = match &domain {
                    Some(_) => 2,
                    None => 1,
                };
                let stored = engine_get_named_policy(&eng, "p");
                if !check_rows_len(&stored, need) {
                    return Err(BrokerError::NotConnected);
                }
                let perms = engine_get_implicit_permissions(&eng, user.as_str(), &domain);
                Ok(CasbinResult::GetImplicitPermissionsForUser(perms))
            },
        };
        self.enforcer = Some(eng);
        match outcome {
            Ok(res) => Ok(res),
            Err(err) => Err(BrokerError::Engine(err)),
        }
    }
}

/// Builds the grouping row a role assignment stands for.
fn build_role_row(user: String, role: String, domain: Option<String>) -> (r: Vec<String>)
    ensures
        r.deep_view() == role_rule(user@, role@, domain.deep_view()),
{
    let ghost u = user@;
    let ghost ro = role@;
    let ghost d = domain.deep_view();
    let mut row: Vec<String> = Vec::new();
    row.push(user);
    row.push(role);
    match domain {
        Some(dv) => {
            row.push(dv);
            proof {
                assert(row.deep_view() =~= seq![u, ro, d.unwrap()]);
            }
        },
        None => {
            proof {
                assert(row.deep_view() =~= seq![u, ro]);
            }
        },
    }
    row
}

/// Builds the grouping rows a batch role assignment stands for.
fn build_role_rows(user: String, roles: Vec<String>, domain: Option<String>) -> (r: Vec<
    Vec<String>,
>)
    ensures
        r.deep_view() == roles_batch(user@, roles.deep_view(), domain.deep_view()),
{
    let ghost u = user@;
    let ghost rs = roles.deep_view();
    let ghost d = domain.deep_view();
    let mut out: Vec<Vec<String>> = Vec::new();
    let mut i: usize = 0;
    while i < roles.len()
        invariant
            0 <= i <= roles.len(),
            rs.len() == roles@.len(),
            rs == roles.deep_view(),
            u == user@,
            d == domain.deep_view(),
            out.deep_view() =~= rs.take(i as int).map_values(
                |role: Seq<char>| role_rule(u, role, d),
            ),
        decreases roles.len() - i,
    {
        proof {
            assert(rs[i as int] == roles@[i as int]@);
        }
        let dom_copy: Option<String> = match &domain {
            Some(dv) => Some(dv.clone()),
            None => None,
        };
        let row = build_role_row(user.clone(), roles[i].clone(), dom_copy);
        out.push(row);
        proof {
            assert(rs.take(i + 1).map_values(|role: Seq<char>| role_rule(u, role, d))
                =~= rs.take(i as int).map_values(|role: Seq<char>| role_rule(u, role, d)).push(
                role_rule(u, rs[i as int], d),
            ));
        }
        i = i + 1;
    }
    proof {
        assert(rs.take(rs.len() as int) =~= rs);
        assert(out.deep_view() =~= roles_batch(u, rs, d));
    }
    out
}

/// Tests a stored effect entry against the entries the engine's default
/// effector knows.
fn effect_string_supported(entry: &String) -> (r: bool)
    ensures
        r == effect_value_supported(entry@),
{
    let allow = String::from_str("some(where (p_eft == allow))");
    let allow_deny = String::from_str("some(where (p_eft == allow)) && !some(where (p_eft == deny))");
    let no_deny = String::from_str("!some(where (p_eft == deny))");
    let priority = String::from_str("priority(p_eft) || deny");
    *entry == allow || *entry == allow_deny || *entry == no_deny || *entry == priority
}

/// Builds the pattern that deletes every role of a user.
fn build_roles_filter(user: String, domain: Option<String>) -> (r: Vec<String>)
    ensures
        r.deep_view() == roles_filter_pattern(user@, domain.deep_view()),
{
    let ghost u = user@;
    let ghost d = domain.deep_view();
    let mut pattern: Vec<String> = Vec::new();
    pattern.push(user);
    match domain {
        Some(dv) => {
            pattern.push(String::new());
            pattern.push(dv);
            proof {
                assert(pattern.deep_view() =~= seq![u, Seq::<char>::empty(), d.unwrap()]);
            }
        },
        None => {
            proof {
                assert(pattern.deep_view() =~= seq![u]);
            }
        },
    }
    pattern
}

} // verus!
