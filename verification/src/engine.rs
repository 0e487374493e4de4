use vstd::prelude::*;
use crate::rules::add_batch;
use crate::rules::add_batch_result;
use crate::rules::add_rule;
use crate::rules::add_rule_result;
use crate::rules::all_rows_scan_ok;
use crate::rules::filtered_remove;
use crate::rules::filtered_result;
use crate::rules::remove_batch;
use crate::rules::remove_batch_result;
use crate::rules::remove_rule;
use crate::rules::remove_rule_result;
use crate::rules::rows_min_len;
use crate::rules::sec_rows;

verus! {

// The policy engine is casbin's `Enforcer`: an outside, opaque value.  The
// broker never looks inside it; everything it relies on is stated here, as
// contracts over three named projections of an engine value -- the model
// text it was built from, its policy sections and its grouping sections --
// and checked against casbin's own source by a reader, not by the verifier.
//
// Every engine this crate creates is built by `engine_new_with_model`
// below: default settings, except that auto-save is switched off, so the
// engine's visible behaviour is exactly its in-memory store's.  Mutations
// of grouping rows additionally rebuild the engine's role-inheritance
// links; that rebuild can fail (a grouping row shorter than the model's
// role definition), which is why grouping operations, unlike plain policy
// operations, may return the engine's own error.  An engine can also be
// handed in from outside, possibly reconfigured; the clauses that depend
// on the evaluation components are therefore guarded by the
// `default_configured` projection below, and hold unguarded only where a
// store operation's outcome cannot depend on those components.

#[verifier::external_type_specification]
#[verifier::external_body]
pub struct ExEnforcer(casbin::Enforcer);

#[verifier::external_type_specification]
#[verifier::external_body]
pub struct ExCasbinError(casbin::Error);

/// The model text an engine was built from.
pub uninterp spec fn model_of(e: casbin::Enforcer) -> Seq<char>;

/// Whether an engine still evaluates with the components construction
/// installs: enforcement enabled, the default effector, matcher-function
/// map and role manager, and role links built from the stored grouping
/// rows.  Construction establishes it; successful commands preserve it; a
/// failed role-link rebuild loses it (the links are then stale).  The
/// named outcomes below are pinned only under it: an engine reconfigured
/// before being handed in carries unpinned answers.
pub uninterp spec fn default_configured(e: casbin::Enforcer) -> bool;

/// Whether the engine accepts a model text at construction.  Construction
/// is deterministic in the text, so acceptance is a function of it.
pub uninterp spec fn model_accepted(model: Seq<char>) -> bool;

/// The policy tags a model text defines (the keys of its
/// `[policy_definition]` section).
pub uninterp spec fn policy_tags(model: Seq<char>) -> Set<Seq<char>>;

/// The grouping tags a model text defines (the keys of its
/// `[role_definition]` section).
pub uninterp spec fn grouping_tags(model: Seq<char>) -> Set<Seq<char>>;

/// Whether the engine's role-link rebuild succeeds over a grouping store:
/// it fails exactly on a role definition with fewer than two or more than
/// three place-holders, or a stored row shorter than that count.  A
/// function of the model and the store alone.
pub uninterp spec fn links_buildable(
    model: Seq<char>,
    groupings: Map<Seq<char>, Seq<Seq<Seq<char>>>>,
) -> bool;

/// The `[policy_effect]` entry a model text stores (request and policy
/// references rewritten to the engine's internal form), or `None` when the
/// model defines none.
pub uninterp spec fn effect_entry_of(model: Seq<char>) -> Option<Seq<char>>;

/// The effect entries the engine's default effector knows.  Enforcement
/// over any other entry aborts inside the engine instead of returning.
pub open spec fn effect_value_supported(v: Seq<char>) -> bool {
    v == "some(where (p_eft == allow))"@ || v
        == "some(where (p_eft == allow)) && !some(where (p_eft == deny))"@ || v
        == "!some(where (p_eft == deny))"@ || v == "priority(p_eft) || deny"@
}

/// A model whose effect entry enforcement can evaluate without aborting: a
/// supported entry, or none at all (the engine then reports its own error).
pub open spec fn effect_supported(model: Seq<char>) -> bool {
    match effect_entry_of(model) {
        Some(v) => effect_value_supported(v),
        None => true,
    }
}

/// The engine's policy store: each policy tag the model defines, mapped to
/// its rows in insertion order (each row held at most once).
pub uninterp spec fn policy_sections(e: casbin::Enforcer) -> Map<Seq<char>, Seq<Seq<Seq<char>>>>;

/// The engine's grouping (role-relation) store, laid out like the policy
/// store.
pub uninterp spec fn grouping_sections(e: casbin::Enforcer) -> Map<Seq<char>, Seq<Seq<Seq<char>>>>;

/// What enforcement decides: `Some(b)` when the engine evaluates the
/// request to the decision `b`, `None` when it rejects the request (wrong
/// arity, a row the matcher cannot evaluate).  The decision is a function
/// of the model, the two stores and the request alone.
pub uninterp spec fn enforce_outcome(
    model: Seq<char>,
    policies: Map<Seq<char>, Seq<Seq<Seq<char>>>>,
    groupings: Map<Seq<char>, Seq<Seq<Seq<char>>>>,
    request: Seq<Seq<char>>,
) -> Option<bool>;

/// The set of roles a user holds through the grouping rows, directly or by
/// inheritance, under an optional domain.
pub uninterp spec fn implicit_role_set(
    model: Seq<char>,
    groupings: Map<Seq<char>, Seq<Seq<Seq<char>>>>,
    user: Seq<char>,
    domain: Option<Seq<char>>,
) -> Set<Seq<char>>;

/// The set of policy rows granted to a user or to any of the user's
/// implicit roles, under an optional domain.
pub uninterp spec fn implicit_permission_set(
    model: Seq<char>,
    policies: Map<Seq<char>, Seq<Seq<Seq<char>>>>,
    groupings: Map<Seq<char>, Seq<Seq<Seq<char>>>>,
    user: Seq<char>,
    domain: Option<Seq<char>>,
) -> Set<Seq<Seq<char>>>;

/// Relies on `DefaultModel::from_str` and `CoreApi::new`: building an
/// engine from a model text and an empty in-memory store.  Construction is
/// deterministic in the text, so it succeeds exactly when the engine
/// accepts the text.  On success the defined tags are the model's, every
/// one starts with no rows, the engine is default-configured, and
/// auto-save is switched off so later mutations touch the in-memory store
/// alone.
#[verifier::external_body]
pub(crate) fn engine_new_with_model(model_text: &str) -> (r: Result<
    casbin::Enforcer,
    casbin::Error,
>)
    ensures
        r is Ok <==> model_accepted(model_text@),
        r matches Ok(e) ==> default_configured(e) && model_of(e) == model_text@
            && policy_sections(e).dom() == policy_tags(model_text@) && grouping_sections(e).dom()
            == grouping_tags(model_text@) && (forall|t: Seq<char>|
            policy_sections(e).dom().contains(t) ==> policy_sections(e)[t] == Seq::<
                Seq<Seq<char>>,
            >::empty()) && (forall|t: Seq<char>|
            grouping_sections(e).dom().contains(t) ==> grouping_sections(e)[t] == Seq::<
                Seq<Seq<char>>,
            >::empty()),
{
    let m = futures::executor::block_on(casbin::DefaultModel::from_str(model_text))?;
    let built = futures::executor::block_on(
        casbin::CoreApi::new(m, casbin::MemoryAdapter::default()),
    );
    match built {
        Ok(mut e) => {
            casbin::CoreApi::enable_auto_save(&mut e, false);
            Ok(e)
        },
        Err(err) => Err(err),
    }
}

/// Relies on `CoreApi::enable_auto_save`: switches the engine's auto-save
/// off, so that its visible behaviour is its in-memory store's.  The model
/// and both stores are untouched.
#[verifier::external_body]
pub(crate) fn engine_disable_auto_save(e: &mut casbin::Enforcer)
    ensures
        model_of(*final (e)) == model_of(*old(e)),
        policy_sections(*final (e)) == policy_sections(*old(e)),
        grouping_sections(*final (e)) == grouping_sections(*old(e)),
        default_configured(*final (e)) == default_configured(*old(e)),
{
    casbin::CoreApi::enable_auto_save(e, false);
}

/// Relies on `CoreApi::enforce`: a read-only evaluation of one request
/// against the current stores.  On a default-configured engine it returns
/// a decision exactly when the outcome is defined, and the engine's own
/// error otherwise.  The engine's effector aborts on an effect entry it
/// does not know, so such models are excluded here.
#[verifier::external_body]
pub(crate) fn engine_enforce(e: &casbin::Enforcer, request: Vec<String>) -> (r: Result<
    bool,
    casbin::Error,
>)
    requires
        effect_supported(model_of(*e)),
    ensures
        default_configured(*e) ==> (r is Ok <==> enforce_outcome(
            model_of(*e),
            policy_sections(*e),
            grouping_sections(*e),
            request.deep_view(),
        ) is Some),
        default_configured(*e) ==> (r matches Ok(b) ==> enforce_outcome(
            model_of(*e),
            policy_sections(*e),
            grouping_sections(*e),
            request.deep_view(),
        ) == Some(b)),
{
    casbin::CoreApi::enforce(e, request)
}

/// Relies on `MgmtApi::add_named_policy` with auto-save off: on a defined
/// tag an absent row is appended (reported `true`) and a present row is
/// moved to the end of the store (reported `false`); an undefined tag
/// stores nothing.  Cannot fail.
#[verifier::external_body]
pub(crate) fn engine_add_named_policy(
    e: &mut casbin::Enforcer,
    ptype: &str,
    rule: Vec<String>,
) -> (r: Result<bool, casbin::Error>)
    ensures
        r is Ok,
        r matches Ok(b) ==> b == add_rule_result(
            policy_sections(*old(e)),
            ptype@,
            rule.deep_view(),
        ),
        policy_sections(*final (e)) == add_rule(
            policy_sections(*old(e)),
            ptype@,
            rule.deep_view(),
        ),
        grouping_sections(*final (e)) == grouping_sections(*old(e)),
        model_of(*final (e)) == model_of(*old(e)),
        default_configured(*final (e)) == default_configured(*old(e)),
{
    futures::executor::block_on(casbin::MgmtApi::add_named_policy(e, ptype, rule))
}

/// Relies on `MgmtApi::add_named_policies` with auto-save off: inserts the
/// whole batch, row by row, iff no row of it is already present (an
/// undefined tag or an empty batch stores nothing yet reports `true`), and
/// cannot fail.
#[verifier::external_body]
pub(crate) fn engine_add_named_policies(
    e: &mut casbin::Enforcer,
    ptype: &str,
    rules: Vec<Vec<String>>,
) -> (r: Result<bool, casbin::Error>)
    ensures
        r is Ok,
        r matches Ok(b) ==> b == add_batch_result(
            policy_sections(*old(e)),
            ptype@,
            rules.deep_view(),
        ),
        policy_sections(*final (e)) == add_batch(
            policy_sections(*old(e)),
            ptype@,
            rules.deep_view(),
        ),
        grouping_sections(*final (e)) == grouping_sections(*old(e)),
        model_of(*final (e)) == model_of(*old(e)),
        default_configured(*final (e)) == default_configured(*old(e)),
{
    futures::executor::block_on(casbin::MgmtApi::add_named_policies(e, ptype, rules))
}

/// Relies on `MgmtApi::remove_named_policy` with auto-save off: removes the
/// row iff present, reports whether it did, and cannot fail.
#[verifier::external_body]
pub(crate) fn engine_remove_named_policy(
    e: &mut casbin::Enforcer,
    ptype: &str,
    rule: Vec<String>,
) -> (r: Result<bool, casbin::Error>)
    ensures
        r is Ok,
        r matches Ok(b) ==> b == remove_rule_result(
            policy_sections(*old(e)),
            ptype@,
            rule.deep_view(),
        ),
        policy_sections(*final (e)) == remove_rule(
            policy_sections(*old(e)),
            ptype@,
            rule.deep_view(),
        ),
        grouping_sections(*final (e)) == grouping_sections(*old(e)),
        model_of(*final (e)) == model_of(*old(e)),
        default_configured(*final (e)) == default_configured(*old(e)),
{
    futures::executor::block_on(casbin::MgmtApi::remove_named_policy(e, ptype, rule))
}

/// Relies on `MgmtApi::remove_named_policies` with auto-save off: removes
/// the whole batch iff every row of it is present (an undefined tag removes
/// nothing yet reports `true`), and cannot fail.
#[verifier::external_body]
pub(crate) fn engine_remove_named_policies(
    e: &mut casbin::Enforcer,
    ptype: &str,
    rules: Vec<Vec<String>>,
) -> (r: Result<bool, casbin::Error>)
    ensures
        r is Ok,
        r matches Ok(b) ==> b == remove_batch_result(
            policy_sections(*old(e)),
            ptype@,
            rules.deep_view(),
        ),
        policy_sections(*final (e)) == remove_batch(
            policy_sections(*old(e)),
            ptype@,
            rules.deep_view(),
        ),
        grouping_sections(*final (e)) == grouping_sections(*old(e)),
        model_of(*final (e)) == model_of(*old(e)),
        default_configured(*final (e)) == default_configured(*old(e)),
{
    futures::executor::block_on(casbin::MgmtApi::remove_named_policies(e, ptype, rules))
}

/// Relies on `MgmtApi::remove_filtered_named_policy` with auto-save off:
/// removes every row agreeing with the pattern at the offset, reports
/// whether any did, and cannot fail.  The engine reads the tested fields
/// without a bounds check, so every stored row of the tag must be scannable
/// against the pattern.
#[verifier::external_body]
pub(crate) fn engine_remove_filtered_named_policy(
    e: &mut casbin::Enforcer,
    ptype: &str,
    field_index: usize,
    field_values: Vec<String>,
) -> (r: Result<bool, casbin::Error>)
    requires
        all_rows_scan_ok(
            policy_sections(*old(e)),
            ptype@,
            field_index as int,
            field_values.deep_view(),
        ),
    ensures
        r is Ok,
        r matches Ok(b) ==> b == filtered_result(
            policy_sections(*old(e)),
            ptype@,
            field_index as int,
            field_values.deep_view(),
        ),
        policy_sections(*final (e)) == filtered_remove(
            policy_sections(*old(e)),
            ptype@,
            field_index as int,
            field_values.deep_view(),
        ),
        grouping_sections(*final (e)) == grouping_sections(*old(e)),
        model_of(*final (e)) == model_of(*old(e)),
        default_configured(*final (e)) == default_configured(*old(e)),
{
    futures::executor::block_on(
        casbin::MgmtApi::remove_filtered_named_policy(e, ptype, field_index, field_values),
    )
}

/// Relies on `MgmtApi::add_named_grouping_policy` with auto-save off: like
/// the policy add, on the grouping store; afterwards the engine rebuilds
/// its role links, which may fail, so only the success case is pinned down.
/// On failure the policy store and the model are still untouched.
#[verifier::external_body]
pub(crate) fn engine_add_named_grouping_policy(
    e: &mut casbin::Enforcer,
    ptype: &str,
    rule: Vec<String>,
) -> (r: Result<bool, casbin::Error>)
    ensures
        r matches Ok(b) ==> b == add_rule_result(
            grouping_sections(*old(e)),
            ptype@,
            rule.deep_view(),
        ) && grouping_sections(*final (e)) == add_rule(
            grouping_sections(*old(e)),
            ptype@,
            rule.deep_view(),
        ),
        policy_sections(*final (e)) == policy_sections(*old(e)),
        model_of(*final (e)) == model_of(*old(e)),
        default_configured(*old(e)) ==> (r is Ok <==> links_buildable(
            model_of(*old(e)),
            add_rule(grouping_sections(*old(e)), ptype@, rule.deep_view()),
        )),
        r is Ok ==> (default_configured(*old(e)) ==> default_configured(*final (e))),
{
    futures::executor::block_on(casbin::MgmtApi::add_named_grouping_policy(e, ptype, rule))
}

/// Relies on `MgmtApi::add_named_grouping_policies` with auto-save off:
/// like the batch policy add, on the grouping store, with the same
/// role-link rebuild on the way out.
#[verifier::external_body]
pub(crate) fn engine_add_named_grouping_policies(
    e: &mut casbin::Enforcer,
    ptype: &str,
    rules: Vec<Vec<String>>,
) -> (r: Result<bool, casbin::Error>)
    ensures
        r matches Ok(b) ==> b == add_batch_result(
            grouping_sections(*old(e)),
            ptype@,
            rules.deep_view(),
        ) && grouping_sections(*final (e)) == add_batch(
            grouping_sections(*old(e)),
            ptype@,
            rules.deep_view(),
        ),
        policy_sections(*final (e)) == policy_sections(*old(e)),
        model_of(*final (e)) == model_of(*old(e)),
        default_configured(*old(e)) ==> (r is Ok <==> links_buildable(
            model_of(*old(e)),
            add_batch(grouping_sections(*old(e)), ptype@, rules.deep_view()),
        )),
        r is Ok ==> (default_configured(*old(e)) ==> default_configured(*final (e))),
{
    futures::executor::block_on(casbin::MgmtApi::add_named_grouping_policies(e, ptype, rules))
}

/// Relies on `MgmtApi::remove_named_grouping_policy` with auto-save off:
/// like the policy removal, on the grouping store, with the role-link
/// rebuild on the way out.
#[verifier::external_body]
pub(crate) fn engine_remove_named_grouping_policy(
    e: &mut casbin::Enforcer,
    ptype: &str,
    rule: Vec<String>,
) -> (r: Result<bool, casbin::Error>)
    ensures
        r matches Ok(b) ==> b == remove_rule_result(
            grouping_sections(*old(e)),
            ptype@,
            rule.deep_view(),
        ) && grouping_sections(*final (e)) == remove_rule(
            grouping_sections(*old(e)),
            ptype@,
            rule.deep_view(),
        ),
        policy_sections(*final (e)) == policy_sections(*old(e)),
        model_of(*final (e)) == model_of(*old(e)),
        default_configured(*old(e)) ==> (r is Ok <==> links_buildable(
            model_of(*old(e)),
            remove_rule(grouping_sections(*old(e)), ptype@, rule.deep_view()),
        )),
        r is Ok ==> (default_configured(*old(e)) ==> default_configured(*final (e))),
{
    futures::executor::block_on(casbin::MgmtApi::remove_named_grouping_policy(e, ptype, rule))
}

/// Relies on `MgmtApi::remove_named_grouping_policies` with auto-save off:
/// like the batch policy removal, on the grouping store, with the
/// role-link rebuild on the way out.
#[verifier::external_body]
pub(crate) fn engine_remove_named_grouping_policies(
    e: &mut casbin::Enforcer,
    ptype: &str,
    rules: Vec<Vec<String>>,
) -> (r: Result<bool, casbin::Error>)
    ensures
        r matches Ok(b) ==> b == remove_batch_result(
            grouping_sections(*old(e)),
            ptype@,
            rules.deep_view(),
        ) && grouping_sections(*final (e)) == remove_batch(
            grouping_sections(*old(e)),
            ptype@,
            rules.deep_view(),
        ),
        policy_sections(*final (e)) == policy_sections(*old(e)),
        model_of(*final (e)) == model_of(*old(e)),
        default_configured(*old(e)) ==> (r is Ok <==> links_buildable(
            model_of(*old(e)),
            remove_batch(grouping_sections(*old(e)), ptype@, rules.deep_view()),
        )),
        r is Ok ==> (default_configured(*old(e)) ==> default_configured(*final (e))),
{
    futures::executor::block_on(casbin::MgmtApi::remove_named_grouping_policies(e, ptype, rules))
}

/// Relies on `MgmtApi::remove_filtered_named_grouping_policy` with
/// auto-save off: like the filtered policy removal, on the grouping store,
/// with the role-link rebuild on the way out.  Every stored row of the tag
/// must be scannable against the pattern.
#[verifier::external_body]
pub(crate) fn engine_remove_filtered_named_grouping_policy(
    e: &mut casbin::Enforcer,
    ptype: &str,
    field_index: usize,
    field_values: Vec<String>,
) -> (r: Result<bool, casbin::Error>)
    requires
        all_rows_scan_ok(
            grouping_sections(*old(e)),
            ptype@,
            field_index as int,
            field_values.deep_view(),
        ),
    ensures
        r matches Ok(b) ==> b == filtered_result(
            grouping_sections(*old(e)),
            ptype@,
            field_index as int,
            field_values.deep_view(),
        ) && grouping_sections(*final (e)) == filtered_remove(
            grouping_sections(*old(e)),
            ptype@,
            field_index as int,
            field_values.deep_view(),
        ),
        policy_sections(*final (e)) == policy_sections(*old(e)),
        model_of(*final (e)) == model_of(*old(e)),
        default_configured(*old(e)) ==> (r is Ok <==> links_buildable(
            model_of(*old(e)),
            filtered_remove(
            grouping_sections(*old(e)),
            ptype@,
            field_index as int,
            field_values.deep_view(),
        ),
        )),
        r is Ok ==> (default_configured(*old(e)) ==> default_configured(*final (e))),
{
    futures::executor::block_on(
        casbin::MgmtApi::remove_filtered_named_grouping_policy(e, ptype, field_index, field_values),
    )
}

/// Relies on `MgmtApi::get_named_policy`: hands back the tag's policy rows
/// in their stored order; an undefined tag yields nothing.
#[verifier::external_body]
pub(crate) fn engine_get_named_policy(e: &casbin::Enforcer, ptype: &str) -> (r: Vec<Vec<String>>)
    ensures
        r.deep_view() == sec_rows(policy_sections(*e), ptype@),
{
    casbin::MgmtApi::get_named_policy(e, ptype)
}

/// Relies on `MgmtApi::get_named_grouping_policy`: hands back the tag's
/// grouping rows in their stored order; an undefined tag yields nothing.
#[verifier::external_body]
pub(crate) fn engine_get_named_grouping_policy(e: &casbin::Enforcer, ptype: &str) -> (r: Vec<
    Vec<String>,
>)
    ensures
        r.deep_view() == sec_rows(grouping_sections(*e), ptype@),
{
    casbin::MgmtApi::get_named_grouping_policy(e, ptype)
}

/// Relies on `RbacApi::get_implicit_roles_for_user`: the user's roles
/// reachable through the grouping rows, each exactly once, in an order the
/// engine does not fix.
#[verifier::external_body]
pub(crate) fn engine_get_implicit_roles(
    e: &casbin::Enforcer,
    name: &str,
    domain: &Option<String>,
) -> (r: Vec<String>)
    ensures
        default_configured(*e) ==> r.deep_view().to_set() == implicit_role_set(
            model_of(*e),
            grouping_sections(*e),
            name@,
            domain.deep_view(),
        ),
        r.deep_view().no_duplicates(),
{
    casbin::RbacApi::get_implicit_roles_for_user(e, name, domain.as_deref())
}

/// Relies on `Model::get_model`: a policy tag is defined iff it is a key
/// of the model's `p` section.
#[verifier::external_body]
pub(crate) fn engine_has_policy_tag(e: &casbin::Enforcer, ptype: &str) -> (r: bool)
    ensures
        r == policy_sections(*e).dom().contains(ptype@),
{
    match casbin::CoreApi::get_model(e).get_model().get("p") {
        Some(section) => section.contains_key(ptype),
        None => false,
    }
}

/// Relies on `Model::get_model`: a grouping tag is defined iff it is a key
/// of the model's `g` section.
#[verifier::external_body]
pub(crate) fn engine_has_grouping_tag(e: &casbin::Enforcer, ptype: &str) -> (r: bool)
    ensures
        r == grouping_sections(*e).dom().contains(ptype@),
{
    match casbin::CoreApi::get_model(e).get_model().get("g") {
        Some(section) => section.contains_key(ptype),
        None => false,
    }
}

/// Relies on `Model::get_model`: the stored effect entry (the `e`/`e`
/// assertion's value), absent when the model defines none.
#[verifier::external_body]
pub(crate) fn engine_effect_entry(e: &casbin::Enforcer) -> (r: Option<String>)
    ensures
        r matches Some(s) ==> effect_entry_of(model_of(*e)) == Some(s@),
        r is None ==> effect_entry_of(model_of(*e)) is None,
{
    match casbin::CoreApi::get_model(e).get_model().get("e") {
        Some(section) => section.get("e").map(|a| a.value.clone()),
        None => None,
    }
}

/// Relies on `RbacApi::get_implicit_permissions_for_user`: the policy rows
/// granted to the user or to any implicit role, in an order the engine
/// does not fix.  (No freedom from repetition is promised: on a cyclic
/// grouping graph the engine lists the user among the user's own implicit
/// roles and fetches the user's rows twice.)  The query reads the first
/// field of every stored `p` row unchecked -- the first two with a domain
/// -- so rows must be at least that long.
#[verifier::external_body]
pub(crate) fn engine_get_implicit_permissions(
    e: &casbin::Enforcer,
    name: &str,
    domain: &Option<String>,
) -> (r: Vec<Vec<String>>)
    requires
        rows_min_len(
            policy_sections(*e),
            "p"@,
            if domain.deep_view() is Some {
                2
            } else {
                1
            },
        ),
    ensures
        default_configured(*e) ==> r.deep_view().to_set() == implicit_permission_set(
            model_of(*e),
            policy_sections(*e),
            grouping_sections(*e),
            name@,
            domain.deep_view(),
        ),
{
    casbin::RbacApi::get_implicit_permissions_for_user(e, name, domain.as_deref())
}

} // verus!
