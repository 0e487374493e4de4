use vstd::prelude::*;
use crate::actor::answer_matches;
use crate::actor::cmd_step;
use crate::actor::EngineView;
use crate::command::CasbinCmd;
use crate::command::CasbinResult;
use crate::engine::enforce_outcome;
use crate::rules::add_rule;
use crate::rules::batch_new_to;
use crate::rules::extend_rows;
use crate::rules::lemma_extend_rows_contains;
use crate::rules::lemma_move_to_back_contains;
use crate::rules::sec_rows;

verus! {

// What the broker promises of whole runs -- several commands, several
// answers -- stated over the same spec functions `handle`'s contract is
// phrased in, and proved once and for all.

/// A mailbox processed in order: the engine view after a run of commands
/// is the serial fold of the run, each command acting on the state the one
/// before it left.
pub open spec fn run_cmds(v: EngineView, cmds: Seq<CasbinCmd>) -> EngineView
    decreases cmds.len(),
{
    if cmds.len() == 0 {
        v
    } else {
        run_cmds(cmd_step(v, cmds[0]), cmds.drop_first())
    }
}

/// Mutual exclusion: the dispatcher owns the engine exclusively and applies
/// each command whole, so a mailbox splits serially -- the state after a
/// prefix and a rest is the rest run from the prefix's end state, with no
/// interleaving of two commands' parts.  For two commands this says the end
/// state is that of one of the two serial orders, whichever the mailbox
/// accepted first.
pub proof fn lemma_mailbox_is_serial(v: EngineView, first: Seq<CasbinCmd>, rest: Seq<CasbinCmd>)
    ensures
        run_cmds(v, first + rest) == run_cmds(run_cmds(v, first), rest),
    decreases first.len(),
{
    if first.len() == 0 {
        assert(first + rest =~= rest);
    } else {
        let whole = first + rest;
        assert(whole[0] == first[0]);
        assert(whole.drop_first() =~= first.drop_first() + rest);
        lemma_mailbox_is_serial(cmd_step(v, first[0]), first.drop_first(), rest);
    }
}

/// Idempotent mutation reporting: at any view whose model defines the plain
/// policy tag, adding a row that is already present answers `false` and
/// leaves the store holding the same rows (the engine moves the one stored
/// copy to the end); adding an absent row answers `true`; removing an
/// absent row answers `false` and changes nothing.
pub proof fn lemma_idempotent_mutation_reporting(v: EngineView, rule: Vec<String>)
    requires
        v.policies.dom().contains("p"@),
    ensures
        v.policies["p"@].contains(rule.deep_view()) ==> answer_matches(
            v,
            CasbinCmd::AddPolicy(rule),
            CasbinResult::AddPolicy(false),
        ) && sec_rows(cmd_step(v, CasbinCmd::AddPolicy(rule)).policies, "p"@).to_set() == sec_rows(
            v.policies,
            "p"@,
        ).to_set(),
        !v.policies["p"@].contains(rule.deep_view()) ==> answer_matches(
            v,
            CasbinCmd::AddPolicy(rule),
            CasbinResult::AddPolicy(true),
        ),
        !v.policies["p"@].contains(rule.deep_view()) ==> answer_matches(
            v,
            CasbinCmd::RemovePolicy(rule),
            CasbinResult::RemovePolicy(false),
        ) && cmd_step(v, CasbinCmd::RemovePolicy(rule)) == v,
{
    let rv = rule.deep_view();
    let rows = v.policies["p"@];
    if rows.contains(rv) {
        assert forall|x: Seq<Seq<char>>|
            crate::rules::move_to_back(rows, rv).contains(x) == rows.contains(x) by {
            lemma_move_to_back_contains(rows, rv, x);
        }
        assert(crate::rules::move_to_back(rows, rv).to_set() =~= rows.to_set());
    }
}

/// Read-your-write: after `AddPolicy(rule)`'s answer is observed, the
/// policy store holds the row, and a following `Enforce` is answered by the
/// enforcement outcome over that updated store -- the write is visible to
/// the read.
pub proof fn lemma_read_your_write(v: EngineView, rule: Vec<String>, request: Vec<String>)
    requires
        v.policies.dom().contains("p"@),
    ensures
        sec_rows(cmd_step(v, CasbinCmd::AddPolicy(rule)).policies, "p"@).contains(
            rule.deep_view(),
        ),
        cmd_step(cmd_step(v, CasbinCmd::AddPolicy(rule)), CasbinCmd::Enforce(request)) == cmd_step(
            v,
            CasbinCmd::AddPolicy(rule),
        ),
        forall|b: bool|
            answer_matches(
                cmd_step(v, CasbinCmd::AddPolicy(rule)),
                CasbinCmd::Enforce(request),
                CasbinResult::Enforce(b),
            ) <==> enforce_outcome(
                v.model,
                add_rule(v.policies, "p"@, rule.deep_view()),
                v.groupings,
                request.deep_view(),
            ) == Some(b),
{
    let rv = rule.deep_view();
    lemma_move_to_back_contains(v.policies["p"@], rv, rv);
}

/// Batch reporting: on a defined plain policy tag, a non-empty batch add
/// answers `true` exactly when no row of the batch is already present --
/// the engine then adds every row of it, and the first row, absent before,
/// is stored afterwards; and once a batch has been added, submitting the
/// same batch again answers `false` and leaves the store untouched.
pub proof fn lemma_batch_reporting(v: EngineView, rules: Vec<Vec<String>>)
    requires
        v.policies.dom().contains("p"@),
        rules.deep_view().len() > 0,
    ensures
        answer_matches(
            v,
            CasbinCmd::AddPolicies(rules),
            CasbinResult::AddPolicies(batch_new_to(v.policies["p"@], rules.deep_view())),
        ),
        batch_new_to(v.policies["p"@], rules.deep_view()) ==> !v.policies["p"@].contains(
            rules.deep_view()[0],
        ) && cmd_step(v, CasbinCmd::AddPolicies(rules)).policies["p"@].contains(
            rules.deep_view()[0],
        ),
        batch_new_to(v.policies["p"@], rules.deep_view()) ==> answer_matches(
            cmd_step(v, CasbinCmd::AddPolicies(rules)),
            CasbinCmd::AddPolicies(rules),
            CasbinResult::AddPolicies(false),
        ) && cmd_step(cmd_step(v, CasbinCmd::AddPolicies(rules)), CasbinCmd::AddPolicies(rules))
            == cmd_step(v, CasbinCmd::AddPolicies(rules)),
{
    let rs = rules.deep_view();
    let old_rows = v.policies["p"@];
    if batch_new_to(old_rows, rs) {
        let b0 = rs[0];
        assert(rs.contains(b0));
        assert(!old_rows.contains(b0));
        lemma_extend_rows_contains(old_rows, rs, b0);
        let new_rows = extend_rows(old_rows, rs);
        assert(new_rows.contains(b0));
        assert(!batch_new_to(new_rows, rs));
    }
}

} // verus!
