//! The shared fate that follows a formation effect: every Death spirit owner whose team
//! actually lost life makes the team of the player seated after it lose ten life.
use crate::domain::{EngineInvariantError, GameError, TeamId, owned};
use vstd::prelude::*;

verus! {

/// A Death spirit owner when a formation effect begins: its team, whether it still owns a
/// Death spirit when the effect ends, and the team of the player seated after it.
#[derive(Debug, PartialEq, Eq)]
pub struct SharedFateOwner {
    pub owner_team: TeamId,
    pub still_bound: bool,
    pub next_team: TeamId,
}

/// The team is among the teams that actually lost life.
pub open spec fn team_among(teams: Seq<TeamId>, t: Seq<char>) -> bool {
    exists|j: int| 0 <= j < teams.len() && #[trigger] teams[j]@ == t
}

/// The owner's shared fate strikes: its team lost life and it still owns a Death spirit.
pub open spec fn strikes(o: SharedFateOwner, affected: Seq<TeamId>) -> bool {
    o.still_bound && team_among(affected, o.owner_team@)
}

/// How many of the first `n` owners strike the team `t`.
pub open spec fn fate_count(owners: Seq<SharedFateOwner>, affected: Seq<TeamId>, t: Seq<char>, n: int) -> int
    decreases n,
{
    if n <= 0 || n > owners.len() {
        0
    } else {
        fate_count(owners, affected, t, n - 1) + if strikes(owners[n - 1], affected)
            && owners[n - 1].next_team@ == t {
            1int
        } else {
            0
        }
    }
}

/// Some team is struck more often than a count can hold.
pub open spec fn count_overflows(owners: Seq<SharedFateOwner>, affected: Seq<TeamId>) -> bool {
    exists|k: int|
        0 <= k < owners.len() && fate_count(owners, affected, #[trigger] owners[k].next_team@, owners.len() as int)
            > i32::MAX
}

/// Some team of the life order is struck too often for its loss to be a life change.
pub open spec fn delta_overflows(
    owners: Seq<SharedFateOwner>,
    affected: Seq<TeamId>,
    hp_order: Seq<TeamId>,
) -> bool {
    exists|j: int|
        0 <= j < hp_order.len() && fate_count(owners, affected, #[trigger] hp_order[j]@, owners.len() as int)
            > 214748364
}

/// The life changes of the shared fate, in the teams' life order: ten per striking owner.
pub open spec fn spec_fate_deltas(
    owners: Seq<SharedFateOwner>,
    affected: Seq<TeamId>,
    hp_order: Seq<TeamId>,
) -> Seq<(Seq<char>, int)> {
    hp_order.filter_map(
        |t: TeamId|
            {
                let c = fate_count(owners, affected, t@, owners.len() as int);
                if c > 0 {
                    Some((t@, -10 * c))
                } else {
                    None
                }
            },
    )
}

/// The life changes as plain values.
pub open spec fn delta_views(s: Seq<(TeamId, i32)>) -> Seq<(Seq<char>, int)> {
    s.map_values(|d: (TeamId, i32)| (d.0@, d.1 as int))
}

/// The error the ledger reports for a shared fate it cannot hold.
pub open spec fn ledger_error(e: GameError, reason: Seq<char>) -> bool {
    e matches GameError::EngineInvariant(EngineInvariantError::InvalidHpLedger { reason: r })
        && r@ == reason
}

proof fn lemma_fate_count_bounds(owners: Seq<SharedFateOwner>, affected: Seq<TeamId>, t: Seq<char>, n: int)
    requires
        0 <= n <= owners.len(),
    ensures
        0 <= fate_count(owners, affected, t, n) <= n,
        fate_count(owners, affected, t, n) > 0 ==> exists|k: int|
            0 <= k < n && strikes(owners[k], affected) && #[trigger] owners[k].next_team@ == t,
    decreases n,
{
    if n > 0 {
        lemma_fate_count_bounds(owners, affected, t, n - 1);
    }
}

proof fn lemma_fate_count_monotone(owners: Seq<SharedFateOwner>, affected: Seq<TeamId>, t: Seq<char>, a: int, b: int)
    requires
        0 <= a <= b <= owners.len(),
    ensures
        fate_count(owners, affected, t, a) <= fate_count(owners, affected, t, b),
    decreases b - a,
{
    if a < b {
        lemma_fate_count_monotone(owners, affected, t, a, b - 1);
    }
}

fn affected_has(affected: &[TeamId], t: &TeamId) -> (r: bool)
    ensures
        r == team_among(affected@, t@),
{
    let mut j: usize = 0;
    while j < affected.len()
        invariant
            j <= affected.len(),
            forall|k: int| 0 <= k < j ==> affected@[k]@ != t@,
        decreases affected.len() - j,
    {
        if affected[j].same(t) {
            return true;
        }
        j = j + 1;
    }
    false
}

fn find_count(counts: &Vec<(TeamId, i32)>, t: &TeamId) -> (r: Option<usize>)
    ensures
        match r {
            Some(j) => j < counts@.len() && counts@[j as int].0@ == t@,
            None => forall|j: int| 0 <= j < counts@.len() ==> counts@[j].0@ != t@,
        },
{
    let mut j: usize = 0;
    while j < counts.len()
        invariant
            j <= counts.len(),
            forall|k: int| 0 <= k < j ==> counts@[k].0@ != t@,
        decreases counts.len() - j,
    {
        if counts[j].0.same(t) {
            return Some(j);
        }
        j = j + 1;
    }
    None
}

/// The counts kept for the first `i` owners: one entry per struck team, holding how often
/// it was struck.
pub open spec fn counts_ok(
    counts: Seq<(TeamId, i32)>,
    owners: Seq<SharedFateOwner>,
    affected: Seq<TeamId>,
    i: int,
) -> bool {
    &&& forall|a: int, b: int| 0 <= a < b < counts.len() ==> counts[a].0@ != counts[b].0@
    &&& forall|a: int|
        0 <= a < counts.len() ==> #[trigger] counts[a].1 == fate_count(owners, affected, counts[a].0@, i)
            && counts[a].1 > 0
    &&& forall|k: int|
        0 <= k < i && strikes(owners[k], affected) ==> exists|a: int|
            0 <= a < counts.len() && #[trigger] counts[a].0@ == owners[k].next_team@
}

/// The life changes of the shared fate after a formation effect. `affected` are the
/// teams that actually lost life in it, `owners` the Death spirit owners when it began,
/// in order, and `hp_order` the teams in the order of the life ledger.
pub fn shared_fate_deltas(
    affected: &[TeamId],
    owners: &[SharedFateOwner],
    hp_order: &[TeamId],
) -> (r: Result<Vec<(TeamId, i32)>, GameError>)
    ensures
        count_overflows(owners@, affected@) ==> (r matches Err(e) && ledger_error(
            e,
            "shared fate owner count overflow"@,
        )),
        !count_overflows(owners@, affected@) && delta_overflows(owners@, affected@, hp_order@) ==> (r matches Err(
            e,
        ) && ledger_error(e, "shared fate HP delta overflow"@)),
        !count_overflows(owners@, affected@) && !delta_overflows(owners@, affected@, hp_order@) ==> (r matches Ok(
            v,
        ) && delta_views(v@) == spec_fate_deltas(owners@, affected@, hp_order@)),
{
    let mut counts: Vec<(TeamId, i32)> = Vec::new();
    let mut i: usize = 0;
    while i < owners.len()
        invariant
            i <= owners.len(),
            counts_ok(counts@, owners@, affected@, i as int),
            forall|k: int|
                0 <= k < i ==> fate_count(owners@, affected@, #[trigger] owners@[k].next_team@, i as int)
                    <= i32::MAX,
        decreases owners.len() - i,
    {
        let o = &owners[i];
        let ghost before = counts@;
        if o.still_bound && affected_has(affected, &o.owner_team) {
            match find_count(&counts, &o.next_team) {
                Some(j) => {
                    let c = counts[j].1;
                    if c == i32::MAX {
                        proof {
                            assert(fate_count(owners@, affected@, o.next_team@, i as int + 1) == c + 1);
                            lemma_fate_count_monotone(
                                owners@,
                                affected@,
                                o.next_team@,
                                i as int + 1,
                                owners@.len() as int,
                            );
                            assert(count_overflows(owners@, affected@));
                        }
                        return Err(
                            GameError::EngineInvariant(
                                EngineInvariantError::InvalidHpLedger {
                                    reason: owned("shared fate owner count overflow"),
                                },
                            ),
                        );
                    }
                    let team = counts[j].0.clone();
                    counts.set(j, (team, c + 1));
                    proof {
                        assert forall|a: int| 0 <= a < counts@.len() implies #[trigger] counts@[a].1
                            == fate_count(owners@, affected@, counts@[a].0@, i as int + 1)
                            && counts@[a].1 > 0 by {
                            if a != j {
                                assert(counts@[a] == before[a]);
                            }
                        }
                        assert forall|k: int|
                            0 <= k < i + 1 && strikes(owners@[k], affected@) implies exists|a: int|
                                0 <= a < counts@.len() && #[trigger] counts@[a].0@
                                    == owners@[k].next_team@ by {
                            if k < i {
                                let a = choose|a: int|
                                    0 <= a < before.len() && #[trigger] before[a].0@
                                        == owners@[k].next_team@;
                                assert(counts@[a].0@ == before[a].0@);
                            } else {
                                assert(counts@[j as int].0@ == owners@[k].next_team@);
                            }
                        }
                        assert forall|k: int|
                            0 <= k < i + 1 implies fate_count(
                                owners@,
                                affected@,
                                #[trigger] owners@[k].next_team@,
                                i as int + 1,
                            ) <= i32::MAX by {
                            let t = owners@[k].next_team@;
                            if t != o.next_team@ {
                                if k < i {
                                    assert(fate_count(owners@, affected@, t, i as int + 1) == fate_count(
                                        owners@,
                                        affected@,
                                        t,
                                        i as int,
                                    ));
                                } else {
                                    assert(false);
                                }
                            }
                        }
                    }
                },
                None => {
                    proof {
                        lemma_fate_count_bounds(owners@, affected@, o.next_team@, i as int);
                        if fate_count(owners@, affected@, o.next_team@, i as int) > 0 {
                            let k = choose|k: int|
                                0 <= k < i && strikes(owners@[k], affected@) && #[trigger] owners@[k].next_team@
                                    == o.next_team@;
                            assert(false);
                        }
                    }
                    counts.push((o.next_team.clone(), 1));
                    proof {
                        assert forall|a: int, b: int| 0 <= a < b < counts@.len() implies counts@[a].0@
                            != counts@[b].0@ by {
                            if b == counts@.len() - 1 {
                                assert(counts@[a] == before[a]);
                            } else {
                                assert(counts@[a] == before[a]);
                                assert(counts@[b] == before[b]);
                            }
                        }
                        assert forall|a: int| 0 <= a < counts@.len() implies #[trigger] counts@[a].1
                            == fate_count(owners@, affected@, counts@[a].0@, i as int + 1)
                            && counts@[a].1 > 0 by {
                            if a < before.len() {
                                assert(counts@[a] == before[a]);
                            }
                        }
                        assert forall|k: int|
                            0 <= k < i + 1 && strikes(owners@[k], affected@) implies exists|a: int|
                                0 <= a < counts@.len() && #[trigger] counts@[a].0@
                                    == owners@[k].next_team@ by {
                            if k < i {
                                let a = choose|a: int|
                                    0 <= a < before.len() && #[trigger] before[a].0@
                                        == owners@[k].next_team@;
                                assert(counts@[a] == before[a]);
                            } else {
                                assert(counts@[counts@.len() - 1].0@ == owners@[k].next_team@);
                            }
                        }
                        assert forall|k: int|
                            0 <= k < i + 1 implies fate_count(
                                owners@,
                                affected@,
                                #[trigger] owners@[k].next_team@,
                                i as int + 1,
                            ) <= i32::MAX by {
                            let t = owners@[k].next_team@;
                            if t != o.next_team@ && k < i {
                                assert(fate_count(owners@, affected@, t, i as int + 1) == fate_count(
                                    owners@,
                                    affected@,
                                    t,
                                    i as int,
                                ));
                            }
                        }
                    }
                },
            }
        } else {
            proof {
                assert forall|a: int| 0 <= a < counts@.len() implies #[trigger] counts@[a].1
                    == fate_count(owners@, affected@, counts@[a].0@, i as int + 1) && counts@[a].1
                    > 0 by {}
                assert forall|k: int|
                    0 <= k < i + 1 implies fate_count(
                        owners@,
                        affected@,
                        #[trigger] owners@[k].next_team@,
                        i as int + 1,
                    ) <= i32::MAX by {
                    if k == i {
                        lemma_fate_count_bounds(owners@, affected@, owners@[k].next_team@, i as int);
                        let t = owners@[k].next_team@;
                        if fate_count(owners@, affected@, t, i as int) > 0 {
                            let k2 = choose|k2: int|
                                0 <= k2 < i && strikes(owners@[k2], affected@)
                                    && #[trigger] owners@[k2].next_team@ == t;
                            assert(fate_count(owners@, affected@, owners@[k2].next_team@, i as int)
                                <= i32::MAX);
                        }
                    }
                }
            }
        }
        i = i + 1;
    }
    proof {
        if count_overflows(owners@, affected@) {
            let k = choose|k: int|
                0 <= k < owners@.len() && fate_count(
                    owners@,
                    affected@,
                    #[trigger] owners@[k].next_team@,
                    owners@.len() as int,
                ) > i32::MAX;
            assert(false);
        }
    }
    let mut out: Vec<(TeamId, i32)> = Vec::new();
    let mut h: usize = 0;
    while h < hp_order.len()
        invariant
            h <= hp_order.len(),
            counts_ok(counts@, owners@, affected@, owners@.len() as int),
            !count_overflows(owners@, affected@),
            forall|j: int|
                0 <= j < h ==> fate_count(owners@, affected@, #[trigger] hp_order@[j]@, owners@.len() as int)
                    <= 214748364,
            delta_views(out@) == spec_fate_deltas(owners@, affected@, hp_order@.subrange(0, h as int)),
        decreases hp_order.len() - h,
    {
        let t = &hp_order[h];
        let ghost before = out@;
        let ghost n = owners@.len() as int;
        assert(hp_order@.subrange(0, h as int + 1).drop_last() =~= hp_order@.subrange(0, h as int));
        match find_count(&counts, t) {
            Some(j) => {
                let c = counts[j].1;
                assert(c == fate_count(owners@, affected@, t@, n));
                if c > 214748364 {
                    proof {
                        assert(delta_overflows(owners@, affected@, hp_order@));
                    }
                    return Err(
                        GameError::EngineInvariant(
                            EngineInvariantError::InvalidHpLedger {
                                reason: owned("shared fate HP delta overflow"),
                            },
                        ),
                    );
                }
                out.push((t.clone(), c * -10));
                assert(delta_views(out@) =~= delta_views(before) + seq![(t@, -10 * c)]);
            },
            None => {
                proof {
                    lemma_fate_count_bounds(owners@, affected@, t@, n);
                    if fate_count(owners@, affected@, t@, n) > 0 {
                        let k = choose|k: int|
                            0 <= k < n && strikes(owners@[k], affected@) && #[trigger] owners@[k].next_team@
                                == t@;
                        let a = choose|a: int|
                            0 <= a < counts@.len() && #[trigger] counts@[a].0@ == owners@[k].next_team@;
                        assert(false);
                    }
                }
                assert(delta_views(out@) =~= delta_views(before) + seq![]);
            },
        }
        h = h + 1;
    }
    assert(hp_order@.subrange(0, hp_order.len() as int) =~= hp_order@);
    Ok(out)
}

} // verus!
