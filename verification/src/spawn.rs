use vstd::prelude::*;

use crate::squad::SquadId;

verus! {

/// Formation of a spawn.
#[derive(Debug, Clone, Copy, PartialEq, Eq, Structural)]
pub enum Formation {
    Triangle,
    Staggered,
    Line,
}

/// Identifies a spawn.
#[derive(Debug, Clone, Copy, PartialEq, Eq, Structural)]
pub struct SpawnId(pub u32);

/// A spawn and its formation.
#[derive(Debug, Clone, Copy, PartialEq, Eq, Structural)]
pub struct Spawn {
    pub formation: Formation,
}

/// A spawn position: the squad it belongs to and whether an operator already
/// occupies it.
#[derive(Debug, Clone, Copy, PartialEq, Eq, Structural)]
pub struct SpawnPoint {
    pub squad: SquadId,
    pub occupied: bool,
}

/// Spawn `j` is free for an operator of `squad`, given the positions `used`
/// already handed out.
pub open spec fn spawn_free_for(spawns: Seq<SpawnPoint>, used: Set<int>, squad: SquadId, j: int) -> bool {
    &&& 0 <= j < spawns.len()
    &&& spawns[j].squad == squad
    &&& !spawns[j].occupied
    &&& !used.contains(j)
}

/// The first spawn position from `j` on that is free for `squad`.
pub open spec fn first_free_spawn(spawns: Seq<SpawnPoint>, used: Set<int>, squad: SquadId, j: int) -> Option<int>
    decreases spawns.len() - j,
{
    if j < 0 || j >= spawns.len() {
        None
    } else if spawn_free_for(spawns, used, squad, j) {
        Some(j)
    } else {
        first_free_spawn(spawns, used, squad, j + 1)
    }
}

/// The positions handed out in `assigned`.
pub open spec fn used_spawns(assigned: Seq<Option<int>>) -> Set<int> {
    Set::new(|j: int| exists|k: int| 0 <= k < assigned.len() && assigned[k] == Some(j))
}

/// The spawn positions of the first `n` operators of `squads` (the squads of
/// newly added operators, in order): each operator gets the first position
/// of its squad that is not occupied and not handed out to an earlier one.
pub open spec fn spawn_assignment(squads: Seq<SquadId>, spawns: Seq<SpawnPoint>, n: nat) -> Seq<Option<int>>
    decreases n,
{
    if n == 0 {
        Seq::empty()
    } else {
        let prev = spawn_assignment(squads, spawns, (n - 1) as nat);
        prev.push(first_free_spawn(spawns, used_spawns(prev), squads[n - 1], 0))
    }
}

proof fn lemma_first_free_spawn(spawns: Seq<SpawnPoint>, used: Set<int>, squad: SquadId, j: int)
    requires
        0 <= j,
    ensures
        match first_free_spawn(spawns, used, squad, j) {
            Some(k) => j <= k && spawn_free_for(spawns, used, squad, k) && forall|m: int|
                j <= m < k ==> !spawn_free_for(spawns, used, squad, m),
            None => forall|m: int| j <= m < spawns.len() ==> !spawn_free_for(spawns, used, squad, m),
        },
    decreases spawns.len() - j,
{
    if j < spawns.len() && !spawn_free_for(spawns, used, squad, j) {
        lemma_first_free_spawn(spawns, used, squad, j + 1);
    }
}

proof fn lemma_assignment_len(squads: Seq<SquadId>, spawns: Seq<SpawnPoint>, n: nat)
    ensures
        spawn_assignment(squads, spawns, n).len() == n,
    decreases n,
{
    if n > 0 {
        lemma_assignment_len(squads, spawns, (n - 1) as nat);
    }
}

/// Assigns spawn positions to newly added operators: operator `k`, of squad
/// `operator_squads[k]`, is sent to the first position of its squad that is
/// not occupied and not yet handed out to an earlier operator; `None` when
/// no such position is left.
pub fn assign_spawns(operator_squads: &[SquadId], spawns: &[SpawnPoint]) -> (r: Vec<Option<usize>>)
    ensures
        r@.len() == operator_squads@.len(),
        forall|k: int| 0 <= k < r@.len() ==> (match r@[k] {
            Some(j) => Some(j as int),
            None => None,
        }) == spawn_assignment(operator_squads@, spawns@, operator_squads@.len())[k],
{
    let mut result: Vec<Option<usize>> = Vec::new();
    let mut used: Vec<bool> = Vec::new();
    let mut j: usize = 0;
    while j < spawns.len()
        invariant
            j <= spawns.len(),
            used@.len() == j,
            forall|m: int| 0 <= m < j ==> !used@[m],
        decreases spawns.len() - j,
    {
        used.push(false);
        j = j + 1;
    }
    let ghost squads = operator_squads@;
    let mut k: usize = 0;
    while k < operator_squads.len()
        invariant
            k <= operator_squads.len(),
            squads == operator_squads@,
            used@.len() == spawns@.len(),
            result@.len() == k,
            spawn_assignment(squads, spawns@, k as nat).len() == k,
            forall|m: int| 0 <= m < k ==> (match result@[m] {
                Some(j) => Some(j as int),
                None => None,
            }) == #[trigger] spawn_assignment(squads, spawns@, k as nat)[m],
            forall|m: int| 0 <= m < spawns@.len() ==> (used@[m] <==> used_spawns(
                spawn_assignment(squads, spawns@, k as nat),
            ).contains(m)),
        decreases operator_squads.len() - k,
    {
        let squad = operator_squads[k];
        let ghost prev = spawn_assignment(squads, spawns@, k as nat);
        let ghost used_set = used_spawns(prev);
        let mut found: Option<usize> = None;
        let mut j: usize = 0;
        while j < spawns.len()
            invariant
                j <= spawns.len(),
                used@.len() == spawns@.len(),
                forall|m: int| 0 <= m < spawns@.len() ==> (used@[m] <==> used_set.contains(m)),
                found is None ==> forall|m: int| 0 <= m < j ==> !spawn_free_for(spawns@, used_set, squad, m),
                found matches Some(f) ==> f < spawns@.len() && spawn_free_for(spawns@, used_set, squad, f as int)
                    && forall|m: int| 0 <= m < f ==> !spawn_free_for(spawns@, used_set, squad, m),
            decreases spawns.len() - j,
        {
            if found.is_none() && spawns[j].squad.0 == squad.0 && !spawns[j].occupied && !used[j] {
                found = Some(j);
            }
            j = j + 1;
        }
        proof {
            lemma_first_free_spawn(spawns@, used_set, squad, 0);
            let ff = first_free_spawn(spawns@, used_set, squad, 0);
            match found {
                Some(f) => {
                    match ff {
                        Some(g) => {
                            if g < f {
                                assert(!spawn_free_for(spawns@, used_set, squad, g));
                            }
                            if f < g {
                                assert(!spawn_free_for(spawns@, used_set, squad, f as int));
                            }
                        },
                        None => {
                            assert(!spawn_free_for(spawns@, used_set, squad, f as int));
                        },
                    }
                },
                None => {
                    match ff {
                        Some(g) => {
                            assert(!spawn_free_for(spawns@, used_set, squad, g));
                        },
                        None => {},
                    }
                },
            }
            assert(ff == match found { Some(f) => Some(f as int), None => None::<int> });
        }
        result.push(found);
        if let Some(f) = found {
            used.set(f, true);
        }
        proof {
            let next = spawn_assignment(squads, spawns@, (k + 1) as nat);
            assert(next == prev.push(first_free_spawn(spawns@, used_set, squad, 0)));
            assert forall|m: int| 0 <= m < spawns@.len() implies (used@[m] <==> used_spawns(
                next,
            ).contains(m)) by {
                if used_spawns(next).contains(m) {
                    let w = choose|w: int| 0 <= w < next.len() && next[w] == Some(m);
                    if w < prev.len() {
                        assert(prev[w] == Some(m));
                        assert(used_set.contains(m));
                    }
                }
                if used_set.contains(m) {
                    let w = choose|w: int| 0 <= w < prev.len() && prev[w] == Some(m);
                    assert(next[w] == Some(m));
                }
                if found == Some(m as usize) {
                    assert(next[k as int] == Some(m));
                }
            }
        }
        k = k + 1;
    }
    result
}

/// Law: spawning is sound. Every operator that is assigned a position gets
/// one of its own squad that was not occupied, and no position is handed out
/// twice.
pub proof fn lemma_spawn_assignment_sound(squads: Seq<SquadId>, spawns: Seq<SpawnPoint>, n: nat)
    requires
        n <= squads.len(),
    ensures
        ({
            let a = spawn_assignment(squads, spawns, n);
            &&& a.len() == n
            &&& forall|k: int| 0 <= k < n ==> (#[trigger] a[k] matches Some(j) ==> 0 <= j < spawns.len()
                && spawns[j].squad == squads[k] && !spawns[j].occupied)
            &&& forall|k1: int, k2: int|
                0 <= k1 < n && 0 <= k2 < n && k1 != k2 && (#[trigger] a[k1]) is Some ==> a[k1] != #[trigger] a[k2]
        }),
    decreases n,
{
    lemma_assignment_len(squads, spawns, n);
    if n > 0 {
        let m = (n - 1) as nat;
        lemma_spawn_assignment_sound(squads, spawns, m);
        let prev = spawn_assignment(squads, spawns, m);
        let a = spawn_assignment(squads, spawns, n);
        let used = used_spawns(prev);
        lemma_first_free_spawn(spawns, used, squads[m as int], 0);
        assert(a == prev.push(first_free_spawn(spawns, used, squads[m as int], 0)));
        assert forall|k1: int, k2: int|
            0 <= k1 < n && 0 <= k2 < n && k1 != k2 && (#[trigger] a[k1]) is Some implies a[k1] != #[trigger] a[k2] by {
            if k1 == m {
                if let Some(j) = a[k1] {
                    assert(!used.contains(j));
                    assert(prev[k2] != Some(j));
                }
            } else if k2 == m {
                if let Some(j) = a[k1] {
                    assert(prev[k1] == Some(j));
                    assert(used.contains(j));
                }
            } else {
                assert(a[k1] == prev[k1]);
                assert(a[k2] == prev[k2]);
            }
        }
    }
}


/// Number of the first `k` new operators that belong to `squad`.
pub open spec fn operators_of(squads: Seq<SquadId>, squad: SquadId, k: int) -> nat
    decreases k,
{
    if k <= 0 {
        0
    } else {
        operators_of(squads, squad, k - 1) + if squads[k - 1] == squad { 1nat } else { 0nat }
    }
}

/// Number of unoccupied spawn positions of `squad` among the first `i`.
pub open spec fn free_spawns(spawns: Seq<SpawnPoint>, squad: SquadId, i: int) -> nat
    decreases i,
{
    if i <= 0 {
        0
    } else {
        free_spawns(spawns, squad, i - 1) + if spawns[i - 1].squad == squad && !spawns[i - 1].occupied {
            1nat
        } else {
            0nat
        }
    }
}

/// Number of unoccupied spawn positions of `squad` among the first `i` that
/// are in `used`.
spec fn taken_spawns(spawns: Seq<SpawnPoint>, used: Set<int>, squad: SquadId, i: int) -> nat
    decreases i,
{
    if i <= 0 {
        0
    } else {
        taken_spawns(spawns, used, squad, i - 1) + if spawns[i - 1].squad == squad
            && !spawns[i - 1].occupied && used.contains(i - 1) {
            1nat
        } else {
            0nat
        }
    }
}

proof fn lemma_taken_le_free(spawns: Seq<SpawnPoint>, used: Set<int>, squad: SquadId, i: int)
    requires
        0 <= i <= spawns.len(),
    ensures
        taken_spawns(spawns, used, squad, i) <= free_spawns(spawns, squad, i),
        taken_spawns(spawns, used, squad, i) < free_spawns(spawns, squad, i) <==> exists|j: int|
            0 <= j < i && spawn_free_for(spawns, used, squad, j),
    decreases i,
{
    if i > 0 {
        lemma_taken_le_free(spawns, used, squad, i - 1);
        if taken_spawns(spawns, used, squad, i - 1) < free_spawns(spawns, squad, i - 1) {
            let w = choose|j: int| 0 <= j < i - 1 && spawn_free_for(spawns, used, squad, j);
            assert(0 <= w < i && spawn_free_for(spawns, used, squad, w));
        }
        if spawn_free_for(spawns, used, squad, i - 1) {
            assert(0 <= i - 1 < i && spawn_free_for(spawns, used, squad, i - 1));
        }
        if exists|j: int| 0 <= j < i && spawn_free_for(spawns, used, squad, j) {
            let w = choose|j: int| 0 <= j < i && spawn_free_for(spawns, used, squad, j);
            if w < i - 1 {
                assert(0 <= w < i - 1 && spawn_free_for(spawns, used, squad, w));
            }
        }
    }
}

proof fn lemma_taken_insert(spawns: Seq<SpawnPoint>, used: Set<int>, squad: SquadId, j: int, i: int)
    requires
        0 <= i <= spawns.len(),
        !used.contains(j),
    ensures
        taken_spawns(spawns, used.insert(j), squad, i) == taken_spawns(spawns, used, squad, i) + if 0
            <= j < i && spawns[j].squad == squad && !spawns[j].occupied {
            1nat
        } else {
            0nat
        },
    decreases i,
{
    if i > 0 {
        lemma_taken_insert(spawns, used, squad, j, i - 1);
    }
}

proof fn lemma_used_after(prev: Seq<Option<int>>, x: Option<int>)
    ensures
        used_spawns(prev.push(x)) == match x {
            Some(j) => used_spawns(prev).insert(j),
            None => used_spawns(prev),
        },
{
    let next = prev.push(x);
    let expected = match x {
        Some(j) => used_spawns(prev).insert(j),
        None => used_spawns(prev),
    };
    assert forall|m: int| #[trigger] used_spawns(next).contains(m) <==> expected.contains(m) by {
        if used_spawns(next).contains(m) {
            let w = choose|w: int| 0 <= w < next.len() && next[w] == Some(m);
            if w < prev.len() {
                assert(prev[w] == Some(m));
            }
        }
        if used_spawns(prev).contains(m) {
            let w = choose|w: int| 0 <= w < prev.len() && prev[w] == Some(m);
            assert(next[w] == Some(m));
        }
        if x == Some(m) {
            assert(next[prev.len() as int] == Some(m));
        }
    }
    assert(used_spawns(next) =~= expected);
}

proof fn lemma_assignment_prefix(squads: Seq<SquadId>, spawns: Seq<SpawnPoint>, n: nat, k: int)
    requires
        0 <= k < n,
    ensures
        spawn_assignment(squads, spawns, n)[k] == spawn_assignment(squads, spawns, (k + 1) as nat)[k],
    decreases n,
{
    lemma_assignment_len(squads, spawns, (n - 1) as nat);
    if k < n - 1 {
        lemma_assignment_prefix(squads, spawns, (n - 1) as nat, k);
    }
}

/// Whether the first free position of `squad` exists: exactly when fewer
/// of its unoccupied positions are handed out than there are.
proof fn lemma_first_free_exists(spawns: Seq<SpawnPoint>, used: Set<int>, squad: SquadId)
    ensures
        first_free_spawn(spawns, used, squad, 0) is Some <==> taken_spawns(spawns, used, squad, spawns.len() as int)
            < free_spawns(spawns, squad, spawns.len() as int),
        first_free_spawn(spawns, used, squad, 0) matches Some(j) ==> spawn_free_for(spawns, used, squad, j),
{
    lemma_first_free_spawn(spawns, used, squad, 0);
    lemma_taken_le_free(spawns, used, squad, spawns.len() as int);
    if exists|j: int| 0 <= j < spawns.len() && spawn_free_for(spawns, used, squad, j) {
        let w = choose|j: int| 0 <= j < spawns.len() && spawn_free_for(spawns, used, squad, j);
        assert(spawn_free_for(spawns, used, squad, w));
    }
}

/// After `n` operators, the positions handed out to squad `t` are as many as
/// its operators so far, up to the number of its unoccupied positions.
proof fn lemma_taken_count(squads: Seq<SquadId>, spawns: Seq<SpawnPoint>, n: nat, t: SquadId)
    requires
        n <= squads.len(),
    ensures
        ({
            let ops = operators_of(squads, t, n as int);
            let free = free_spawns(spawns, t, spawns.len() as int);
            taken_spawns(spawns, used_spawns(spawn_assignment(squads, spawns, n)), t, spawns.len() as int)
                == if ops < free { ops } else { free }
        }),
    decreases n,
{
    let len = spawns.len() as int;
    if n == 0 {
        assert(used_spawns(spawn_assignment(squads, spawns, 0)) =~= Set::<int>::empty());
        lemma_taken_zero(spawns, t, len);
    } else {
        let m = (n - 1) as nat;
        lemma_taken_count(squads, spawns, m, t);
        let prev = spawn_assignment(squads, spawns, m);
        let used = used_spawns(prev);
        let s = squads[m as int];
        let x = first_free_spawn(spawns, used, s, 0);
        assert(spawn_assignment(squads, spawns, n) == prev.push(x));
        lemma_used_after(prev, x);
        lemma_first_free_exists(spawns, used, s);
        lemma_taken_le_free(spawns, used, t, len);
        if let Some(j) = x {
            lemma_taken_insert(spawns, used, t, j, len);
        }
    }
}

proof fn lemma_taken_zero(spawns: Seq<SpawnPoint>, t: SquadId, i: int)
    ensures
        taken_spawns(spawns, Set::<int>::empty(), t, i) == 0,
    decreases i,
{
    if i > 0 {
        lemma_taken_zero(spawns, t, i - 1);
    }
}

/// Law: spawn positions go to the operators of a squad first come, first
/// served. Operator `k` gets a position exactly when fewer of the earlier new
/// operators of its squad came before it than its squad has unoccupied
/// positions; so the first min(operators, unoccupied positions) operators of
/// each squad get one and the rest get none.
pub proof fn lemma_spawn_first_come_first_served(squads: Seq<SquadId>, spawns: Seq<SpawnPoint>, n: nat, k: int)
    requires
        n <= squads.len(),
        0 <= k < n,
    ensures
        spawn_assignment(squads, spawns, n)[k] is Some <==> operators_of(squads, squads[k], k)
            < free_spawns(spawns, squads[k], spawns.len() as int),
{
    lemma_assignment_prefix(squads, spawns, n, k);
    let prev = spawn_assignment(squads, spawns, k as nat);
    lemma_assignment_len(squads, spawns, k as nat);
    assert(spawn_assignment(squads, spawns, (k + 1) as nat)[k] == first_free_spawn(
        spawns,
        used_spawns(prev),
        squads[k],
        0,
    ));
    lemma_taken_count(squads, spawns, k as nat, squads[k]);
    lemma_first_free_exists(spawns, used_spawns(prev), squads[k]);
}

} // verus!
