use vstd::prelude::*;

use crate::hex::GameBoardSpacePos;

verus! {

/// The color of a player, which owns cities and knights.
#[derive(Clone, Copy, Debug, PartialEq, Eq, Hash, Structural)]
pub enum PlayerColor {
    Red,
    Blue,
    Green,
    Yellow,
}

/// A city or a knight: where it stands and who owns it.
#[derive(Clone, Copy, Debug, PartialEq, Eq, Structural)]
pub struct UnitInfo {
    pub position: GameBoardSpacePos,
    pub owner: PlayerColor,
}

pub open spec fn units_in_bounds(s: Seq<UnitInfo>) -> bool {
    forall|i: int| 0 <= i < s.len() ==> (#[trigger] s[i]).position.in_bounds()
}

/// Some unit of `s` owned by `owner` stands at `p`.
pub open spec fn own_unit_at(s: Seq<UnitInfo>, p: GameBoardSpacePos, owner: PlayerColor) -> bool {
    exists|i: int| 0 <= i < s.len() && (#[trigger] s[i]).position == p && s[i].owner == owner
}

/// A city of someone other than `owner` stands at `p`.
pub open spec fn enemy_city_at(cities: Seq<UnitInfo>, p: GameBoardSpacePos, owner: PlayerColor) -> bool {
    exists|i: int| 0 <= i < cities.len() && (#[trigger] cities[i]).position == p && cities[i].owner != owner
}

/// A city stands at `p` or at one of its neighbors.
pub open spec fn city_within_one(cities: Seq<UnitInfo>, p: GameBoardSpacePos) -> bool {
    exists|i: int|
        0 <= i < cities.len() && {
            let c = (#[trigger] cities[i]).position;
            c == p || p.neighbors().contains(c)
        }
}

/// Number of units of `s` at `p`.
pub open spec fn count_at(s: Seq<UnitInfo>, p: GameBoardSpacePos) -> nat
    decreases s.len(),
{
    if s.len() == 0 {
        0
    } else {
        count_at(s.drop_last(), p) + if s.last().position == p {
            1nat
        } else {
            0
        }
    }
}

/// Number of units of `s` at `p` owned by `c`.
pub open spec fn owned_count(s: Seq<UnitInfo>, p: GameBoardSpacePos, c: PlayerColor) -> nat
    decreases s.len(),
{
    if s.len() == 0 {
        0
    } else {
        owned_count(s.drop_last(), p, c) + if s.last().position == p && s.last().owner == c {
            1nat
        } else {
            0
        }
    }
}

/// Number of units of `s` at `p` owned by anyone but `c`.
pub open spec fn opposing_count(s: Seq<UnitInfo>, p: GameBoardSpacePos, c: PlayerColor) -> nat
    decreases s.len(),
{
    if s.len() == 0 {
        0
    } else {
        opposing_count(s.drop_last(), p, c) + if s.last().position == p && s.last().owner != c {
            1nat
        } else {
            0
        }
    }
}

/// A unit that loses when `winner` holds `p`: it stands at `p` and belongs
/// to someone else.
pub open spec fn loses_to(u: UnitInfo, p: GameBoardSpacePos, winner: PlayerColor) -> bool {
    u.position == p && u.owner != winner
}

/// The units of `s` that lose when `winner` holds `p`, in registry order.
pub open spec fn casualties(s: Seq<UnitInfo>, p: GameBoardSpacePos, winner: PlayerColor) -> Seq<
    UnitInfo,
>
    decreases s.len(),
{
    if s.len() == 0 {
        s
    } else if loses_to(s.last(), p, winner) {
        casualties(s.drop_last(), p, winner).push(s.last())
    } else {
        casualties(s.drop_last(), p, winner)
    }
}

/// The units of `s` that remain when `winner` holds `p`, in registry order.
pub open spec fn survivors(s: Seq<UnitInfo>, p: GameBoardSpacePos, winner: PlayerColor) -> Seq<
    UnitInfo,
>
    decreases s.len(),
{
    if s.len() == 0 {
        s
    } else if loses_to(s.last(), p, winner) {
        survivors(s.drop_last(), p, winner)
    } else {
        survivors(s.drop_last(), p, winner).push(s.last())
    }
}

/// The owner holding two or more knights at `p`, looking at the colors in
/// the order red, blue, green, yellow.
pub open spec fn majority_owner(s: Seq<UnitInfo>, p: GameBoardSpacePos) -> Option<PlayerColor> {
    if owned_count(s, p, PlayerColor::Red) >= 2 {
        Some(PlayerColor::Red)
    } else if owned_count(s, p, PlayerColor::Blue) >= 2 {
        Some(PlayerColor::Blue)
    } else if owned_count(s, p, PlayerColor::Green) >= 2 {
        Some(PlayerColor::Green)
    } else if owned_count(s, p, PlayerColor::Yellow) >= 2 {
        Some(PlayerColor::Yellow)
    } else {
        None
    }
}

/// At most one owner holds two or more knights at `p`.
pub open spec fn single_majority(s: Seq<UnitInfo>, p: GameBoardSpacePos) -> bool {
    forall|a: PlayerColor, b: PlayerColor|
        #[trigger] owned_count(s, p, a) >= 2 && #[trigger] owned_count(s, p, b) >= 2 ==> a == b
}

/// The knights after combat at `p` and the ones removed: with fewer than
/// three knights there, or with no owner holding two of them, nobody is
/// removed; otherwise every knight at `p` not of the majority owner is.
pub open spec fn resolution(s: Seq<UnitInfo>, p: GameBoardSpacePos) -> (Seq<UnitInfo>, Seq<UnitInfo>) {
    if count_at(s, p) < 3 {
        (s, Seq::empty())
    } else {
        match majority_owner(s, p) {
            Some(w) => (survivors(s, p, w), casualties(s, p, w)),
            None => (s, Seq::empty()),
        }
    }
}

/// `i` is the index of the first unit of `s` at `p` owned by `owner`.
pub open spec fn is_first_own(s: Seq<UnitInfo>, p: GameBoardSpacePos, owner: PlayerColor, i: int) -> bool {
    &&& 0 <= i < s.len()
    &&& s[i].position == p
    &&& s[i].owner == owner
    &&& forall|j: int| 0 <= j < i ==> !(#[trigger] s[j].position == p && s[j].owner == owner)
}

/// The index of the first unit of `s` at `p` owned by `owner`, where there is one.
pub open spec fn first_own_index(s: Seq<UnitInfo>, p: GameBoardSpacePos, owner: PlayerColor) -> int {
    choose|i: int| is_first_own(s, p, owner, i)
}

pub proof fn lemma_first_own_index(s: Seq<UnitInfo>, p: GameBoardSpacePos, owner: PlayerColor, i: int)
    requires
        is_first_own(s, p, owner, i),
    ensures
        first_own_index(s, p, owner) == i,
{
    let k = first_own_index(s, p, owner);
    assert(is_first_own(s, p, owner, k));
    if k < i {
        assert(!(s[k].position == p && s[k].owner == owner));
    }
    if i < k {
        assert(!(s[i].position == p && s[i].owner == owner));
    }
}

/// Where there is a unit of `owner` at `p`, the first one is found.
pub proof fn lemma_first_own_exists(s: Seq<UnitInfo>, p: GameBoardSpacePos, owner: PlayerColor)
    requires
        own_unit_at(s, p, owner),
    ensures
        is_first_own(s, p, owner, first_own_index(s, p, owner)),
    decreases s.len(),
{
    if s.len() > 0 && s[0].position == p && s[0].owner == owner {
        assert(is_first_own(s, p, owner, 0));
    } else {
        let t = s.drop_first();
        let w = choose|i: int| 0 <= i < s.len() && (#[trigger] s[i]).position == p && s[i].owner == owner;
        assert(t[w - 1] == s[w]);
        lemma_first_own_exists(t, p, owner);
        let k = first_own_index(t, p, owner);
        assert forall|j: int| 0 <= j < k + 1 implies !(#[trigger] s[j].position == p && s[j].owner
            == owner) by {
            if j > 0 {
                assert(s[j] == t[j - 1]);
            }
        }
        assert(is_first_own(s, p, owner, k + 1));
    }
}

/// Knights of one owner never outnumber all the knights of the others.
pub proof fn lemma_owned_le_opposing(s: Seq<UnitInfo>, p: GameBoardSpacePos, c: PlayerColor, o: PlayerColor)
    requires
        c != o,
    ensures
        owned_count(s, p, c) <= opposing_count(s, p, o),
    decreases s.len(),
{
    if s.len() > 0 {
        lemma_owned_le_opposing(s.drop_last(), p, c, o);
    }
}

/// Replacing a unit by one of the same owner leaves the counts of other
/// owners unchanged.
pub proof fn lemma_owned_count_update(s: Seq<UnitInfo>, i: int, u: UnitInfo, p: GameBoardSpacePos, c: PlayerColor)
    requires
        0 <= i < s.len(),
        s[i].owner == u.owner,
        u.owner != c,
    ensures
        owned_count(s.update(i, u), p, c) == owned_count(s, p, c),
    decreases s.len(),
{
    let t = s.update(i, u);
    if i == s.len() - 1 {
        assert(t.drop_last() =~= s.drop_last());
    } else {
        assert(t.drop_last() =~= s.drop_last().update(i, u));
        lemma_owned_count_update(s.drop_last(), i, u, p, c);
    }
}

/// Replacing a unit by one of the same owner leaves the count of units
/// opposing that owner unchanged.
pub proof fn lemma_opposing_count_update(s: Seq<UnitInfo>, i: int, u: UnitInfo, p: GameBoardSpacePos)
    requires
        0 <= i < s.len(),
        s[i].owner == u.owner,
    ensures
        opposing_count(s.update(i, u), p, u.owner) == opposing_count(s, p, u.owner),
    decreases s.len(),
{
    let t = s.update(i, u);
    if i == s.len() - 1 {
        assert(t.drop_last() =~= s.drop_last());
    } else {
        assert(t.drop_last() =~= s.drop_last().update(i, u));
        lemma_opposing_count_update(s.drop_last(), i, u, p);
    }
}

/// With fewer than two knights of the others at `p` besides `owner`'s, at
/// most `owner` holds a majority there.
pub proof fn lemma_single_majority(s: Seq<UnitInfo>, p: GameBoardSpacePos, owner: PlayerColor)
    requires
        opposing_count(s, p, owner) < 2,
    ensures
        single_majority(s, p),
{
    assert forall|a: PlayerColor, b: PlayerColor|
        #[trigger] owned_count(s, p, a) >= 2 && #[trigger] owned_count(s, p, b) >= 2 implies a == b by {
        if a != owner {
            lemma_owned_le_opposing(s, p, a, owner);
        }
        if b != owner {
            lemma_owned_le_opposing(s, p, b, owner);
        }
    }
}

/// No unit is counted at a space where none stands.
pub proof fn lemma_count_at_zero(s: Seq<UnitInfo>, p: GameBoardSpacePos)
    requires
        count_at(s, p) == 0,
    ensures
        forall|i: int| 0 <= i < s.len() ==> (#[trigger] s[i]).position != p,
    decreases s.len(),
{
    if s.len() > 0 {
        lemma_count_at_zero(s.drop_last(), p);
        assert forall|i: int| 0 <= i < s.len() implies (#[trigger] s[i]).position != p by {
            if i < s.len() - 1 {
                assert(s[i] == s.drop_last()[i]);
            }
        }
    }
}

/// Combat never adds knights: no owner has more knights at `q` among the
/// survivors than before.
pub proof fn lemma_survivors_owned_count(
    s: Seq<UnitInfo>,
    p: GameBoardSpacePos,
    w: PlayerColor,
    q: GameBoardSpacePos,
    c: PlayerColor,
)
    ensures
        owned_count(survivors(s, p, w), q, c) <= owned_count(s, q, c),
    decreases s.len(),
{
    if s.len() > 0 {
        lemma_survivors_owned_count(s.drop_last(), p, w, q, c);
        let t = survivors(s.drop_last(), p, w);
        if !loses_to(s.last(), p, w) {
            assert(t.push(s.last()).drop_last() =~= t);
        }
    }
}

/// Combat at `p` keeps at most one owner with two or more knights at `p`.
pub proof fn lemma_resolution_single_majority(s: Seq<UnitInfo>, p: GameBoardSpacePos)
    requires
        single_majority(s, p),
    ensures
        single_majority(resolution(s, p).0, p),
{
    let k = resolution(s, p).0;
    assert forall|a: PlayerColor, b: PlayerColor|
        #[trigger] owned_count(k, p, a) >= 2 && #[trigger] owned_count(k, p, b) >= 2 implies a == b by {
        if count_at(s, p) >= 3 && majority_owner(s, p) is Some {
            let w = majority_owner(s, p).unwrap();
            lemma_survivors_owned_count(s, p, w, p, a);
            lemma_survivors_owned_count(s, p, w, p, b);
        }
        assert(owned_count(s, p, a) >= 2 && owned_count(s, p, b) >= 2);
    }
}

/// Combat at `p` won by `w` removes exactly the knights of the other owners
/// at `p`: none of them remains there, every knight of `w` remains, and
/// every removed knight is counted once.
pub proof fn lemma_combat_outcome(s: Seq<UnitInfo>, p: GameBoardSpacePos, w: PlayerColor)
    ensures
        opposing_count(survivors(s, p, w), p, w) == 0,
        owned_count(survivors(s, p, w), p, w) == owned_count(s, p, w),
        casualties(s, p, w).len() == opposing_count(s, p, w),
        survivors(s, p, w).len() + casualties(s, p, w).len() == s.len(),
        forall|i: int|
            0 <= i < casualties(s, p, w).len() ==> loses_to(#[trigger] casualties(s, p, w)[i], p, w),
    decreases s.len(),
{
    if s.len() > 0 {
        let t = s.drop_last();
        lemma_combat_outcome(t, p, w);
        let kept = survivors(t, p, w);
        let dead = casualties(t, p, w);
        if loses_to(s.last(), p, w) {
            assert(dead.push(s.last()).drop_last() =~= dead);
            assert forall|i: int| 0 <= i < casualties(s, p, w).len() implies loses_to(
                #[trigger] casualties(s, p, w)[i],
                p,
                w,
            ) by {
                if i < dead.len() {
                    assert(casualties(s, p, w)[i] == dead[i]);
                }
            }
        } else {
            assert(kept.push(s.last()).drop_last() =~= kept);
        }
    }
}

/// Combat at `p` where one owner holds a majority leaves only that owner's
/// knights at `p`, all of them, and removes the rest there; where no owner
/// holds two knights at `p`, nobody is removed.
pub proof fn lemma_resolution_outcome(s: Seq<UnitInfo>, p: GameBoardSpacePos)
    ensures
        count_at(s, p) >= 3 ==> (majority_owner(s, p) matches Some(w) ==> {
            let (k, dead) = resolution(s, p);
            &&& opposing_count(k, p, w) == 0
            &&& owned_count(k, p, w) == owned_count(s, p, w)
            &&& dead.len() == opposing_count(s, p, w)
        }),
        majority_owner(s, p) is None ==> resolution(s, p) == (s, Seq::<UnitInfo>::empty()),
{
    if count_at(s, p) >= 3 && majority_owner(s, p) is Some {
        lemma_combat_outcome(s, p, majority_owner(s, p).unwrap());
    }
}

/// Where combat at `p` removes nobody, the knights stay exactly as they
/// were.
pub proof fn lemma_no_casualties(s: Seq<UnitInfo>, p: GameBoardSpacePos)
    requires
        resolution(s, p).1.len() == 0,
    ensures
        resolution(s, p).0 == s,
{
    if count_at(s, p) >= 3 && majority_owner(s, p) is Some {
        lemma_survivors_all(s, p, majority_owner(s, p).unwrap());
    }
}

/// With no casualties, everyone survives.
pub proof fn lemma_survivors_all(s: Seq<UnitInfo>, p: GameBoardSpacePos, w: PlayerColor)
    requires
        casualties(s, p, w).len() == 0,
    ensures
        survivors(s, p, w) == s,
    decreases s.len(),
{
    if s.len() > 0 {
        if loses_to(s.last(), p, w) {
            assert(casualties(s, p, w).len() > 0);
        }
        lemma_survivors_all(s.drop_last(), p, w);
        assert(s.drop_last().push(s.last()) =~= s);
    }
}

} // verus!
