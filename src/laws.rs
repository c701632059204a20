use vstd::prelude::*;

use crate::account::AccountId;
use crate::color::Color;
use crate::store::{count_of, ColorsState, Operation};

verus! {

/// The operations that add each colour of `adds` in turn, each on behalf of the
/// identity paired with it.
pub open spec fn adds_of(adds: Seq<(AccountId, Color)>) -> Seq<Operation> {
    adds.map_values(|p: (AccountId, Color)| Operation::Add(p.0, p.1))
}

/// The colours of `adds`, in order.
pub open spec fn colors_of(adds: Seq<(AccountId, Color)>) -> Seq<Color> {
    adds.map_values(|p: (AccountId, Color)| p.1)
}

/// A consistent state stays consistent under any sequence of operations.
pub proof fn lemma_apply_all_consistent(s: ColorsState, ops: Seq<Operation>)
    requires
        s.consistent(),
    ensures
        s.apply_all(ops).consistent(),
    decreases ops.len(),
{
    if ops.len() > 0 {
        lemma_apply_all_consistent(s, ops.drop_last());
    }
}

/// In every state that a store can reach, the total is the number of colours
/// held.
pub proof fn lemma_total_matches_colors(caller: AccountId, initial: Seq<Color>, ops: Seq<Operation>)
    ensures
        ColorsState::initial(caller, initial).apply_all(ops).total
            == ColorsState::initial(caller, initial).apply_all(ops).colors.len(),
{
    lemma_apply_all_consistent(ColorsState::initial(caller, initial), ops);
}

/// Right after a store is created, its last colour is the last of the colours
/// it holds, and there is none when it holds none.
pub proof fn lemma_last_color_after_initial(caller: AccountId, initial: Seq<Color>)
    ensures
        ColorsState::initial(caller, initial).last_color == (if initial.len() == 0 {
            None
        } else {
            Some(ColorsState::initial(caller, initial).colors.last())
        }),
{
}

/// Right after a colour is added, the last colour is the last of the colours
/// held.
pub proof fn lemma_last_color_after_add(s: ColorsState, who: AccountId, color: Color)
    ensures
        s.apply(Operation::Add(who, color)).last_color == Some(
            s.apply(Operation::Add(who, color)).colors.last(),
        ),
{
}

/// No sequence of operations, emptying the store included, lowers the number of
/// colours credited to any identity.
pub proof fn lemma_contributions_never_decrease(s: ColorsState, ops: Seq<Operation>, who: AccountId)
    ensures
        count_of(s.apply_all(ops).contributions, who) >= count_of(s.contributions, who),
    decreases ops.len(),
{
    if ops.len() > 0 {
        lemma_contributions_never_decrease(s, ops.drop_last(), who);
    }
}

/// No sequence of operations changes the owner: it stays the identity that
/// created the store.
pub proof fn lemma_owner_fixed(caller: AccountId, initial: Seq<Color>, ops: Seq<Operation>)
    ensures
        ColorsState::initial(caller, initial).apply_all(ops).owner == caller,
    decreases ops.len(),
{
    if ops.len() > 0 {
        lemma_owner_fixed(caller, initial, ops.drop_last());
    }
}

/// Adding colours one after another leaves the colours held before them
/// followed by exactly the added ones, in the order they were added; a store
/// that held none then holds exactly the added colours.
pub proof fn lemma_round_trip(s: ColorsState, adds: Seq<(AccountId, Color)>)
    ensures
        s.apply_all(adds_of(adds)).colors == s.colors + colors_of(adds),
        s.colors.len() == 0 ==> s.apply_all(adds_of(adds)).colors == colors_of(adds),
    decreases adds.len(),
{
    if adds.len() == 0 {
        assert(s.colors + colors_of(adds) =~= s.colors);
    } else {
        let rest = adds.drop_last();
        lemma_round_trip(s, rest);
        assert(adds_of(adds).drop_last() =~= adds_of(rest));
        assert(s.colors + colors_of(adds) =~= (s.colors + colors_of(rest)).push(adds.last().1));
    }
    if s.colors.len() == 0 {
        assert(s.colors + colors_of(adds) =~= colors_of(adds));
    }
}

} // verus!
