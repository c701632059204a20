use vstd::prelude::*;

use crate::account::AccountId;
use crate::color::{Color, ColorAdded, ColorsClear, Error};

verus! {

/// The abstract state of a colour store.
pub struct ColorsState {
    /// Every colour held, in the order it was appended.
    pub colors: Seq<Color>,
    /// The colour most recently added; an emptying by the owner leaves it as it was.
    pub last_color: Option<Color>,
    /// For each identity that ever added a colour, how many it has added in all.
    pub contributions: Map<AccountId, nat>,
    /// How many colours the store holds.
    pub total: nat,
    /// The identity that created the store, the only one that may empty it.
    pub owner: AccountId,
}

/// A state-changing call on a store, with the identity that makes it.
pub enum Operation {
    Add(AccountId, Color),
    Clear(AccountId),
}

/// How many colours `who` has added in all, as `m` records it (none if absent).
pub open spec fn count_of(m: Map<AccountId, nat>, who: AccountId) -> nat {
    if m.contains_key(who) {
        m[who]
    } else {
        0
    }
}

impl ColorsState {
    /// The state of a store that `caller` creates with the colours `initial`.
    pub open spec fn initial(caller: AccountId, initial: Seq<Color>) -> ColorsState {
        ColorsState {
            colors: initial,
            last_color: if initial.len() == 0 {
                None
            } else {
                Some(initial.last())
            },
            contributions: if initial.len() == 0 {
                Map::empty()
            } else {
                Map::empty().insert(caller, initial.len())
            },
            total: initial.len(),
            owner: caller,
        }
    }

    /// The state after one operation.
    pub open spec fn apply(self, op: Operation) -> ColorsState {
        match op {
            Operation::Add(caller, color) => ColorsState {
                colors: self.colors.push(color),
                last_color: Some(color),
                contributions: self.contributions.insert(
                    caller,
                    count_of(self.contributions, caller) + 1,
                ),
                total: self.total + 1,
                owner: self.owner,
            },
            Operation::Clear(caller) => if caller == self.owner {
                ColorsState {
                    colors: Seq::empty(),
                    last_color: self.last_color,
                    contributions: self.contributions,
                    total: 0,
                    owner: self.owner,
                }
            } else {
                self
            },
        }
    }

    /// The state after a sequence of operations, applied in order.
    pub open spec fn apply_all(self, ops: Seq<Operation>) -> ColorsState
        decreases ops.len(),
    {
        if ops.len() == 0 {
            self
        } else {
            self.apply_all(ops.drop_last()).apply(ops.last())
        }
    }

    /// The total agrees with the colours held, and the cached last colour is the
    /// last of them whenever there is one.
    pub open spec fn consistent(self) -> bool {
        &&& self.total == self.colors.len()
        &&& self.colors.len() > 0 ==> self.last_color == Some(self.colors.last())
    }
}

/// A store of colours that anyone may add to and only its owner may empty.
pub struct OpenColors {
    colors_list: Vec<Color>,
    last_color: Option<Color>,
    colors_added_per_user: Vec<(AccountId, u32)>,
    contributions: Ghost<Map<AccountId, nat>>,
    total_colors_added: u32,
    owner: AccountId,
}

impl View for OpenColors {
    type V = ColorsState;

    closed spec fn view(&self) -> ColorsState {
        ColorsState {
            colors: self.colors_list@,
            last_color: self.last_color,
            contributions: self.contributions@,
            total: self.total_colors_added as nat,
            owner: self.owner,
        }
    }
}

impl OpenColors {
    /// The store is well formed: its state is consistent, and the table of
    /// contributions holds each identity once, with the count that the state records.
    pub closed spec fn wf(&self) -> bool {
        let entries = self.colors_added_per_user@;
        let m = self.contributions@;
        &&& self@.consistent()
        &&& forall|i: int, j: int|
            0 <= i < entries.len() && 0 <= j < entries.len() && i != j ==> entries[i].0
                != entries[j].0
        &&& forall|i: int|
            0 <= i < entries.len() ==> m.contains_key(#[trigger] entries[i].0) && m[entries[i].0]
                == entries[i].1 as nat
        &&& forall|k: AccountId|
            m.contains_key(k) ==> exists|i: int| 0 <= i < entries.len() && #[trigger] entries[i].0 == k
    }

    /// A well-formed store is consistent: its total is the number of colours it
    /// holds, and while it holds any, its last colour is the last of them.
    pub proof fn lemma_consistent(&self)
        requires
            self.wf(),
        ensures
            self@.consistent(),
            self@.total == self@.colors.len(),
    {
    }

    /// Creates an empty store owned by `caller`.
    pub fn default(caller: AccountId) -> (s: OpenColors)
        ensures
            s.wf(),
            s@ == ColorsState::initial(caller, Seq::empty()),
    {
        OpenColors {
            colors_list: Vec::new(),
            last_color: None,
            colors_added_per_user: Vec::new(),
            contributions: Ghost(Map::empty()),
            total_colors_added: 0,
            owner: caller,
        }
    }

    /// Where `who` stands in the table of contributions, if it has added a colour.
    fn find_contributor(&self, who: &AccountId) -> (r: Option<usize>)
        requires
            self.wf(),
        ensures
            match r {
                Some(i) => i < self.colors_added_per_user@.len()
                    && self.colors_added_per_user@[i as int].0 == *who,
                None => !self@.contributions.contains_key(*who),
            },
    {
        let mut i: usize = 0;
        while i < self.colors_added_per_user.len()
            invariant
                self.wf(),
                i <= self.colors_added_per_user@.len(),
                forall|j: int| 0 <= j < i ==> self.colors_added_per_user@[j].0 != *who,
            decreases self.colors_added_per_user@.len() - i,
        {
            if self.colors_added_per_user[i].0.same_as(who) {
                return Some(i);
            }
            i = i + 1;
        }
        None
    }

    /// Creates a store owned by `caller` that holds `initial_colors`, in order,
    /// and credits `caller` with each of them.
    pub fn new(caller: AccountId, initial_colors: Vec<Color>) -> (s: OpenColors)
        requires
            initial_colors@.len() <= u32::MAX,
        ensures
            s.wf(),
            s@ == ColorsState::initial(caller, initial_colors@),
    {
        let n = initial_colors.len();
        if n == 0 {
            assert(initial_colors@ =~= Seq::<Color>::empty());
            return OpenColors::default(caller);
        }
        let last = initial_colors[n - 1];
        let instance = OpenColors {
            colors_list: initial_colors,
            last_color: Some(last),
            colors_added_per_user: vec![(caller, n as u32)],
            contributions: Ghost(Map::empty().insert(caller, n as nat)),
            total_colors_added: n as u32,
            owner: caller,
        };
        proof {
            let entries = instance.colors_added_per_user@;
            assert(entries.len() == 1 && entries[0].0 == caller);
            assert forall|k: AccountId| instance.contributions@.contains_key(k) implies exists|i: int|
                0 <= i < entries.len() && #[trigger] entries[i].0 == k by {
                assert(entries[0].0 == k);
            }
        }
        instance
    }

    /// Appends `color` on behalf of `caller`, who is credited with one more
    /// colour, and returns the event that records it.
    pub fn add_color(&mut self, caller: AccountId, color: Color) -> (event: ColorAdded)
        requires
            old(self).wf(),
            old(self)@.total < u32::MAX,
            count_of(old(self)@.contributions, caller) < u32::MAX,
        ensures
            final(self).wf(),
            final(self)@ == old(self)@.apply(Operation::Add(caller, color)),
            event == (ColorAdded { account_id: caller, color }),
    {
        let ghost old_map = self.contributions@;
        let ghost old_entries = self.colors_added_per_user@;
        let ghost new_count = count_of(old_map, caller) + 1;
        let found = self.find_contributor(&caller);
        self.colors_list.push(color);
        match found {
            Some(i) => {
                let n = self.colors_added_per_user[i].1;
                self.colors_added_per_user.set(i, (caller, n + 1));
            },
            None => {
                self.colors_added_per_user.push((caller, 1));
            },
        }
        self.contributions = Ghost(old_map.insert(caller, new_count));
        self.last_color = Some(color);
        self.total_colors_added = self.total_colors_added + 1;
        proof {
            let entries = self.colors_added_per_user@;
            let m = self.contributions@;
            assert forall|k: AccountId| m.contains_key(k) implies exists|i: int|
                0 <= i < entries.len() && #[trigger] entries[i].0 == k by {
                if k == caller {
                    match found {
                        Some(i) => assert(entries[i as int].0 == k),
                        None => assert(entries[entries.len() - 1].0 == k),
                    }
                } else {
                    let j = choose|j: int| 0 <= j < old_entries.len() && #[trigger] old_entries[j].0 == k;
                    assert(entries[j].0 == k);
                }
            }
        }
        ColorAdded { account_id: caller, color }
    }

    /// `Ok` exactly when `caller` owns the store.
    fn ensure_owner(&self, caller: &AccountId) -> (r: Result<(), Error>)
        ensures
            r == (if *caller == self@.owner {
                Ok::<(), Error>(())
            } else {
                Err(Error::NotOwner)
            }),
    {
        if !self.owner.same_as(caller) {
            return Err(Error::NotOwner);
        }
        Ok(())
    }

    /// Empties the store when `caller` owns it and returns the event that
    /// records it; otherwise fails with `NotOwner` and changes nothing. The
    /// contributions and the last colour added are kept either way.
    pub fn clear_colors(&mut self, caller: AccountId) -> (r: Result<ColorsClear, Error>)
        requires
            old(self).wf(),
        ensures
            final(self).wf(),
            final(self)@ == old(self)@.apply(Operation::Clear(caller)),
            r == (if caller == old(self)@.owner {
                Ok::<ColorsClear, Error>(ColorsClear { account_id: caller })
            } else {
                Err(Error::NotOwner)
            }),
            r is Err ==> *final(self) == *old(self),
    {
        match self.ensure_owner(&caller) {
            Err(e) => {
                return Err(e);
            },
            Ok(()) => {},
        }
        self.colors_list.clear();
        self.total_colors_added = 0;
        assert(self.colors_list@ =~= Seq::<Color>::empty());
        assert(self.colors_added_per_user@ == old(self).colors_added_per_user@);
        assert(self.contributions@ == old(self).contributions@);
        Ok(ColorsClear { account_id: caller })
    }

    /// The colour most recently added (kept when the owner empties the store).
    pub fn get_last_color(&mut self) -> (r: Option<Color>)
        ensures
            *final(self) == *old(self),
            r == old(self)@.last_color,
    {
        self.last_color
    }

    /// A copy of the colours held, in the order they were added.
    pub fn get_colors_list(&mut self) -> (r: Vec<Color>)
        ensures
            *final(self) == *old(self),
            r@ == old(self)@.colors,
    {
        let mut out: Vec<Color> = Vec::new();
        let mut i: usize = 0;
        while i < self.colors_list.len()
            invariant
                i <= self.colors_list@.len(),
                out@ == self.colors_list@.subrange(0, i as int),
            decreases self.colors_list@.len() - i,
        {
            out.push(self.colors_list[i]);
            i = i + 1;
            assert(out@ =~= self.colors_list@.subrange(0, i as int));
        }
        assert(out@ =~= self.colors_list@);
        out
    }

    /// The identity that owns the store.
    pub fn owner(&self) -> (r: AccountId)
        ensures
            r == self@.owner,
    {
        self.owner
    }

    /// How many colours the store holds.
    pub fn total_colors_added(&self) -> (r: u32)
        ensures
            r as nat == self@.total,
    {
        self.total_colors_added
    }

    /// How many colours `who` has added in all, or `None` if it never added one.
    pub fn colors_added_by(&self, who: AccountId) -> (r: Option<u32>)
        requires
            self.wf(),
        ensures
            r is Some <==> self@.contributions.contains_key(who),
            r is Some ==> r->0 as nat == self@.contributions[who],
    {
        match self.find_contributor(&who) {
            Some(i) => Some(self.colors_added_per_user[i].1),
            None => None,
        }
    }
} // impl OpenColors

} // verus!
