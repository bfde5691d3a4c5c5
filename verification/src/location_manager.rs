use vstd::prelude::*;
use crate::contracts::GetFullAddress;

verus! {

/// Keeps the addresses a lookup returned and the index the user chose.
pub struct LocationManager<TAddress: GetFullAddress> {
    addresses: Vec<TAddress>,
    chosen_address_index: Option<usize>,
}

/// The message of `choose_address` when nothing is stored.
pub open spec fn no_addresses_message() -> Seq<char> {
    "There's no addresses to choose"@
}

/// The message of `choose_address` when the index is past the stored list.
pub open spec fn too_few_addresses_message() -> Seq<char> {
    "There's less address that you want to choose"@
}

/// The message of `get_chosen_address` when nothing was chosen.
pub open spec fn no_chosen_address_message() -> Seq<char> {
    "There's no chosen address"@
}

/// What a manager holds: the stored addresses and the chosen index.
pub struct ManagerModel<TAddress> {
    pub stored: Seq<TAddress>,
    pub chosen: Option<usize>,
}

/// A call that changes a manager: `store_addresses` with a list, or
/// `choose_address` with an index.
pub enum ManagerStep<TAddress> {
    Store(Seq<TAddress>),
    Choose(usize),
}

/// Whether a manager holding `model` accepts the choice of `index`.
pub open spec fn model_accepts<TAddress>(model: ManagerModel<TAddress>, index: usize) -> bool {
    model.stored.len() > 0 && index <= model.stored.len()
}

/// What one call makes of a manager.
pub open spec fn apply_step<TAddress>(model: ManagerModel<TAddress>, step: ManagerStep<TAddress>) -> ManagerModel<TAddress> {
    match step {
        ManagerStep::Store(addresses) => ManagerModel { stored: addresses, chosen: model.chosen },
        ManagerStep::Choose(index) => if model_accepts(model, index) {
            ManagerModel { stored: model.stored, chosen: Some(index) }
        } else {
            model
        },
    }
}

/// What a sequence of calls makes of a manager, first call first.
pub open spec fn apply_steps<TAddress>(model: ManagerModel<TAddress>, steps: Seq<ManagerStep<TAddress>>) -> ManagerModel<TAddress>
    decreases steps.len(),
{
    if steps.len() == 0 {
        model
    } else {
        apply_step(apply_steps(model, steps.drop_last()), steps.last())
    }
}

/// The list of the last `Store` of a sequence of calls; `stored` when there
/// is none.
pub open spec fn last_stored<TAddress>(stored: Seq<TAddress>, steps: Seq<ManagerStep<TAddress>>) -> Seq<TAddress>
    decreases steps.len(),
{
    if steps.len() == 0 {
        stored
    } else {
        match steps.last() {
            ManagerStep::Store(addresses) => addresses,
            ManagerStep::Choose(_) => last_stored(stored, steps.drop_last()),
        }
    }
}

impl<TAddress: GetFullAddress> LocationManager<TAddress> {
    /// What the manager holds.
    pub open spec fn model(&self) -> ManagerModel<TAddress> {
        ManagerModel { stored: self.stored(), chosen: self.chosen() }
    }

    /// The stored addresses, in the order they were given.
    pub closed spec fn stored(&self) -> Seq<TAddress> {
        self.addresses@
    }

    /// The index the user chose, if any.
    pub closed spec fn chosen(&self) -> Option<usize> {
        self.chosen_address_index
    }

    /// Whether `choose_address(index)` succeeds: something is stored and
    /// the index is not past the length of the stored list.
    pub open spec fn accepts_choice(&self, index: usize) -> bool {
        self.stored().len() > 0 && index <= self.stored().len()
    }

    /// The message `choose_address(index)` fails with, when it fails.
    pub open spec fn choice_error(&self, index: usize) -> Seq<char> {
        if self.stored().len() == 0 {
            no_addresses_message()
        } else {
            too_few_addresses_message()
        }
    }

    /// The chosen address, where the chosen index lies in the stored list.
    pub open spec fn chosen_address(&self) -> Option<TAddress> {
        match self.chosen() {
            Some(i) => if i < self.stored().len() {
                Some(self.stored()[i as int])
            } else {
                None
            },
            None => None,
        }
    }

    /// Whether reading the chosen address is safe: no index is chosen, or it
    /// lies in the stored list.
    pub open spec fn choice_in_range(&self) -> bool {
        self.chosen() matches Some(i) ==> i < self.stored().len()
    }

    /// An empty manager with no choice.
    pub fn new() -> (manager: Self)
        ensures
            manager.stored() == Seq::<TAddress>::empty(),
            manager.chosen() == None::<usize>,
    {
        LocationManager { addresses: Vec::new(), chosen_address_index: None }
    }

    /// Replaces the stored addresses; the chosen index is kept as it was.
    pub fn store_addresses(&mut self, addresses: Vec<TAddress>)
        ensures
            final(self).stored() == addresses@,
            final(self).chosen() == old(self).chosen(),
            final(self).model() == apply_step(old(self).model(), ManagerStep::Store(addresses@)),
    {
        self.addresses = addresses
    }

    /// Chooses the address at `index`. Fails when nothing is stored, or when
    /// the stored list is shorter than `index`; the state is then unchanged.
    pub fn choose_address(&mut self, index: usize) -> (result: Result<(), String>)
        ensures
            match result {
                Ok(()) => old(self).accepts_choice(index) && final(self).chosen() == Some(index),
                Err(e) => !old(self).accepts_choice(index)
                    && e@ == old(self).choice_error(index)
                    && *final(self) == *old(self),
            },
            final(self).stored() == old(self).stored(),
            final(self).model() == apply_step(old(self).model(), ManagerStep::Choose(index)),
    {
        if self.addresses.len() == 0 {
            Err("There's no addresses to choose".to_string())
        } else if self.addresses.len() < index {
            Err("There's less address that you want to choose".to_string())
        } else {
            self.chosen_address_index = Some(index);
            Ok(())
        }
    }

    /// The chosen address, or an error when none was chosen.
    pub fn get_chosen_address(&self) -> (result: Result<&TAddress, String>)
        requires
            self.choice_in_range(),
        ensures
            match self.chosen() {
                Some(i) => result matches Ok(a) && *a == self.stored()[i as int],
                None => result matches Err(e) && e@ == no_chosen_address_message(),
            },
    {
        match &self.chosen_address_index {
            Some(i) => Ok(&self.addresses[*i]),
            None => Err("There's no chosen address".to_string()),
        }
    }

    /// All stored addresses.
    pub fn get_all_addresses(&self) -> (addresses: &Vec<TAddress>)
        ensures
            addresses@ == self.stored(),
    {
        &self.addresses
    }

    /// The chosen index, if any.
    pub fn chosen_index(&self) -> (index: Option<usize>)
        ensures
            index == self.chosen(),
    {
        self.chosen_address_index
    }
}

impl<TAddress: GetFullAddress> LocationManager<TAddress> {
    /// A manager with nothing stored refuses every choice with "There's no
    /// addresses to choose", and reads no chosen address.
    pub proof fn law_empty_manager_refuses_choices(self, index: usize)
        requires
            self.stored().len() == 0,
        ensures
            !self.accepts_choice(index),
            self.choice_error(index) == no_addresses_message(),
            self.chosen_address() == None::<TAddress>,
    {
    }

    /// A choice succeeds exactly when something is stored and the index is at
    /// most the number of stored addresses; otherwise its error names the
    /// reason: nothing stored, or too few addresses.
    pub proof fn law_choice_bounds(self, index: usize)
        ensures
            self.accepts_choice(index) <==> (0 < self.stored().len() && index <= self.stored().len()),
            !self.accepts_choice(index) ==> (self.choice_error(index) == no_addresses_message()
                <==> self.stored().len() == 0),
    {
        reveal_strlit("There's no addresses to choose");
        reveal_strlit("There's less address that you want to choose");
        assert(no_addresses_message()[8] != too_few_addresses_message()[8]);
    }

    /// After a successful choice of an index inside the stored list (the
    /// addresses kept, the index chosen), the chosen address is the stored
    /// address at that index, and reading it is safe.
    pub proof fn law_choice_then_read(before: Self, after: Self, index: usize)
        requires
            before.accepts_choice(index),
            index < before.stored().len(),
            after.stored() == before.stored(),
            after.chosen() == Some(index),
        ensures
            after.choice_in_range(),
            after.chosen_address() == Some(before.stored()[index as int]),
    {
    }

    /// Choosing the index equal to the number of stored addresses is
    /// accepted, but what it chooses cannot be read.
    pub proof fn law_choice_past_last(before: Self, after: Self, index: usize)
        requires
            before.stored().len() > 0,
            index == before.stored().len(),
            after.stored() == before.stored(),
            after.chosen() == Some(index),
        ensures
            before.accepts_choice(index),
            !after.choice_in_range(),
            after.chosen_address() == None::<TAddress>,
    {
    }

    /// Storing addresses keeps the chosen index: a choice made before is read
    /// in the new list, and is out of range where the new list is too short.
    pub proof fn law_store_keeps_choice(before: Self, after: Self, addresses: Seq<TAddress>)
        requires
            after.stored() == addresses,
            after.chosen() == before.chosen(),
        ensures
            before.chosen() matches Some(i) ==> (after.choice_in_range() <==> i < addresses.len()),
            forall|i: usize| before.chosen() == Some(i) && i < addresses.len()
                ==> after.chosen_address() == Some(addresses[i as int]),
    {
    }
}

/// After any sequence of calls the stored addresses are those of the last
/// `store_addresses`, or those held before when there was none: choices,
/// accepted or refused, never change them.
pub proof fn law_stored_is_last_store<TAddress>(model: ManagerModel<TAddress>, steps: Seq<ManagerStep<TAddress>>)
    ensures
        apply_steps(model, steps).stored == last_stored(model.stored, steps),
    decreases steps.len(),
{
    if steps.len() > 0 {
        law_stored_is_last_store(model, steps.drop_last());
    }
}

/// Refused choices change nothing: after a sequence of choices that are each
/// refused, the manager holds what it held before, so what was chosen is
/// still what is read back.
pub proof fn law_refused_choices_change_nothing<TAddress>(model: ManagerModel<TAddress>, steps: Seq<ManagerStep<TAddress>>)
    requires
        forall|k: int| 0 <= k < steps.len() ==> (#[trigger] steps[k] matches ManagerStep::Choose(index)
            && !model_accepts(apply_steps(model, steps.take(k)), index)),
    ensures
        apply_steps(model, steps) == model,
    decreases steps.len(),
{
    if steps.len() > 0 {
        let prefix = steps.drop_last();
        assert forall|k: int| 0 <= k < prefix.len() implies (#[trigger] prefix[k] matches ManagerStep::Choose(index)
            && !model_accepts(apply_steps(model, prefix.take(k)), index)) by {
            assert(prefix[k] == steps[k]);
            assert(prefix.take(k) =~= steps.take(k));
        }
        law_refused_choices_change_nothing(model, prefix);
        assert(steps.take(steps.len() - 1) =~= prefix);
        let last = steps[steps.len() - 1];
        assert(last == steps.last());
    }
}

/// What was chosen is what is read back: storing `addresses`, choosing an
/// index inside them, then any number of refused choices leaves that index
/// chosen, and the chosen address is `addresses[index]`.
pub proof fn law_chosen_is_read_back<TAddress>(
    model: ManagerModel<TAddress>,
    addresses: Seq<TAddress>,
    index: usize,
    refused: Seq<ManagerStep<TAddress>>,
)
    requires
        index < addresses.len(),
        forall|k: int| 0 <= k < refused.len() ==> (#[trigger] refused[k] matches ManagerStep::Choose(i)
            && !model_accepts(
                apply_steps(
                    apply_steps(model, seq![ManagerStep::Store(addresses), ManagerStep::Choose(index)]),
                    refused.take(k),
                ),
                i,
            )),
    ensures
        ({
            let chosen = apply_steps(model, seq![ManagerStep::Store(addresses), ManagerStep::Choose(index)]);
            let after = apply_steps(chosen, refused);
            &&& after.stored == addresses
            &&& after.chosen == Some(index)
            &&& after.stored[index as int] == addresses[index as int]
        }),
{
    let two = seq![ManagerStep::Store(addresses), ManagerStep::Choose(index)];
    assert(two.drop_last() =~= seq![ManagerStep::Store(addresses)]);
    assert(seq![ManagerStep::Store(addresses)].drop_last() =~= Seq::<ManagerStep<TAddress>>::empty());
    let one = seq![ManagerStep::Store(addresses)];
    assert(apply_steps(model, Seq::<ManagerStep<TAddress>>::empty()) == model);
    assert(apply_steps(model, one) == apply_step(model, ManagerStep::Store(addresses)));
    let stored = ManagerModel { stored: addresses, chosen: model.chosen };
    assert(apply_steps(model, two) == apply_step(stored, ManagerStep::Choose(index)));
    let chosen = apply_steps(model, two);
    assert(chosen == ManagerModel { stored: addresses, chosen: Some(index) });
    law_refused_choices_change_nothing(chosen, refused);
}

} // verus!
