//! Actor addresses: the structured identity under which every registry in
//! the runtime keys its entries. Equality is structural over the four
//! fields.

use vstd::prelude::*;

verus! {

/// The mathematical value of an [`ActorAddress`]: its four name components
/// as character sequences. Registries and contracts speak of addresses
/// through this view, so that two addresses with equal text are one key.
#[verifier::ext_equal]
pub struct AddrView {
    pub actor: Seq<char>,
    pub system: Seq<char>,
    pub pool: Seq<char>,
    pub remote: Seq<char>,
}

/// Immutable identity of a spawned actor: actor name, owning system name,
/// owning pool name, and a location tag (`"local"` for in-process actors;
/// remote transport is not implemented, the field is reserved).
pub struct ActorAddress {
    pub actor: String,
    pub system: String,
    pub pool: String,
    pub remote: String,
}

impl View for ActorAddress {
    type V = AddrView;

    open spec fn view(&self) -> AddrView {
        AddrView {
            actor: self.actor@,
            system: self.system@,
            pool: self.pool@,
            remote: self.remote@,
        }
    }
}

impl Clone for ActorAddress {
    fn clone(&self) -> (r: ActorAddress)
        ensures
            r@ == self@,
    {
        ActorAddress {
            actor: self.actor.clone(),
            system: self.system.clone(),
            pool: self.pool.clone(),
            remote: self.remote.clone(),
        }
    }
}

impl PartialEq for ActorAddress {
    fn eq(&self, other: &ActorAddress) -> (r: bool) {
        self.actor == other.actor && self.system == other.system && self.pool == other.pool
            && self.remote == other.remote
    }
}

impl vstd::std_specs::cmp::PartialEqSpecImpl for ActorAddress {
    open spec fn obeys_eq_spec() -> bool {
        true
    }

    open spec fn eq_spec(&self, other: &ActorAddress) -> bool {
        self@ =~= other@
    }
}

} // verus!
