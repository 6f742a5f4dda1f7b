//! Bounded LIFO stacks for the radio engine, backed by `fixedvec`.
//!
//! The engine tracks in-flight commands and its waiting-on states in two
//! fixed-capacity stacks, sized once at construction; no allocation happens
//! after that. The backing store is `fixedvec::FixedVec`, declared here as
//! an opaque type: `spec_cmd_stack` / `spec_state_stack` name what each
//! instance holds, bottom first, and `spec_cmd_stack_capacity` /
//! `spec_state_stack_capacity` the bound it was made with. Each operation
//! the engine uses goes through one wrapper whose contract states, over
//! those names, what the crate's source shows: a push appends when the
//! length is below the bound and reports no space otherwise, a pop removes
//! and returns the last element or reports empty.

use vstd::prelude::*;

use fixedvec::FixedVec;

use crate::radio::{RadioCommands, State};

verus! {

#[verifier::external_type_specification]
#[verifier::external_body]
#[verifier::reject_recursive_types(T)]
pub struct ExFixedVec<'a, T: 'a + Copy>(FixedVec<'a, T>);

/// What a command stack holds, bottom first.
pub uninterp spec fn spec_cmd_stack(s: FixedVec<'static, RadioCommands>) -> Seq<RadioCommands>;

/// The capacity a command stack was made with.
pub uninterp spec fn spec_cmd_stack_capacity(s: FixedVec<'static, RadioCommands>) -> nat;

/// What a state stack holds, bottom first.
pub uninterp spec fn spec_state_stack(s: FixedVec<'static, State>) -> Seq<State>;

/// The capacity a state stack was made with.
pub uninterp spec fn spec_state_stack_capacity(s: FixedVec<'static, State>) -> nat;

/// Relies on fixedvec::FixedVec::new: a vector over the given memory,
/// holding nothing, with the memory's length as its capacity.
#[verifier::external_body]
pub(crate) fn new_cmd_stack(fill: RadioCommands, capacity: usize) -> (r: FixedVec<
    'static,
    RadioCommands,
>)
    ensures
        spec_cmd_stack(r) == Seq::<RadioCommands>::empty(),
        spec_cmd_stack_capacity(r) == capacity,
{
    FixedVec::new(vec![fill; capacity].leak())
}

/// Relies on fixedvec::FixedVec::push: appends the value while the length
/// is below the capacity, and otherwise reports no space and changes
/// nothing.
#[verifier::external_body]
pub(crate) fn cmd_stack_push(
    s: &mut FixedVec<'static, RadioCommands>,
    value: RadioCommands,
) -> (r: Result<(), ()>)
    ensures
        spec_cmd_stack_capacity(*final(s)) == spec_cmd_stack_capacity(*old(s)),
        r is Ok <==> spec_cmd_stack(*old(s)).len() < spec_cmd_stack_capacity(*old(s)),
        r is Ok ==> spec_cmd_stack(*final(s)) == spec_cmd_stack(*old(s)).push(value),
        r is Err ==> spec_cmd_stack(*final(s)) == spec_cmd_stack(*old(s)),
{
    match s.push(value) {
        Ok(()) => Ok(()),
        Err(_) => Err(()),
    }
}

/// Relies on fixedvec::FixedVec::pop: removes and returns the last
/// element, or returns nothing when the vector is empty.
#[verifier::external_body]
pub(crate) fn cmd_stack_pop(s: &mut FixedVec<'static, RadioCommands>) -> (r: Option<RadioCommands>)
    ensures
        spec_cmd_stack_capacity(*final(s)) == spec_cmd_stack_capacity(*old(s)),
        spec_cmd_stack(*old(s)).len() > 0 ==> r == Some(spec_cmd_stack(*old(s)).last())
            && spec_cmd_stack(*final(s)) == spec_cmd_stack(*old(s)).drop_last(),
        spec_cmd_stack(*old(s)).len() == 0 ==> r is None && spec_cmd_stack(*final(s))
            == spec_cmd_stack(*old(s)),
{
    s.pop()
}

/// Relies on fixedvec::FixedVec::len: the number of elements held.
#[verifier::external_body]
pub(crate) fn cmd_stack_len(s: &FixedVec<'static, RadioCommands>) -> (r: usize)
    ensures
        r as nat == spec_cmd_stack(*s).len(),
{
    s.len()
}

/// Relies on fixedvec::FixedVec::new: a vector over the given memory,
/// holding nothing, with the memory's length as its capacity.
#[verifier::external_body]
pub(crate) fn new_state_stack(fill: State, capacity: usize) -> (r: FixedVec<'static, State>)
    ensures
        spec_state_stack(r) == Seq::<State>::empty(),
        spec_state_stack_capacity(r) == capacity,
{
    FixedVec::new(vec![fill; capacity].leak())
}

/// Relies on fixedvec::FixedVec::push: appends the value while the length
/// is below the capacity, and otherwise reports no space and changes
/// nothing.
#[verifier::external_body]
pub(crate) fn state_stack_push(
    s: &mut FixedVec<'static, State>,
    value: State,
) -> (r: Result<(), ()>)
    ensures
        spec_state_stack_capacity(*final(s)) == spec_state_stack_capacity(*old(s)),
        r is Ok <==> spec_state_stack(*old(s)).len() < spec_state_stack_capacity(*old(s)),
        r is Ok ==> spec_state_stack(*final(s)) == spec_state_stack(*old(s)).push(value),
        r is Err ==> spec_state_stack(*final(s)) == spec_state_stack(*old(s)),
{
    match s.push(value) {
        Ok(()) => Ok(()),
        Err(_) => Err(()),
    }
}

/// Relies on fixedvec::FixedVec::pop: removes and returns the last
/// element, or returns nothing when the vector is empty.
#[verifier::external_body]
pub(crate) fn state_stack_pop(s: &mut FixedVec<'static, State>) -> (r: Option<State>)
    ensures
        spec_state_stack_capacity(*final(s)) == spec_state_stack_capacity(*old(s)),
        spec_state_stack(*old(s)).len() > 0 ==> r == Some(spec_state_stack(*old(s)).last())
            && spec_state_stack(*final(s)) == spec_state_stack(*old(s)).drop_last(),
        spec_state_stack(*old(s)).len() == 0 ==> r is None && spec_state_stack(*final(s))
            == spec_state_stack(*old(s)),
{
    s.pop()
}

/// Relies on fixedvec::FixedVec::len: the number of elements held.
#[verifier::external_body]
pub(crate) fn state_stack_len(s: &FixedVec<'static, State>) -> (r: usize)
    ensures
        r as nat == spec_state_stack(*s).len(),
{
    s.len()
}

} // verus!
