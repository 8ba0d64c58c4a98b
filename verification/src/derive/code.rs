//! What a derivation generates: one call per field, in declaration order.
//! A call is told from another only by the field that it is about.

use crate::derive::ast::views;
use crate::derive::internal::field::Field;
use crate::derive::internal::field::FieldModel;
use crate::derive::internal::field::Member;
use crate::derive::internal::field::MemberModel;
use vstd::prelude::*;

verus! {

/// The fields that the calls generated for `fields` are about: the member of
/// each field, in the order of the fields.
pub open spec fn members_of(fields: Seq<FieldModel>) -> Seq<MemberModel> {
    Seq::new(fields.len(), |i: int| fields[i].member)
}

/// Generates one call for each of `fields`, in the order of the fields, and
/// returns the members that the calls are about.
pub fn expand_members(fields: &[Field]) -> (members: Vec<Member>)
    ensures
        views(members@) == members_of(views(fields@)),
{
    let mut members: Vec<Member> = Vec::new();
    let mut index: usize = 0;
    while index < fields.len()
        invariant
            index <= fields@.len(),
            members@.len() == index,
            forall|i: int| 0 <= i < index ==> (#[trigger] members@[i])@ == fields@[i]@.member,
        decreases fields@.len() - index,
    {
        members.push(fields[index].member.clone());
        index = index + 1;
    }
    assert(views(members@) =~= members_of(views(fields@)));
    members
}

} // verus!
