//! Starting the nested resolutions that a type resolution asks for.
use vstd::prelude::*;
use crate::typeinfo::{cycle_placeholder, described, in_progress, TypeinfoFuture, TypeinfoStep};
use crate::typeinfo_composite::{TypeinfoComposite, TypeinfoCompositeFuture};
use crate::typeinfo_enum::{TypeinfoEnum, TypeinfoEnumFuture};
use crate::types::{Kind, Type};
use crate::Oid;

verus! {

/// A nested resolution, started for a step of a type resolution.
pub enum Nested {
    /// Resolve a type; its outcome goes to `type_resolved`.
    Type(TypeinfoFuture),
    /// Fetch enum labels; they go to `enum_resolved`.
    Enum(TypeinfoEnumFuture),
    /// Fetch composite fields; they go to `composite_resolved`.
    Composite(TypeinfoCompositeFuture),
    /// The OID is already being resolved further up: this descriptor stands
    /// for it and goes to `type_resolved` at once.
    Cycle(Type),
}

/// What is started for `step` while the OIDs `resolving` are being resolved.
pub open spec fn nested_for(step: TypeinfoStep, resolving: Seq<Oid>, r: Nested) -> bool {
    match step {
        TypeinfoStep::Resolve(o) => if resolving.contains(o) {
            r matches Nested::Cycle(t) && described(t, o, Seq::empty(), Seq::empty(), Kind::Simple)
        } else {
            r matches Nested::Type(f) && f.state == (crate::typeinfo::Typeinfo::Start { oid: o })
        },
        TypeinfoStep::ResolveEnum(o) => r matches Nested::Enum(f) && f.state == (TypeinfoEnum::Start {
            oid: o,
        }),
        TypeinfoStep::ResolveComposite(o) => r matches Nested::Composite(f) && f.state == (
        TypeinfoComposite::Start { relid: o }),
        _ => false,
    }
}

/// Starts the nested resolution that `step` asks for. An OID met again while
/// it is being resolved, which only a malformed catalog produces, is not
/// resolved again: it stands as a simple type, so that resolution ends.
pub fn start_nested(step: &TypeinfoStep, resolving: &[Oid]) -> (r: Nested)
    requires
        step is Resolve || step is ResolveEnum || step is ResolveComposite,
    ensures
        nested_for(*step, resolving@, r),
{
    match step {
        TypeinfoStep::Resolve(o) => {
            if in_progress(resolving, *o) {
                Nested::Cycle(cycle_placeholder(*o))
            } else {
                Nested::Type(TypeinfoFuture::new(*o))
            }
        },
        TypeinfoStep::ResolveEnum(o) => Nested::Enum(TypeinfoEnumFuture::new(*o)),
        TypeinfoStep::ResolveComposite(o) => Nested::Composite(TypeinfoCompositeFuture::new(*o)),
        _ => Nested::Cycle(cycle_placeholder(0)),
    }
}

} // verus!
