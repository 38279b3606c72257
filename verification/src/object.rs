use vstd::prelude::*;

verus! {

/// The closed set of primitive kinds a scene may contain.
#[derive(Clone, Copy)]
pub enum ObjectType {
    Sphere,
    Plane,
}

} // verus!
