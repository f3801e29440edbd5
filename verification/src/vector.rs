//! Three-dimensional vectors: their model and the operations on them.

use std::ops::Add;
use std::ops::Mul;
use std::ops::Sub;
use vstd::prelude::*;
use vstd::std_specs::ops::AddSpec;
use vstd::std_specs::ops::MulSpec;
use vstd::std_specs::ops::SubSpec;

verus! {

/// The componentwise sum of two vectors.
pub open spec fn sum<T: Add<T, Output = T>>(a: Seq<T>, b: Seq<T>) -> Seq<T> {
    seq![a[0].add_spec(b[0]), a[1].add_spec(b[1]), a[2].add_spec(b[2])]
}

/// The vector `a` with each component multiplied by `k`.
pub open spec fn scaled<T: Mul<T, Output = T>>(a: Seq<T>, k: T) -> Seq<T> {
    seq![a[0].mul_spec(k), a[1].mul_spec(k), a[2].mul_spec(k)]
}

/// The dot product, summed from the left.
pub open spec fn dot<T: Add<T, Output = T> + Mul<T, Output = T>>(a: Seq<T>, b: Seq<T>) -> T {
    a[0].mul_spec(b[0]).add_spec(a[1].mul_spec(b[1])).add_spec(a[2].mul_spec(b[2]))
}

/// The cross product `a x b`.
pub open spec fn cross<T: Mul<T, Output = T> + Sub<T, Output = T>>(a: Seq<T>, b: Seq<T>) -> Seq<
    T,
> {
    seq![
        a[1].mul_spec(b[2]).sub_spec(a[2].mul_spec(b[1])),
        a[2].mul_spec(b[0]).sub_spec(a[0].mul_spec(b[2])),
        a[0].mul_spec(b[1]).sub_spec(a[1].mul_spec(b[0])),
    ]
}

/// `vecmath::vec3_add` adds component by component, so it may be called when
/// each of the three additions may, and it returns the componentwise sum
/// where `+` on `T` obeys its spec.
pub assume_specification<T>[ vecmath::vec3_add::<T> ](
    a: vecmath::Vector3<T>,
    b: vecmath::Vector3<T>,
) -> (r: vecmath::Vector3<T>)
    where T: Copy + Add<T, Output = T>
    requires
        a[0].add_req(b[0]),
        a[1].add_req(b[1]),
        a[2].add_req(b[2]),
    ensures
        T::obeys_add_spec() ==> r@ == sum(a@, b@),
;

/// `vecmath::vec3_scale` multiplies each component of `a` by `b` on the
/// right, so it may be called when each of the three products may, and it
/// returns the scaled vector where `*` on `T` obeys its spec.
pub assume_specification<T>[ vecmath::vec3_scale::<T> ](a: vecmath::Vector3<T>, b: T) -> (r:
    vecmath::Vector3<T>)
    where T: Copy + Mul<T, Output = T>
    requires
        a[0].mul_req(b),
        a[1].mul_req(b),
        a[2].mul_req(b),
    ensures
        T::obeys_mul_spec() ==> r@ == scaled(a@, b),
;

/// `vecmath::vec3_dot` forms the three products and adds them from the left.
/// The sums are taken of values that the products return, so the call is
/// admitted only where `+` has no precondition at all.
pub assume_specification<T>[ vecmath::vec3_dot::<T> ](
    a: vecmath::Vector3<T>,
    b: vecmath::Vector3<T>,
) -> (r: T)
    where T: Copy + Add<T, Output = T> + Mul<T, Output = T>
    requires
        a[0].mul_req(b[0]),
        a[1].mul_req(b[1]),
        a[2].mul_req(b[2]),
        forall|x: T, y: T| #[trigger] x.add_req(y),
    ensures
        T::obeys_add_spec() && T::obeys_mul_spec() ==> r == dot(a@, b@),
;

/// `vecmath::vec3_cross` forms six products and three differences of them.
/// The differences are taken of values that the products return, so the call
/// is admitted only where `-` has no precondition at all.
pub assume_specification<T>[ vecmath::vec3_cross::<T> ](
    a: vecmath::Vector3<T>,
    b: vecmath::Vector3<T>,
) -> (r: vecmath::Vector3<T>)
    where T: Copy + Mul<T, Output = T> + Sub<T, Output = T>
    requires
        a[1].mul_req(b[2]),
        a[2].mul_req(b[1]),
        a[2].mul_req(b[0]),
        a[0].mul_req(b[2]),
        a[0].mul_req(b[1]),
        a[1].mul_req(b[0]),
        forall|x: T, y: T| #[trigger] x.sub_req(y),
    ensures
        T::obeys_mul_spec() && T::obeys_sub_spec() ==> r@ == cross(a@, b@),
;

} // verus!
