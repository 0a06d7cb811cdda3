//! Laws that hold of every pair of primitive integer types.
use crate::as_prim::AsPrim;
use crate::model::{cast_value, in_range, lemma_cast_value_in_range};
use vstd::prelude::*;

verus! {

/// Converting a value to its own type gives the value back: its integer value
/// is kept, and so the value is the same.
pub proof fn lemma_identity<S: AsPrim>(v: S)
    ensures
        cast_value(v.value(), S::modulus(), S::is_signed()) == v.value(),
        forall|w: S|
            #[trigger] w.value() == cast_value(v.value(), S::modulus(), S::is_signed()) ==> w
                == v,
{
    S::lemma_modulus();
    v.lemma_value();
    lemma_cast_value_in_range(v.value(), S::modulus(), S::is_signed());
    assert forall|w: S|
        #[trigger] w.value() == cast_value(v.value(), S::modulus(), S::is_signed()) implies w
        == v by {
        w.lemma_value_injective(v);
    }
}

/// Round trip: a value `v` of `S` that `T` can also hold, converted to `T`
/// and back to `S`, is `v` again.
pub proof fn lemma_round_trip<S: AsPrim, T: AsPrim>(v: S)
    requires
        in_range(v.value(), T::modulus(), T::is_signed()),
    ensures
        cast_value(v.value(), T::modulus(), T::is_signed()) == v.value(),
        cast_value(
            cast_value(v.value(), T::modulus(), T::is_signed()),
            S::modulus(),
            S::is_signed(),
        ) == v.value(),
        forall|w: S|
            #[trigger] w.value() == cast_value(
                cast_value(v.value(), T::modulus(), T::is_signed()),
                S::modulus(),
                S::is_signed(),
            ) ==> w == v,
{
    T::lemma_modulus();
    lemma_cast_value_in_range(v.value(), T::modulus(), T::is_signed());
    lemma_identity(v);
}

} // verus!
