//! The two conversion capabilities of the translation layer.
//!
//! `ConvertFrom` builds an owned value of this library out of a reference to
//! its native counterpart. `ConvertInto` goes the other way around the
//! coherence restriction: when the owned target shape is not one of this
//! library's own value types, the conversion is attached to the locally
//! visible native-facing type instead, converting outward.
//!
//! Each trait carries a specification-level image of the conversion, so that
//! every generic extraction routine can state exactly which value each
//! element of its output holds.

use vstd::prelude::*;

verus! {

/// Conversion from a reference to a native raw structure into an owned
/// value defined by this library.
pub trait ConvertFrom<T>: Sized {
    /// The owned value that `convert_from` produces for a given native value.
    spec fn spec_convert_from(value: T) -> Self;

    /// Converts to this type from a reference to the input type.
    fn convert_from(value: &T) -> (result: Self)
        ensures
            result == Self::spec_convert_from(*value),
    ;
}

/// Conversion of a native raw structure into a target type that this
/// library does not own; implemented on the native-facing type.
pub trait ConvertInto<T>: Sized {
    /// The target value that `convert_into` produces for this native value.
    spec fn spec_convert_into(self) -> T;

    /// Converts this native value into the target representation.
    fn convert_into(&self) -> (result: T)
        ensures
            result == self.spec_convert_into(),
    ;
}

} // verus!
