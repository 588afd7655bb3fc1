//! Generic extraction routines: the one place where the layer's ownership
//! rule is established.
//!
//! The native importer describes every array as a base pointer plus a
//! length, and per-vertex channel attributes as a fixed block of eight such
//! pointers sharing one length. The unsafe boundary of the surrounding
//! application reduces each of those descriptors to an `Option` of an
//! already-bounded borrow: `None` for a null base pointer, `Some` of a
//! borrowed slice otherwise. Everything after that reduction happens here,
//! and is verified: a degenerate descriptor (null pointer or zero length)
//! uniformly yields an empty owned result — never an error and never a read
//! — and a well-formed one yields an owned sequence whose every element is
//! pinned to the conversion image of the corresponding native element.

use vstd::prelude::*;
use vstd::slice::slice_index_get;
use vstd::slice::slice_to_vec;
use vstd::string::StringExecFns;

use crate::convert::ConvertFrom;
use crate::convert::ConvertInto;

verus! {

broadcast use vstd::array::group_array_axioms;

/// True when `out` is the element-wise `ConvertFrom` image of `raw`.
pub open spec fn converted_seq<TRaw, TComponent: ConvertFrom<TRaw>>(
    raw: Seq<TRaw>,
    out: Seq<TComponent>,
) -> bool {
    &&& out.len() == raw.len()
    &&& forall|i: int|
        0 <= i < raw.len() ==> #[trigger] out[i] == TComponent::spec_convert_from(raw[i])
}

/// True when `out` is the element-wise `ConvertInto` image of `raw`.
pub open spec fn converted_into_seq<TRaw: ConvertInto<T>, T>(
    raw: Seq<TRaw>,
    out: Seq<T>,
) -> bool {
    &&& out.len() == raw.len()
    &&& forall|i: int| 0 <= i < raw.len() ==> #[trigger] out[i] == raw[i].spec_convert_into()
}

/// True when `out` is the element-wise `ConvertFrom` image of the pointees
/// of `raw`.
pub open spec fn converted_ref_seq<TRaw, TComponent: ConvertFrom<TRaw>>(
    raw: Seq<&TRaw>,
    out: Seq<TComponent>,
) -> bool {
    &&& out.len() == raw.len()
    &&& forall|i: int|
        0 <= i < raw.len() ==> #[trigger] out[i] == TComponent::spec_convert_from(*raw[i])
}

/// How many of a sequence of channel slots are present.
pub open spec fn present_count<A>(s: Seq<Option<A>>) -> int
    decreases s.len(),
{
    if s.len() == 0 {
        0
    } else {
        present_count(s.drop_last()) + if s.last() is Some {
            1int
        } else {
            0int
        }
    }
}

/// Channel extraction keeps one output slot per input slot: two option
/// sequences that are present at exactly the same positions hold the same
/// number of present entries. Applied to a channel block and its extraction
/// result, this says that the number of populated output channels equals
/// the number of non-null native slots.
pub proof fn lemma_present_count_matches<A, B>(a: Seq<Option<A>>, b: Seq<Option<B>>)
    requires
        a.len() == b.len(),
        forall|i: int| 0 <= i < a.len() ==> (a[i] is Some <==> b[i] is Some),
    ensures
        present_count(a) == present_count(b),
    decreases a.len(),
{
    if a.len() > 0 {
        assert(a.last() is Some <==> b.last() is Some);
        lemma_present_count_matches(a.drop_last(), b.drop_last());
    }
}

/// One channel slot and its extraction result: a null slot yields `None`,
/// a present slot yields the element-wise conversion of its contents.
pub open spec fn channel_slot_converted<TRaw, TComponent: ConvertFrom<TRaw>>(
    slot: Option<&[TRaw]>,
    out: Option<Vec<TComponent>>,
) -> bool {
    match (slot, out) {
        (None, None) => true,
        (Some(slice), Some(components)) => converted_seq(slice@, components@),
        _ => false,
    }
}

/// Like `channel_slot_converted`, through the `ConvertInto` indirection.
pub open spec fn channel_slot_converted_into<TRaw: ConvertInto<T>, T>(
    slot: Option<&[TRaw]>,
    out: Option<Vec<T>>,
) -> bool {
    match (slot, out) {
        (None, None) => true,
        (Some(slice), Some(components)) => converted_into_seq(slice@, components@),
        _ => false,
    }
}

/// The shared-length law of channel extraction: the native format declares
/// one length for all eight slots, so when every present slot holds that
/// many elements, every populated output channel holds that many owned
/// components.
pub proof fn lemma_channel_shared_length<TRaw, TComponent: ConvertFrom<TRaw>>(
    slots: Seq<Option<&[TRaw]>>,
    channels: Seq<Option<Vec<TComponent>>>,
    shared_len: int,
)
    requires
        slots.len() == channels.len(),
        forall|i: int| 0 <= i < slots.len() ==> channel_slot_converted(slots[i], #[trigger] channels[i]),
        forall|i: int|
            0 <= i < slots.len() ==> (#[trigger] slots[i] matches Some(slice) ==> slice@.len()
                == shared_len),
    ensures
        forall|i: int|
            0 <= i < channels.len() ==> (#[trigger] channels[i] matches Some(components)
                ==> components@.len() == shared_len),
{
    assert forall|i: int|
        0 <= i < channels.len() implies (#[trigger] channels[i] matches Some(components)
        ==> components@.len() == shared_len) by {
        assert(channel_slot_converted(slots[i], channels[i]));
        assert(slots[i] matches Some(slice) ==> slice@.len() == shared_len);
    }
}

/// The shared-length law for channel extraction through the `ConvertInto`
/// indirection; the slot policy is the same as for
/// `lemma_channel_shared_length`.
pub proof fn lemma_channel_shared_length_into<TRaw: ConvertInto<T>, T>(
    slots: Seq<Option<&[TRaw]>>,
    channels: Seq<Option<Vec<T>>>,
    shared_len: int,
)
    requires
        slots.len() == channels.len(),
        forall|i: int|
            0 <= i < slots.len() ==> channel_slot_converted_into(slots[i], #[trigger] channels[i]),
        forall|i: int|
            0 <= i < slots.len() ==> (#[trigger] slots[i] matches Some(slice) ==> slice@.len()
                == shared_len),
    ensures
        forall|i: int|
            0 <= i < channels.len() ==> (#[trigger] channels[i] matches Some(components)
                ==> components@.len() == shared_len),
{
    assert forall|i: int|
        0 <= i < channels.len() implies (#[trigger] channels[i] matches Some(components)
        ==> components@.len() == shared_len) by {
        assert(channel_slot_converted_into(slots[i], channels[i]));
        assert(slots[i] matches Some(slice) ==> slice@.len() == shared_len);
    }
}

/// Direct-array extraction: each native element becomes an owned component
/// through `ConvertFrom`; a null or empty descriptor becomes an empty
/// sequence.
pub fn get_vec<TRaw, TComponent: ConvertFrom<TRaw>>(raw: Option<&[TRaw]>) -> (result: Vec<
    TComponent,
>)
    ensures
        raw is None ==> result@.len() == 0,
        raw matches Some(slice) ==> converted_seq(slice@, result@),
        raw matches Some(slice) && slice@.len() == 0 ==> result@.len() == 0,
{
    match raw {
        None => Vec::new(),
        Some(slice) => {
            let n: usize = slice.len();
            let mut out: Vec<TComponent> = Vec::new();
            let mut i: usize = 0;
            while i < n
                invariant
                    n == slice@.len(),
                    i <= n,
                    out@.len() == i,
                    forall|k: int|
                        0 <= k < i ==> #[trigger] out@[k] == TComponent::spec_convert_from(
                            slice@[k],
                        ),
                decreases n - i,
            {
                out.push(TComponent::convert_from(slice_index_get(slice, i)));
                i = i + 1;
            }
            out
        }
    }
}

/// Foreign-array extraction: like `get_vec`, but the owned element type is
/// reached through the `ConvertInto` indirection attached to the native
/// type.
pub fn get_vec_2<TRaw: ConvertInto<T>, T>(raw: Option<&[TRaw]>) -> (result: Vec<T>)
    ensures
        raw is None ==> result@.len() == 0,
        raw matches Some(slice) ==> converted_into_seq(slice@, result@),
        raw matches Some(slice) && slice@.len() == 0 ==> result@.len() == 0,
{
    match raw {
        None => Vec::new(),
        Some(slice) => {
            let n: usize = slice.len();
            let mut out: Vec<T> = Vec::new();
            let mut i: usize = 0;
            while i < n
                invariant
                    n == slice@.len(),
                    i <= n,
                    out@.len() == i,
                    forall|k: int|
                        0 <= k < i ==> #[trigger] out@[k] == slice@[k].spec_convert_into(),
                decreases n - i,
            {
                out.push(slice_index_get(slice, i).convert_into());
                i = i + 1;
            }
            out
        }
    }
}

/// Raw pass-through cloning: the native representation is retained as-is;
/// a null or empty descriptor becomes an empty sequence.
pub fn get_raw_vec<TRaw: Copy>(raw: Option<&[TRaw]>) -> (result: Vec<TRaw>)
    ensures
        raw is None ==> result@.len() == 0,
        raw matches Some(slice) ==> result@ == slice@,
        raw matches Some(slice) && slice@.len() == 0 ==> result@.len() == 0,
{
    match raw {
        None => Vec::new(),
        Some(slice) => slice_to_vec(slice),
    }
}

/// Single-element extraction: an absent native reference yields `None`, a
/// present one yields its owned conversion.
pub fn get_raw<TRaw, TComponent: ConvertFrom<TRaw>>(raw: Option<&TRaw>) -> (result: Option<
    TComponent,
>)
    ensures
        raw is None ==> result is None,
        raw matches Some(value) ==> result matches Some(component) && component
            == TComponent::spec_convert_from(*value),
{
    match raw {
        None => None,
        Some(value) => Some(TComponent::convert_from(value)),
    }
}

/// Pointer-array extraction: each element of the descriptor is itself a
/// reference to a native struct, and each pointee becomes an owned
/// component in the original order; a null descriptor becomes an empty
/// sequence.
pub fn get_vec_from_raw<'a, TRaw, TComponent: ConvertFrom<TRaw>>(
    raw_source: Option<&[&'a TRaw]>,
) -> (result: Vec<TComponent>)
    ensures
        raw_source is None ==> result@.len() == 0,
        raw_source matches Some(slice) ==> converted_ref_seq(slice@, result@),
        raw_source matches Some(slice) && slice@.len() == 0 ==> result@.len() == 0,
{
    match raw_source {
        None => Vec::new(),
        Some(slice) => {
            let n: usize = slice.len();
            let mut out: Vec<TComponent> = Vec::new();
            let mut i: usize = 0;
            while i < n
                invariant
                    n == slice@.len(),
                    i <= n,
                    out@.len() == i,
                    forall|k: int|
                        0 <= k < i ==> #[trigger] out@[k] == TComponent::spec_convert_from(
                            *slice@[k],
                        ),
                decreases n - i,
            {
                out.push(TComponent::convert_from(*slice_index_get(slice, i)));
                i = i + 1;
            }
            out
        }
    }
}

/// Reference-array extraction: collects the borrowed pointees themselves,
/// without conversion; a null descriptor becomes an empty sequence.
pub fn get_base_type_vec_from_raw<'a, TRaw>(data: Option<&[&'a TRaw]>) -> (result: Vec<&'a TRaw>)
    ensures
        data is None ==> result@.len() == 0,
        data matches Some(slice) ==> result@ == slice@,
        data matches Some(slice) && slice@.len() == 0 ==> result@.len() == 0,
{
    match data {
        None => Vec::new(),
        Some(slice) => slice_to_vec(slice),
    }
}

/// Channel-array extraction: the native format hard-codes eight parallel
/// slots that share one declared length. Every slot maps to exactly one
/// output entry — `None` for a null slot, the element-wise conversion of
/// its contents for a present one — so the output always has eight entries
/// and as many populated ones as there are non-null slots.
pub fn get_vec_of_vecs_from_raw<TRaw, TComponent: ConvertFrom<TRaw>>(
    raw: [Option<&[TRaw]>; 8],
) -> (result: Vec<Option<Vec<TComponent>>>)
    ensures
        result@.len() == 8,
        forall|i: int| 0 <= i < 8 ==> channel_slot_converted(raw@[i], #[trigger] result@[i]),
        present_count(result@) == present_count(raw@),
{
    let slots: &[Option<&[TRaw]>] = raw.as_slice();
    let mut result: Vec<Option<Vec<TComponent>>> = Vec::new();
    let mut i: usize = 0;
    while i < 8
        invariant
            slots@ == raw@,
            slots@.len() == 8,
            i <= 8,
            result@.len() == i,
            forall|k: int| 0 <= k < i ==> channel_slot_converted(raw@[k], #[trigger] result@[k]),
        decreases 8 - i,
    {
        match *slice_index_get(slots, i) {
            None => result.push(None),
            Some(slice) => result.push(Some(get_vec(Some(slice)))),
        }
        i = i + 1;
    }
    proof {
        assert forall|i: int| 0 <= i < 8 implies (raw@[i] is Some <==> result@[i] is Some) by {
            assert(channel_slot_converted(raw@[i], result@[i]));
        }
        lemma_present_count_matches(raw@, result@);
    }
    result
}

/// Channel-array extraction through the `ConvertInto` indirection; the
/// slot policy is the same as for `get_vec_of_vecs_from_raw`.
pub fn get_vec_of_vecs_from_raw_2<TRaw: ConvertInto<T>, T>(
    raw: [Option<&[TRaw]>; 8],
) -> (result: Vec<Option<Vec<T>>>)
    ensures
        result@.len() == 8,
        forall|i: int| 0 <= i < 8 ==> channel_slot_converted_into(raw@[i], #[trigger] result@[i]),
        present_count(result@) == present_count(raw@),
{
    let slots: &[Option<&[TRaw]>] = raw.as_slice();
    let mut result: Vec<Option<Vec<T>>> = Vec::new();
    let mut i: usize = 0;
    while i < 8
        invariant
            slots@ == raw@,
            slots@.len() == 8,
            i <= 8,
            result@.len() == i,
            forall|k: int|
                0 <= k < i ==> channel_slot_converted_into(raw@[k], #[trigger] result@[k]),
        decreases 8 - i,
    {
        match *slice_index_get(slots, i) {
            None => result.push(None),
            Some(slice) => result.push(Some(get_vec_2(Some(slice)))),
        }
        i = i + 1;
    }
    proof {
        assert forall|i: int| 0 <= i < 8 implies (raw@[i] is Some <==> result@[i] is Some) by {
            assert(channel_slot_converted_into(raw@[i], result@[i]));
        }
        lemma_present_count_matches(raw@, result@);
    }
    result
}

/// Resolves a model path against an optional workspace root: with a root
/// the two are joined with a single separator, without one the relative
/// path is returned unchanged. The root is an explicit parameter; this
/// layer reads no ambient process state.
pub fn get_model(workspace_root: Option<&str>, relative_path_from_root: &str) -> (result: String)
    ensures
        workspace_root matches Some(root) ==> result@ == root@ + "/"@
            + relative_path_from_root@,
        workspace_root is None ==> result@ == relative_path_from_root@,
{
    match workspace_root {
        None => String::from_str(relative_path_from_root),
        Some(root) => {
            let mut joined = String::from_str(root);
            joined.append("/");
            joined.append(relative_path_from_root);
            joined
        }
    }
}

} // verus!
