//! Small helpers for building request paths.

use vstd::prelude::*;

verus! {

/// The view of a list of path segments: each segment as its character
/// sequence.
pub open spec fn segments_view(p: Seq<String>) -> Seq<Seq<char>> {
    p.map_values(|s: String| s@)
}

/// The canonical textual form of the 128-bit identifier `n`: the
/// hyphenated, lower-case hexadecimal rendering that the `uuid` crate
/// produces. The rendering is a function of the bits alone.
pub uninterp spec fn uuid_text(n: u128) -> Seq<char>;

/// Relies on `uuid::Uuid`'s `Display` implementation: the hyphenated,
/// lower-case hexadecimal form of the identifier, 36 characters long,
/// determined by the 128 bits alone.
#[verifier::external_body]
pub(crate) fn uuid_segment(n: u128) -> (r: String)
    ensures
        r@ == uuid_text(n),
        r@.len() == 36,
{
    uuid::Uuid::from_u128(n).to_string()
}

/// Extends a list of path segments by one final segment.
pub trait StrIteratorExt: Sized {
    /// The segments held before the extension.
    spec fn seg_view(&self) -> Seq<Seq<char>>;

    /// Returns the segments with `s` appended at the end.
    fn chain_one(self, s: String) -> (r: Vec<String>)
        ensures
            segments_view(r@) == self.seg_view() + seq![s@],
    ;
}

impl StrIteratorExt for Vec<String> {
    open spec fn seg_view(&self) -> Seq<Seq<char>> {
        segments_view(self@)
    }

    fn chain_one(self, s: String) -> (r: Vec<String>)
        ensures
            segments_view(r@) == self.seg_view() + seq![s@],
    {
        let mut r = self;
        let ghost before = r@;
        r.push(s);
        proof {
            assert(segments_view(r@) =~= segments_view(before) + seq![s@]);
        }
        r
    }
}

} // verus!
