//! The two words of a reference to a trait object.
use vstd::prelude::*;

verus! {

/// A reference to a trait object, taken apart: the address of the instance
/// and the metadata word that says how calls on it are dispatched.
///
/// The address is never null. Neither word is ever read as anything but a
/// number here, and the value owns nothing: it is the caller's business that
/// the instance outlives whatever is made of the two words again.
#[derive(Clone, Copy, Debug, PartialEq, Eq, Structural)]
pub struct RawParts {
    data: usize,
    metadata: usize,
}

impl RawParts {
    #[verifier::type_invariant]
    spec fn data_is_not_null(self) -> bool {
        self.data != 0
    }

    /// The address of the instance.
    pub closed spec fn spec_data(&self) -> usize {
        self.data
    }

    /// The dispatch metadata.
    pub closed spec fn spec_metadata(&self) -> usize {
        self.metadata
    }

    /// Puts the two words together. There are no parts with a null address.
    pub fn new(data: usize, metadata: usize) -> (parts: Option<RawParts>)
        ensures
            parts is None <==> data == 0,
            parts matches Some(p) ==> p.data() == data && p.metadata() == metadata,
    {
        if data == 0 {
            None
        } else {
            Some(RawParts { data, metadata })
        }
    }

    /// The address of the instance.
    #[verifier::when_used_as_spec(spec_data)]
    pub fn data(&self) -> (data: usize)
        ensures
            data == self.data(),
            data != 0,
    {
        proof {
            use_type_invariant(self);
        }
        self.data
    }

    /// The dispatch metadata.
    #[verifier::when_used_as_spec(spec_metadata)]
    pub fn metadata(&self) -> (metadata: usize)
        ensures
            metadata == self.metadata(),
    {
        self.metadata
    }

    /// Whether a reference to a `Dyn` is made of exactly two words, laid out
    /// as two `usize` are.
    pub open spec fn spec_fits<Dyn: ?Sized + 'static>() -> bool {
        &&& vstd::layout::size_of::<&'static Dyn>() == 2 * vstd::layout::size_of::<usize>()
        &&& vstd::layout::align_of::<&'static Dyn>() == vstd::layout::align_of::<usize>()
    }

    /// Says whether a reference to a `Dyn` is made of exactly two words, laid
    /// out as two `usize` are.
    #[verifier::when_used_as_spec(spec_fits)]
    pub fn fits<Dyn: ?Sized + 'static>() -> (fits: bool)
        ensures
            fits == RawParts::fits::<Dyn>(),
    {
        broadcast use vstd::layout::layout_of_primitives;

        let word: usize = core::mem::size_of::<usize>();
        core::mem::size_of::<&'static Dyn>() == 2 * word && core::mem::align_of::<&'static Dyn>()
            == core::mem::align_of::<usize>()
    }

    /// Parts are told apart by their two words alone.
    pub proof fn lemma_same_words_same_parts(self, other: RawParts)
        requires
            self.data() == other.data(),
            self.metadata() == other.metadata(),
        ensures
            self == other,
    {
    }
}

} // verus!
