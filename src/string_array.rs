//! An ordered list of strings, such as the guest's arguments or environment,
//! whose count and whose total size with a terminating NUL after each string
//! both fit in 32 bits.
use vstd::prelude::*;

use vstd::utf8::encode_utf8;

verus! {

/// Why a string could not be added.
#[derive(Clone, Copy, Debug, PartialEq, Eq, Structural)]
pub enum StringArrayError {
    /// One more string would be more than 32 bits can count.
    NumberElements,
    /// The string with its NUL is longer than 32 bits can count.
    ElementSize,
    /// The total size with the string would be more than 32 bits can count.
    CumulativeSize,
}

/// The number of bytes of `s` in UTF-8.
pub open spec fn byte_len(s: Seq<char>) -> nat {
    encode_utf8(s).len()
}

/// The bytes taken by `v`, each string followed by a NUL.
pub open spec fn cumulative(v: Seq<Seq<char>>) -> nat
    decreases v.len(),
{
    if v.len() == 0 {
        0
    } else {
        cumulative(v.drop_last()) + byte_len(v.last()) + 1
    }
}

/// What `push` does with `elem` on an array holding `v`.
pub open spec fn push_outcome(v: Seq<Seq<char>>, elem: Seq<char>) -> Result<(), StringArrayError> {
    if v.len() + 1 > u32::MAX {
        Err(StringArrayError::NumberElements)
    } else if byte_len(elem) + 1 > u32::MAX {
        Err(StringArrayError::ElementSize)
    } else if cumulative(v) + byte_len(elem) + 1 > u32::MAX {
        Err(StringArrayError::CumulativeSize)
    } else {
        Ok(())
    }
}

pub struct StringArray {
    elems: Vec<String>,
    size: u32,
}

impl View for StringArray {
    type V = Seq<Seq<char>>;

    closed spec fn view(&self) -> Seq<Seq<char>> {
        self.elems@.map_values(|s: String| s@)
    }
}

impl StringArray {
    pub closed spec fn wf(&self) -> bool {
        &&& self.size as nat == cumulative(self@)
        &&& self.elems@.len() <= u32::MAX
    }

    pub fn new() -> (r: StringArray)
        ensures
            r.wf(),
            r@ == Seq::<Seq<char>>::empty(),
    {
        let r = StringArray { elems: Vec::new(), size: 0 };
        assert(r@ =~= Seq::<Seq<char>>::empty());
        r
    }

    /// Appends `elem` unless the count or a size would leave 32 bits.
    pub fn push(&mut self, elem: String) -> (r: Result<(), StringArrayError>)
        requires
            old(self).wf(),
        ensures
            final(self).wf(),
            r == push_outcome(old(self)@, elem@),
            r is Ok ==> final(self)@ == old(self)@.push(elem@),
            r is Err ==> final(self)@ == old(self)@,
    {
        let text = elem.as_str();
        let elem_len = text.as_bytes().len();
        assert(elem_len == byte_len(elem@));
        if self.elems.len() as u64 + 1 > u32::MAX as u64 {
            return Err(StringArrayError::NumberElements);
        }
        if elem_len as u64 >= u32::MAX as u64 {
            return Err(StringArrayError::ElementSize);
        }
        if self.size as u64 + elem_len as u64 + 1 > u32::MAX as u64 {
            return Err(StringArrayError::CumulativeSize);
        }
        let ghost before = self@;
        self.elems.push(elem);
        self.size = self.size + elem_len as u32 + 1;
        proof {
            assert(self@ =~= before.push(elem@));
            assert(self@.drop_last() =~= before);
        }
        Ok(())
    }

    pub fn number_elements(&self) -> (r: u32)
        requires
            self.wf(),
        ensures
            r == self@.len(),
    {
        self.elems.len() as u32
    }

    /// The bytes the strings take with a NUL after each.
    pub fn cumulative_size(&self) -> (r: u32)
        requires
            self.wf(),
        ensures
            r == cumulative(self@),
    {
        self.size
    }

    pub fn elements(&self) -> (r: &Vec<String>)
        ensures
            r@.map_values(|s: String| s@) == self@,
    {
        &self.elems
    }
}

} // verus!
