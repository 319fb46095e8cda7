//! The closed set of element types, and the typed bit-level model of a buffer.

use vstd::prelude::*;

verus! {

/// The element types a buffer can hold.
#[derive(Clone, Copy, Debug, PartialEq, Eq, Structural)]
pub enum DType {
    /// IEEE-754 single precision.
    F32,
    /// IEEE-754 double precision.
    F64,
}

impl DType {
    /// The width of one element in bytes.
    pub open spec fn size_in_bytes_spec(self) -> nat {
        match self {
            DType::F32 => 4,
            DType::F64 => 8,
        }
    }

    /// The element type's part of a kernel name.
    pub open spec fn tag(self) -> Seq<char> {
        match self {
            DType::F32 => "f32"@,
            DType::F64 => "f64"@,
        }
    }

    /// The width of one element in bytes.
    pub fn size_in_bytes(self) -> (n: usize)
        ensures
            n == self.size_in_bytes_spec(),
    {
        match self {
            DType::F32 => 4,
            DType::F64 => 8,
        }
    }
}

/// What a typed buffer holds, on the host or on the device: the element type
/// and the bit pattern of every element, in order.
pub enum Elements {
    F32(Seq<u32>),
    F64(Seq<u64>),
}

impl Elements {
    /// The element type.
    pub open spec fn dtype(self) -> DType {
        match self {
            Elements::F32(_) => DType::F32,
            Elements::F64(_) => DType::F64,
        }
    }

    /// The number of elements.
    pub open spec fn len(self) -> nat {
        match self {
            Elements::F32(bits) => bits.len(),
            Elements::F64(bits) => bits.len(),
        }
    }

    /// The bit pattern of element `i`, widened to 64 bits.
    pub open spec fn bits(self, i: int) -> u64 {
        match self {
            Elements::F32(bits) => bits[i] as u64,
            Elements::F64(bits) => bits[i],
        }
    }

    /// The buffer of `count` elements of type `dtype` whose bits are all
    /// zero, which is the value `+0.0` in both element types.
    pub open spec fn zeros(dtype: DType, count: nat) -> Elements {
        match dtype {
            DType::F32 => Elements::F32(Seq::new(count, |i: int| 0u32)),
            DType::F64 => Elements::F64(Seq::new(count, |i: int| 0u64)),
        }
    }
}

} // verus!
