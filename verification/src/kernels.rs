//! The elementwise kernels: their names and their CUDA source text.
//!
//! Each operation has one source text with one entry point per element
//! type. An entry point is named after the operation and the element type,
//! and the same name is the key under which the compiled module is kept.

use crate::driver::nul_free;
use crate::dtype::DType;
use vstd::prelude::*;

verus! {

/// Source of the fill kernels: every thread walks the buffer in steps of the
/// grid size, so a grid with fewer threads than elements still reaches them
/// all.
pub const FILL_CU: &'static str = "
template<typename T>
__device__ void fill_with(T *buf, T value, const size_t numel) {
    for (unsigned int i = blockIdx.x * blockDim.x + threadIdx.x;
         i < numel;
         i += blockDim.x * gridDim.x) {
        buf[i] = value;
    }
}

extern \"C\" __global__ void fill_f32(
    float *buf,
    float value,
    const size_t numel
) {
    fill_with(buf, value, numel);
}

extern \"C\" __global__ void fill_f64(
    double *buf,
    double value,
    const size_t numel
) {
    fill_with(buf, value, numel);
}
";

/// Source of the affine kernels: thread `i` writes `y[i] = x[i] * mul + add`
/// and nothing else, so the grid must have a thread for every element.
pub const AFFINE_CU: &'static str = "
extern \"C\" __global__ void affine_f32(
    const size_t numel,
    const float *x,
    float *y,
    const float mul,
    const float add
) {
    unsigned int i = blockIdx.x * blockDim.x + threadIdx.x;
    if (i >= numel) {
        return;
    }
    y[i] = x[i] * mul + add;
}

extern \"C\" __global__ void affine_f64(
    const size_t numel,
    const double *x,
    double *y,
    const double mul,
    const double add
) {
    unsigned int i = blockIdx.x * blockDim.x + threadIdx.x;
    if (i >= numel) {
        return;
    }
    y[i] = x[i] * mul + add;
}
";

/// The operations that run as kernels.
#[derive(Clone, Copy, Debug, PartialEq, Eq, Structural)]
pub enum KernelOp {
    /// Write one value to every element.
    Fill,
    /// Map every element `x` to `x * mul + add`.
    Affine,
}

impl KernelOp {
    /// The operation's part of a kernel name.
    pub open spec fn tag(self) -> Seq<char> {
        match self {
            KernelOp::Fill => "fill"@,
            KernelOp::Affine => "affine"@,
        }
    }

    /// The name of the entry point for `dtype`: the operation, an
    /// underscore, the element type.
    pub open spec fn name_spec(self, dtype: DType) -> Seq<char> {
        self.tag() + "_"@ + dtype.tag()
    }

    /// The source text that holds the operation's entry points.
    pub open spec fn source_spec(self) -> Seq<char> {
        match self {
            KernelOp::Fill => FILL_CU@,
            KernelOp::Affine => AFFINE_CU@,
        }
    }

    /// The name of the entry point for `dtype`, which is also the key of the
    /// compiled module.
    pub fn name(self, dtype: DType) -> (s: &'static str)
        ensures
            s@ == self.name_spec(dtype),
    {
        proof {
            reveal_tags();
            reveal_strlit("fill_f32");
            reveal_strlit("fill_f64");
            reveal_strlit("affine_f32");
            reveal_strlit("affine_f64");
        }
        let s = match (self, dtype) {
            (KernelOp::Fill, DType::F32) => "fill_f32",
            (KernelOp::Fill, DType::F64) => "fill_f64",
            (KernelOp::Affine, DType::F32) => "affine_f32",
            (KernelOp::Affine, DType::F64) => "affine_f64",
        };
        assert(s@ =~= self.name_spec(dtype));
        s
    }

    /// The source text that holds the operation's entry points.
    pub fn source(self) -> (s: &'static str)
        ensures
            s@ == self.source_spec(),
    {
        match self {
            KernelOp::Fill => FILL_CU,
            KernelOp::Affine => AFFINE_CU,
        }
    }
}

/// Spells out the pieces that kernel names are made of.
proof fn reveal_tags()
    ensures
        "fill"@ == seq!['f', 'i', 'l', 'l'],
        "affine"@ == seq!['a', 'f', 'f', 'i', 'n', 'e'],
        "_"@ == seq!['_'],
        "f32"@ == seq!['f', '3', '2'],
        "f64"@ == seq!['f', '6', '4'],
{
    reveal_strlit("fill");
    reveal_strlit("affine");
    reveal_strlit("_");
    reveal_strlit("f32");
    reveal_strlit("f64");
    assert("fill"@ =~= seq!['f', 'i', 'l', 'l']);
    assert("affine"@ =~= seq!['a', 'f', 'f', 'i', 'n', 'e']);
    assert("_"@ =~= seq!['_']);
    assert("f32"@ =~= seq!['f', '3', '2']);
    assert("f64"@ =~= seq!['f', '6', '4']);
}

/// Two kernels share a name only if they are the same operation on the same
/// element type: no two cache keys collide.
pub proof fn lemma_names_distinct(op1: KernelOp, dtype1: DType, op2: KernelOp, dtype2: DType)
    requires
        op1.name_spec(dtype1) == op2.name_spec(dtype2),
    ensures
        op1 == op2,
        dtype1 == dtype2,
{
    reveal_tags();
    let a = op1.name_spec(dtype1);
    let b = op2.name_spec(dtype2);
    assert(a.len() == b.len());
    assert(a[a.len() - 2] == b[b.len() - 2]);
}

/// Kernel names can cross into C as strings.
pub proof fn lemma_name_nul_free(op: KernelOp, dtype: DType)
    ensures
        nul_free(op.name_spec(dtype)),
{
    reveal_tags();
}

/// `name` occurs in `text` at offset `at`.
pub open spec fn occurs_at(text: Seq<char>, name: Seq<char>, at: int) -> bool {
    0 <= at && at + name.len() <= text.len() && text.subrange(at, at + name.len()) == name
}

/// Where the entry point for `dtype` is named in the operation's source.
pub open spec fn entry_point_offset(op: KernelOp, dtype: DType) -> int {
    match (op, dtype) {
        (KernelOp::Fill, DType::F32) => 272,
        (KernelOp::Fill, DType::F64) => 406,
        (KernelOp::Affine, DType::F32) => 28,
        (KernelOp::Affine, DType::F64) => 306,
    }
}

/// The source texts can cross into C as strings, and each names the entry
/// point of every element type: a kernel looked up under its name after its
/// source was compiled is not missing for want of a spelling.
pub proof fn lemma_source_names_entry_point(op: KernelOp, dtype: DType)
    ensures
        nul_free(op.source_spec()),
        occurs_at(op.source_spec(), op.name_spec(dtype), entry_point_offset(op, dtype)),
{
    reveal_tags();
    match op {
        KernelOp::Fill => {
            reveal_strlit(
                "
template<typename T>
__device__ void fill_with(T *buf, T value, const size_t numel) {
    for (unsigned int i = blockIdx.x * blockDim.x + threadIdx.x;
         i < numel;
         i += blockDim.x * gridDim.x) {
        buf[i] = value;
    }
}

extern \"C\" __global__ void fill_f32(
    float *buf,
    float value,
    const size_t numel
) {
    fill_with(buf, value, numel);
}

extern \"C\" __global__ void fill_f64(
    double *buf,
    double value,
    const size_t numel
) {
    fill_with(buf, value, numel);
}
",
            );
        },
        KernelOp::Affine => {
            reveal_strlit(
                "
extern \"C\" __global__ void affine_f32(
    const size_t numel,
    const float *x,
    float *y,
    const float mul,
    const float add
) {
    unsigned int i = blockIdx.x * blockDim.x + threadIdx.x;
    if (i >= numel) {
        return;
    }
    y[i] = x[i] * mul + add;
}

extern \"C\" __global__ void affine_f64(
    const size_t numel,
    const double *x,
    double *y,
    const double mul,
    const double add
) {
    unsigned int i = blockIdx.x * blockDim.x + threadIdx.x;
    if (i >= numel) {
        return;
    }
    y[i] = x[i] * mul + add;
}
",
            );
        },
    }
    let at = entry_point_offset(op, dtype);
    let name = op.name_spec(dtype);
    assert(op.source_spec().subrange(at, at + name.len()) =~= name);
}

} // verus!
