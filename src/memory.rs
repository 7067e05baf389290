//! Memory regions of every kind, seen through what the copy dispatcher and
//! the allocators decide on: kind, head address, element count, element size
//! and the owning context.
use vstd::prelude::*;

verus! {

/// Kind of a memory region.
#[derive(Debug, Clone, Copy, PartialEq, Eq, Structural)]
pub enum MemoryType {
    Host,
    Registered,
    PageLocked,
    Device,
    Array,
}

impl MemoryType {
    /// Whether the region lives in host memory, where it can be read as a slice.
    pub open spec fn spec_is_host(self) -> bool {
        self is Host || self is Registered || self is PageLocked
    }

    /// Whether the region lives in host memory.
    #[verifier::when_used_as_spec(spec_is_host)]
    pub fn is_host(self) -> (r: bool)
        ensures
            r == self.spec_is_host(),
    {
        match self {
            MemoryType::Host | MemoryType::Registered | MemoryType::PageLocked => true,
            MemoryType::Device | MemoryType::Array => false,
        }
    }

    /// Whether the region is one contiguous run of elements (every kind but `Array`).
    pub fn is_continuous(self) -> (r: bool)
        ensures
            r == !(self is Array),
    {
        match self {
            MemoryType::Array => false,
            _ => true,
        }
    }
}

/// A refused allocation.
#[derive(Debug, Clone, Copy, PartialEq, Eq, Structural)]
pub enum AllocError {
    /// No element was asked for.
    ZeroSized,
    /// The byte size does not fit in the address space.
    TooLarge { len: usize, elem_size: usize },
}

/// The number of bytes to allocate for `len` elements of `elem_size` bytes.
///
/// Zero elements are refused, whatever the kind of memory.
pub fn allocation_bytes(len: usize, elem_size: usize) -> (r: Result<usize, AllocError>)
    ensures
        len == 0 ==> r == Err::<usize, AllocError>(AllocError::ZeroSized),
        len > 0 && len * elem_size <= usize::MAX ==> r == Ok::<usize, AllocError>(
            (len * elem_size) as usize,
        ),
        len > 0 && len * elem_size > usize::MAX ==> r == Err::<usize, AllocError>(
            AllocError::TooLarge { len, elem_size },
        ),
{
    if len == 0 {
        return Err(AllocError::ZeroSized);
    }
    match len.checked_mul(elem_size) {
        Some(bytes) => Ok(bytes),
        None => Err(AllocError::TooLarge { len, elem_size }),
    }
}

/// What the dispatcher knows of one operand of a copy.
#[derive(Debug, Clone, Copy, PartialEq, Eq, Structural)]
pub struct Region {
    pub kind: MemoryType,
    /// Address of the first element.
    pub head: usize,
    /// Number of elements.
    pub len: usize,
    /// Size of one element in bytes.
    pub elem_size: usize,
    /// Handle of the owning context, for the kinds that have one.
    pub context: Option<usize>,
}

impl Region {
    /// The region's byte extent fits in the address space.
    pub open spec fn wf(&self) -> bool {
        self.head + self.len * self.elem_size <= usize::MAX
    }

    pub open spec fn spec_byte_size(&self) -> int {
        self.len * self.elem_size
    }

    /// Builds the description of a region, if its extent fits in the
    /// address space.
    pub fn new(
        kind: MemoryType,
        head: usize,
        len: usize,
        elem_size: usize,
        context: Option<usize>,
    ) -> (r: Option<Region>)
        ensures
            r is Some <==> head + len * elem_size <= usize::MAX,
            r is Some ==> r == Some((Region { kind, head, len, elem_size, context })),
    {
        match len.checked_mul(elem_size) {
            Some(bytes) => match head.checked_add(bytes) {
                Some(_) => Some(Region { kind, head, len, elem_size, context }),
                None => None,
            },
            None => {
                proof {
                    assert(len * elem_size <= head + len * elem_size) by (nonlinear_arith)
                        requires
                            head >= 0,
                    ;
                }
                None
            },
        }
    }

    /// The size of the region in bytes.
    pub fn byte_size(&self) -> (r: usize)
        requires
            self.wf(),
        ensures
            r == self.spec_byte_size(),
    {
        proof {
            assert(self.len * self.elem_size <= usize::MAX) by (nonlinear_arith)
                requires
                    self.head + self.len * self.elem_size <= usize::MAX,
                    self.head >= 0,
            ;
        }
        self.len * self.elem_size
    }
}

/// Whether the byte extents of two regions share a byte.
pub open spec fn overlaps(a: Region, b: Region) -> bool {
    a.spec_byte_size() > 0 && b.spec_byte_size() > 0 && a.head < b.head + b.spec_byte_size()
        && b.head < a.head + a.spec_byte_size()
}

/// How a copy is carried out.
#[derive(Debug, Clone, Copy, PartialEq, Eq, Structural)]
pub enum CopyPlan {
    /// Element by element through both sides' slice views; no device involved.
    HostSlices,
    /// Through the driver's transfer primitive, with `guard` made current
    /// for the call when it is present.
    DeviceTransfer { guard: Option<usize> },
}

/// Why a copy is refused. All but `NotSupported` are the caller's error.
#[derive(Debug, Clone, Copy, PartialEq, Eq, Structural)]
pub enum CopyError {
    /// Destination and source share bytes.
    Aliased,
    /// Destination and source differ in byte size.
    SizeMismatch { dest_bytes: usize, src_bytes: usize },
    /// Destination and source belong to two different contexts.
    ContextMismatch { dest: usize, src: usize },
    /// The source kind has no transfer yet.
    NotSupported,
}

impl CopyError {
    /// Whether the error is a violated precondition rather than a missing capability.
    pub fn is_fatal(&self) -> (r: bool)
        ensures
            r == !(*self is NotSupported),
    {
        match self {
            CopyError::NotSupported => false,
            _ => true,
        }
    }
}

/// The context to make current for a transfer between operands that report
/// the contexts `dest` and `src`.
pub open spec fn guard_choice(dest: Option<usize>, src: Option<usize>) -> Result<
    Option<usize>,
    CopyError,
> {
    match (dest, src) {
        (Some(d), Some(s)) => if d == s {
            Ok(Some(d))
        } else {
            Err(CopyError::ContextMismatch { dest: d, src: s })
        },
        (Some(d), None) => Ok(Some(d)),
        (None, Some(s)) => Ok(Some(s)),
        (None, None) => Ok(None),
    }
}

/// The plan for copying `src` into `dest`, or why there is none.
pub open spec fn copy_plan_of(dest: Region, src: Region) -> Result<CopyPlan, CopyError> {
    if overlaps(dest, src) {
        Err(CopyError::Aliased)
    } else if dest.spec_byte_size() != src.spec_byte_size() {
        Err(
            CopyError::SizeMismatch {
                dest_bytes: dest.spec_byte_size() as usize,
                src_bytes: src.spec_byte_size() as usize,
            },
        )
    } else {
        match src.kind {
            MemoryType::Host | MemoryType::Registered | MemoryType::PageLocked => Ok(
                CopyPlan::HostSlices,
            ),
            MemoryType::Device => match guard_choice(dest.context, src.context) {
                Ok(guard) => Ok(CopyPlan::DeviceTransfer { guard }),
                Err(e) => Err(e),
            },
            MemoryType::Array => Err(CopyError::NotSupported),
        }
    }
}

/// Decides how to copy `src` into `dest`: the operands may not share bytes
/// and must have the same byte size; the source kind picks the primitive,
/// and for a device source the operands' contexts pick the one to make current.
pub fn plan_copy(dest: &Region, src: &Region) -> (r: Result<CopyPlan, CopyError>)
    requires
        dest.wf(),
        src.wf(),
    ensures
        r == copy_plan_of(*dest, *src),
{
    let dest_bytes = dest.byte_size();
    let src_bytes = src.byte_size();
    if dest_bytes > 0 && src_bytes > 0 && dest.head < src.head + src_bytes && src.head
        < dest.head + dest_bytes {
        return Err(CopyError::Aliased);
    }
    if dest_bytes != src_bytes {
        return Err(CopyError::SizeMismatch { dest_bytes, src_bytes });
    }
    match src.kind {
        MemoryType::Host | MemoryType::Registered | MemoryType::PageLocked => Ok(
            CopyPlan::HostSlices,
        ),
        MemoryType::Device => match (dest.context, src.context) {
            (Some(d), Some(s)) => {
                if d == s {
                    Ok(CopyPlan::DeviceTransfer { guard: Some(d) })
                } else {
                    Err(CopyError::ContextMismatch { dest: d, src: s })
                }
            },
            (Some(d), None) => Ok(CopyPlan::DeviceTransfer { guard: Some(d) }),
            (None, Some(s)) => Ok(CopyPlan::DeviceTransfer { guard: Some(s) }),
            (None, None) => Ok(CopyPlan::DeviceTransfer { guard: None }),
        },
        MemoryType::Array => Err(CopyError::NotSupported),
    }
}

/// Two memory objects of the same element size and element count can be
/// copied into one another, whatever their kinds, except from an `Array`,
/// whose copy is refused as not supported. A device source is copied under
/// the context that the operands report, which must be one and the same
/// where both report one; a host source needs no context.
pub proof fn lemma_copy_between_equal_objects(dest: Region, src: Region)
    requires
        dest.elem_size == src.elem_size,
        dest.len == src.len,
        !overlaps(dest, src),
    ensures
        src.kind.spec_is_host() ==> copy_plan_of(dest, src) == Ok::<CopyPlan, CopyError>(
            CopyPlan::HostSlices,
        ),
        src.kind is Array ==> copy_plan_of(dest, src) == Err::<CopyPlan, CopyError>(
            CopyError::NotSupported,
        ),
        src.kind is Device ==> (copy_plan_of(dest, src) is Ok <==> (dest.context is None
            || src.context is None || dest.context == src.context)),
        src.kind is Device && copy_plan_of(dest, src) is Ok ==> copy_plan_of(dest, src)
            == Ok::<CopyPlan, CopyError>(
            CopyPlan::DeviceTransfer {
                guard: if dest.context is Some {
                    dest.context
                } else {
                    src.context
                },
            },
        ),
{
}

/// A copy between operands of different byte sizes, or from an object onto
/// itself, is refused before any byte is moved.
pub proof fn lemma_copy_refusals(dest: Region, src: Region)
    ensures
        dest.spec_byte_size() != src.spec_byte_size() ==> copy_plan_of(dest, src) is Err,
        dest == src && dest.spec_byte_size() > 0 ==> copy_plan_of(dest, src)
            == Err::<CopyPlan, CopyError>(CopyError::Aliased),
{
}

/// Copies every element of `src` into `dest`, which has the same length.
pub fn copy_elements<T: Copy>(dest: &mut [T], src: &[T])
    requires
        old(dest)@.len() == src@.len(),
    ensures
        final(dest)@ == src@,
{
    let n = src.len();
    let mut i: usize = 0;
    while i < n
        invariant
            n == src@.len(),
            dest@.len() == n,
            i <= n,
            forall|j: int| 0 <= j < i ==> dest@[j] == src@[j],
        decreases n - i,
    {
        dest[i] = src[i];
        i = i + 1;
    }
    assert(dest@ =~= src@);
}

/// How every element of a region is set to one value.
#[derive(Debug, Clone, Copy, PartialEq, Eq, Structural)]
pub enum FillPlan {
    /// The driver's fill of 1-byte units.
    Memset8,
    /// The driver's fill of 2-byte units.
    Memset16,
    /// The driver's fill of 4-byte units.
    Memset32,
    /// A store to each element in turn: correct for any element, and slower.
    ElementWise,
}

/// The fill for a region of `kind` whose elements are `elem_size` bytes:
/// device memory of 1-, 2- or 4-byte elements has a native fill, everything
/// else is filled element by element.
pub fn fill_plan(kind: MemoryType, elem_size: usize) -> (r: FillPlan)
    ensures
        kind is Device && elem_size == 1 <==> r is Memset8,
        kind is Device && elem_size == 2 <==> r is Memset16,
        kind is Device && elem_size == 4 <==> r is Memset32,
        !(kind is Device) || (elem_size != 1 && elem_size != 2 && elem_size != 4) <==> r is ElementWise,
{
    match kind {
        MemoryType::Device => {
            if elem_size == 1 {
                FillPlan::Memset8
            } else if elem_size == 2 {
                FillPlan::Memset16
            } else if elem_size == 4 {
                FillPlan::Memset32
            } else {
                FillPlan::ElementWise
            }
        },
        _ => FillPlan::ElementWise,
    }
}

/// Sets every element of `dest` to `value`.
pub fn fill_elements<T: Copy>(dest: &mut [T], value: T)
    ensures
        final(dest)@.len() == old(dest)@.len(),
        forall|j: int| 0 <= j < final(dest)@.len() ==> final(dest)@[j] == value,
{
    let n = dest.len();
    let mut i: usize = 0;
    while i < n
        invariant
            dest@.len() == n,
            n == old(dest)@.len(),
            i <= n,
            forall|j: int| 0 <= j < i ==> dest@[j] == value,
        decreases n - i,
    {
        dest[i] = value;
        i = i + 1;
    }
}

} // verus!
