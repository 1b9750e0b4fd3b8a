//! Outside types that the library carries, and the outside functions it calls.

use vstd::prelude::*;

verus! {

/// `std::io::Error`, carried in errors.
#[verifier::external_type_specification]
#[verifier::external_body]
pub struct ExIoError(std::io::Error);

/// `core::slice::IterMut`, an iterator over mutable references.
#[verifier::external_type_specification]
#[verifier::external_body]
#[verifier::reject_recursive_types(T)]
pub struct ExIterMut<'a, T: 'a>(core::slice::IterMut<'a, T>);

/// `io_uring_bearer::UringBearer`, the io_uring submission and completion handler.
#[verifier::external_type_specification]
#[verifier::external_body]
#[verifier::reject_recursive_types(C)]
pub struct ExUringBearer<C>(io_uring_bearer::UringBearer<C>);

/// `io_uring_opcode_sets::Wrapper`, the set of opcodes the bearer carries.
#[verifier::external_type_specification]
#[verifier::external_body]
pub struct ExWrapper(io_uring_opcode_sets::Wrapper);

/// `io_uring_bearer::error::UringBearerError`.
#[verifier::external_type_specification]
#[verifier::external_body]
pub struct ExUringBearerError(io_uring_bearer::error::UringBearerError);

/// `hugepage::HugePageBytes`, a HugeTLB mapping.
#[verifier::external_type_specification]
#[verifier::external_body]
pub struct ExHugePageBytes(hugepage::HugePageBytes);

/// `hugepage::HugePageBytesError`.
#[verifier::external_type_specification]
#[verifier::external_body]
pub struct ExHugePageBytesError(hugepage::HugePageBytesError);

/// `hugepage::HugePageChoice`, the size of a HugeTLB mapping.
#[verifier::external_type_specification]
#[verifier::external_body]
pub struct ExHugePageChoice(hugepage::HugePageChoice);

/// `io_uring_bufring::RingBufUnregistered`, the ring of input buffers.
#[verifier::external_type_specification]
#[verifier::external_body]
pub struct ExRingBufUnregistered(io_uring_bufring::RingBufUnregistered);

/// `io_uring_bufring::RingBufError`.
#[verifier::external_type_specification]
#[verifier::external_body]
pub struct ExRingBufError(io_uring_bufring::RingBufError);

} // verus!
