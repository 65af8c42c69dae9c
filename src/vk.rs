//! The Vulkan types that the buffer adapter holds, as Verus sees them.
use vstd::prelude::*;
use vulkano::buffer::cpu_access::{ReadLock, ReadLockError, WriteLock, WriteLockError};
use vulkano::buffer::CpuAccessibleBuffer;
use vulkano::memory::pool::{PotentialDedicatedAllocation, StdMemoryPoolAlloc};

verus! {

#[verifier::external_type_specification]
#[verifier::external_body]
pub struct ExStdMemoryPoolAlloc(StdMemoryPoolAlloc);

#[verifier::external_type_specification]
#[verifier::external_body]
#[verifier::reject_recursive_types(A)]
pub struct ExPotentialDedicatedAllocation<A>(PotentialDedicatedAllocation<A>);

#[verifier::external_type_specification]
#[verifier::external_body]
#[verifier::reject_recursive_types(T)]
#[verifier::reject_recursive_types(A)]
pub struct ExCpuAccessibleBuffer<T: ?Sized, A>(CpuAccessibleBuffer<T, A>);

#[verifier::external_type_specification]
#[verifier::external_body]
#[verifier::reject_recursive_types(T)]
pub struct ExReadLock<'a, T: ?Sized + 'a>(ReadLock<'a, T>);

#[verifier::external_type_specification]
#[verifier::external_body]
#[verifier::reject_recursive_types(T)]
pub struct ExWriteLock<'a, T: ?Sized + 'a>(WriteLock<'a, T>);

#[verifier::external_type_specification]
#[verifier::external_body]
pub struct ExReadLockError(ReadLockError);

#[verifier::external_type_specification]
#[verifier::external_body]
pub struct ExWriteLockError(WriteLockError);

} // verus!
