pub mod allocator;
pub mod channel;
pub mod condvar;
pub mod fixed_queue;
pub mod memmap;
pub mod pagesize;
pub mod process_rc;
pub mod shmem_safe;
pub mod time;

pub use shmem_safe::ShmemSafe;
