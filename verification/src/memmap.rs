//! `mmap` naïve allocator: what it accepts of a mapping.

use crate::allocator::AllocError;
use vstd::prelude::*;

verus! {

/// Naïve `mmap` allocator.
#[derive(Debug, Clone, Copy, PartialEq, Eq, Structural)]
pub struct MemmapAlloc;

impl MemmapAlloc {
    /// The outcome of mapping `size` bytes with alignment `align`: the address of the
    /// mapping, or `None` when the system refused it or gave a null address. A mapping is
    /// accepted only when its address is suitably aligned.
    pub fn accept_mapping(mapped: Option<usize>, size: usize, align: usize) -> (r: Result<usize, AllocError>)
        requires
            align != 0,
        ensures
            r == match mapped {
                Some(addr) => if addr != 0 && addr % align == 0 {
                    Ok::<usize, AllocError>(addr)
                } else {
                    Err::<usize, AllocError>((AllocError { size, align }))
                },
                None => Err::<usize, AllocError>((AllocError { size, align })),
            },
    {
        match mapped {
            Some(addr) => {
                if addr == 0 {
                    Err(AllocError { size, align })
                } else if addr % align != 0 {
                    Err(AllocError { size, align })
                } else {
                    Ok(addr)
                }
            },
            None => Err(AllocError { size, align }),
        }
    }
}

} // verus!
