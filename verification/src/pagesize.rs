//! Page size, as the system reports it.

use vstd::prelude::*;

verus! {

/// An error getting the page size.
#[derive(Debug, Clone, Copy, PartialEq, Eq, Structural)]
pub enum Error {
    /// Unable to get page size: the system call failed with `errno`.
    PageSize { errno: i32 },
    /// System reported incorrect page size.
    IncorrectPageSize { size: Option<i64> },
}

/// The page size from what `sysconf(PAGE_SIZE)` reported: no value, or a value that is no
/// `usize`, is an incorrect page size.
pub fn pagesize_from_sysconf(reported: Option<i64>) -> (r: Result<usize, Error>)
    ensures
        r == match reported {
            Some(size) => if 0 <= size <= usize::MAX {
                Ok::<usize, Error>(size as usize)
            } else {
                Err::<usize, Error>((Error::IncorrectPageSize { size: reported }))
            },
            None => Err::<usize, Error>((Error::IncorrectPageSize { size: reported })),
        },
{
    match reported {
        Some(size) => {
            if size >= 0 && (size as u64) <= (usize::MAX as u64) {
                Ok(size as usize)
            } else {
                Err(Error::IncorrectPageSize { size: reported })
            }
        },
        None => Err(Error::IncorrectPageSize { size: reported }),
    }
}

} // verus!
