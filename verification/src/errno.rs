use vstd::prelude::*;

verus! {

/// A raw operating-system error number, as delivered through `errno` or
/// returned directly by a native status query.
#[derive(Clone, Copy, Debug, PartialEq, Eq, Structural)]
pub struct Errno {
    /// The numeric error code.
    pub code: i32,
}

/// Decode the calling convention shared by the native request entry points:
/// a return value of -1 signals failure, with the error number observed as
/// `err`; any other return value is itself the successful result.
pub fn errno_result(ret: isize, err: i32) -> (r: Result<isize, Errno>)
    ensures
        ret == -1 ==> r == Result::<isize, Errno>::Err(Errno { code: err }),
        ret != -1 ==> r == Result::<isize, Errno>::Ok(ret),
{
    if ret == -1 {
        Err(Errno { code: err })
    } else {
        Ok(ret)
    }
}

} // verus!
