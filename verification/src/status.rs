//! The status that a LibraryLink function hands back to the kernel.

use vstd::prelude::*;

verus! {

/// The call succeeded.
pub const LIBRARY_NO_ERROR: u32 = 0;

/// An argument has a type that the function does not take.
pub const LIBRARY_TYPE_ERROR: u32 = 1;

/// The function failed.
pub const LIBRARY_FUNCTION_ERROR: u32 = 6;

/// Status of a LibraryLink call.
#[derive(Copy, Clone, Debug)]
pub enum LibraryLinkStatus {
    NoError,
    FunctionError,
    TypeError,
}

impl From<LibraryLinkStatus> for u32 {
    /// The LibraryLink error code of `status`.
    fn from(status: LibraryLinkStatus) -> (code: u32) {
        match status {
            LibraryLinkStatus::NoError => LIBRARY_NO_ERROR,
            LibraryLinkStatus::FunctionError => LIBRARY_FUNCTION_ERROR,
            LibraryLinkStatus::TypeError => LIBRARY_TYPE_ERROR,
        }
    }
}

impl vstd::std_specs::convert::FromSpecImpl<LibraryLinkStatus> for u32 {
    open spec fn obeys_from_spec() -> bool {
        true
    }

    open spec fn from_spec(status: LibraryLinkStatus) -> u32 {
        status.code()
    }
}

impl LibraryLinkStatus {
    /// The LibraryLink error code of this status.
    pub open spec fn code(self) -> u32 {
        match self {
            LibraryLinkStatus::NoError => LIBRARY_NO_ERROR,
            LibraryLinkStatus::FunctionError => LIBRARY_FUNCTION_ERROR,
            LibraryLinkStatus::TypeError => LIBRARY_TYPE_ERROR,
        }
    }

    /// Success, or the error that this status is.
    pub open spec fn as_result(self) -> Result<(), LibraryLinkStatus> {
        if self is NoError {
            Ok(())
        } else {
            Err(self)
        }
    }

    /// `Ok` for [`NoError`](LibraryLinkStatus::NoError), and for any other status that
    /// status as an error.
    pub fn into_result(self) -> (result: Result<(), LibraryLinkStatus>)
        ensures
            result == self.as_result(),
    {
        match self {
            LibraryLinkStatus::NoError => Ok(()),
            LibraryLinkStatus::FunctionError => Err(self),
            LibraryLinkStatus::TypeError => Err(self),
        }
    }

    /// The status that stands for the error `err`. `NoError` is not an error.
    pub fn from_error(err: LibraryLinkStatus) -> (status: LibraryLinkStatus)
        requires
            err !is NoError,
        ensures
            status == err,
            status.as_result() == Err::<(), LibraryLinkStatus>(err),
    {
        err
    }

    /// The status that stands for success.
    pub fn from_ok(_ok: ()) -> (status: LibraryLinkStatus)
        ensures
            status is NoError,
            status.as_result() == Ok::<(), LibraryLinkStatus>(()),
    {
        LibraryLinkStatus::NoError
    }
}

/// Different statuses have different error codes, and only `NoError` has the code that
/// reports success.
pub proof fn law_codes_are_distinct(a: LibraryLinkStatus, b: LibraryLinkStatus)
    ensures
        a.code() == b.code() <==> a == b,
        a.code() == LIBRARY_NO_ERROR <==> a is NoError,
{
}

/// Success, a type error and a failed function are reported with the codes 0, 1 and 6.
pub proof fn law_code_of_each_status(status: LibraryLinkStatus)
    ensures
        status.code() == match status {
            LibraryLinkStatus::NoError => 0u32,
            LibraryLinkStatus::TypeError => 1u32,
            LibraryLinkStatus::FunctionError => 6u32,
        },
        <u32 as vstd::std_specs::convert::FromSpec<LibraryLinkStatus>>::from_spec(status)
            == status.code(),
{
}

/// Taking a status apart loses nothing: success comes of `NoError` alone, and an error is
/// the status itself, which may be put back as an error.
pub proof fn law_result_keeps_status(status: LibraryLinkStatus)
    ensures
        match status.as_result() {
            Ok(_) => status is NoError,
            Err(err) => err == status && err !is NoError,
        },
{
}

} // verus!
