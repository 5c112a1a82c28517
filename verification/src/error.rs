use vstd::prelude::*;
use vstd::std_specs::convert::FromSpecImpl;
use crate::vk::enums::VkResult;

verus! {

/// What went wrong.
#[derive(Debug, Clone, PartialEq, Eq)]
pub enum ErrorCode {
    /// A driver entry point returned a status other than success.
    VkResult(VkResult),
    /// A name holds a zero byte, at this position, and so cannot be handed
    /// to the driver as a zero-terminated string.
    FFI(usize),
    /// There is no physical device, or the first one has no queue family
    /// that runs compute work.
    SuitablePhysicalDeviceNotFound,
    /// No memory type is both allowed for the buffer and has every
    /// requested property.
    SuitableBufferMemoryTypeNotFound,
    /// The shader file could not be read; the text says why.
    ShaderLoadIO(String),
    /// The shader code is empty, or its length is not a multiple of 4.
    ShaderLoadUnaligned,
    /// A transfer between host and device was not carried out.
    TransferFailed(VkResult),
    /// A dispatch was not carried out.
    DispatchFailed(VkResult),
}

/// An error of this library.
#[derive(Debug, Clone, PartialEq, Eq)]
pub struct Error {
    u: Box<ErrorCode>,
}

impl Error {
    /// What went wrong.
    pub closed spec fn spec_code(&self) -> ErrorCode {
        *self.u
    }

    /// The error that says that `code` went wrong.
    pub closed spec fn of(code: ErrorCode) -> Error {
        Error { u: Box::new(code) }
    }

    /// The error that says that `code` went wrong says so.
    pub broadcast proof fn lemma_of(code: ErrorCode)
        ensures
            (#[trigger] Self::of(code)).spec_code() == code,
    {
    }

    /// The error that says that `code` went wrong.
    pub fn new(code: ErrorCode) -> (r: Self)
        ensures
            r == Self::of(code),
            r.spec_code() == code,
    {
        Error { u: Box::new(code) }
    }

    /// What went wrong.
    pub fn code(&self) -> (r: &ErrorCode)
        ensures
            *r == self.spec_code(),
    {
        &*self.u
    }
}

impl From<VkResult> for Error {
    fn from(code: VkResult) -> (r: Self) {
        Error { u: Box::new(ErrorCode::VkResult(code)) }
    }
}

impl FromSpecImpl<VkResult> for Error {
    open spec fn obeys_from_spec() -> bool {
        true
    }

    open spec fn from_spec(code: VkResult) -> Self {
        Error::of(ErrorCode::VkResult(code))
    }
}

impl From<ErrorCode> for Error {
    fn from(code: ErrorCode) -> (r: Self) {
        Error { u: Box::new(code) }
    }
}

impl FromSpecImpl<ErrorCode> for Error {
    open spec fn obeys_from_spec() -> bool {
        true
    }

    open spec fn from_spec(code: ErrorCode) -> Self {
        Error::of(code)
    }
}

impl VkResult {
    /// Success is `Ok`; every other status is the error that carries it.
    pub fn into_result(self) -> (r: Result<(), Error>)
        ensures
            self == VkResult::VK_SUCCESS ==> r.is_ok(),
            self != VkResult::VK_SUCCESS ==> r.is_err() && r.unwrap_err().spec_code()
                == ErrorCode::VkResult(self),
    {
        match self {
            VkResult::VK_SUCCESS => Ok(()),
            _ => Err(Error::new(ErrorCode::VkResult(self))),
        }
    }
}

} // verus!
