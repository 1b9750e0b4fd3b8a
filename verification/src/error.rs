//! Yaoi errors.

use vstd::prelude::*;
use vstd::string::to_string_from_display_ensures;
use vstd::string::StringExecFns;

use hugepage::HugePageBytesError;
use io_uring_bearer::error::UringBearerError;
use io_uring_bufring::RingBufError;

verus! {

/// Yaoi errors.
#[derive(Debug)]
pub enum YaoiError {
    /// std::io error, e.g. from a syscall.
    StdIo(std::io::Error),
    /// UringBearer error.
    Bearer(UringBearerError),
    /// UringBearer error.
    Bearer2(UringBearerError),
    /// Misc Yaoi bug that should cause a controlled panic downstream.
    Bug(&'static str),
    /// Underlying io-uring originating error.
    IoUring(std::io::Error),
    /// HugeTlb can be set only once.
    HugeTlbAlreadySet,
    /// HugeTlb related error, mostly OOM etc.
    HugeTlb(HugePageBytesError),
    /// Blueprints need buffers to run.
    BpNeedBuffers,
    /// Streaming HugeTlb works only on fixed ids below `u16::MAX`, as it groups
    /// buffers by the fixed id.
    LimitHugeTlbU16,
    /// Streaming HugeTlb requires a fixed id for its buffer group, which was not assigned.
    HugeTlbReqFixedId,
    /// RingBuf related error.
    RingBuf(RingBufError),
}

/// `prefix` followed by what `to_string` gives of `e`.
pub open spec fn prefixed_text<T: core::fmt::Display>(r: Seq<char>, prefix: Seq<char>, e: &T) -> bool {
    exists|t: String| #[trigger] to_string_from_display_ensures::<T>(e, t) && r == prefix + t@
}

impl YaoiError {
    /// The error as text: a fixed message for each error of the library's
    /// own, a prefix naming the source before the text of a wrapped error.
    pub fn message(&self) -> (r: String)
        ensures
            self matches YaoiError::StdIo(e) ==> prefixed_text(r@, "StdIo: "@, e),
            self matches YaoiError::Bearer(e) ==> prefixed_text(r@, "UringBearer: "@, e),
            self matches YaoiError::Bearer2(e) ==> prefixed_text(r@, "UringBearer: "@, e),
            self matches YaoiError::Bug(e) ==> r@ == "Yaoi Bug: "@ + e@,
            self matches YaoiError::IoUring(e) ==> prefixed_text(r@, "Yaoi IoUring: "@, e),
            self is HugeTlbAlreadySet ==> r@ == "HugeTLB already set once."@,
            self matches YaoiError::HugeTlb(e) ==> prefixed_text(r@, "HugeTlb error: "@, e),
            self is BpNeedBuffers ==> r@ == "Need buffers to run blueprints."@,
            self is LimitHugeTlbU16 ==> r@
                == "Streaming incremental HugeTLB buffers can be created only on u16 TcpSteam Ids."@,
            self is HugeTlbReqFixedId ==> r@
                == "Streaming incremental HugeTLB buffers can be only created on fixed id TcpStreams."@,
            self matches YaoiError::RingBuf(e) ==> prefixed_text(r@, "RingBuf: "@, e),
    {
        match self {
            YaoiError::StdIo(e) => String::from_str("StdIo: ").concat(e.to_string().as_str()),
            YaoiError::Bearer(e) => String::from_str("UringBearer: ").concat(e.to_string().as_str()),
            YaoiError::Bearer2(e) => String::from_str("UringBearer: ").concat(e.to_string().as_str()),
            YaoiError::Bug(e) => String::from_str("Yaoi Bug: ").concat(e),
            YaoiError::IoUring(e) => String::from_str("Yaoi IoUring: ").concat(e.to_string().as_str()),
            YaoiError::HugeTlbAlreadySet => String::from_str("HugeTLB already set once."),
            YaoiError::HugeTlb(e) => String::from_str("HugeTlb error: ").concat(e.to_string().as_str()),
            YaoiError::BpNeedBuffers => String::from_str("Need buffers to run blueprints."),
            YaoiError::LimitHugeTlbU16 => String::from_str(
                "Streaming incremental HugeTLB buffers can be created only on u16 TcpSteam Ids.",
            ),
            YaoiError::HugeTlbReqFixedId => String::from_str(
                "Streaming incremental HugeTLB buffers can be only created on fixed id TcpStreams.",
            ),
            YaoiError::RingBuf(e) => String::from_str("RingBuf: ").concat(e.to_string().as_str()),
        }
    }
}

} // verus!
