//! Types of `std` and of `tokio` that pass through the readers unopened.

use vstd::prelude::*;

verus! {

#[verifier::external_type_specification]
#[verifier::external_body]
pub struct ExIoError(std::io::Error);

#[verifier::external_type_specification]
#[verifier::external_body]
pub struct ExContext<'a>(std::task::Context<'a>);

#[verifier::external_type_specification]
#[verifier::external_body]
#[verifier::reject_recursive_types(P)]
pub struct ExPin<P>(std::pin::Pin<P>);

#[verifier::external_type_specification]
#[verifier::external_body]
#[verifier::reject_recursive_types(T)]
pub struct ExPoll<T>(std::task::Poll<T>);

#[verifier::external_type_specification]
#[verifier::external_body]
pub struct ExReadBuf<'a>(tokio::io::ReadBuf<'a>);

/// The filled region of a read buffer: the bytes that `ReadBuf::filled`
/// returns.
pub uninterp spec fn filled_bytes(buf: &tokio::io::ReadBuf<'_>) -> Seq<u8>;

/// Calls `tokio::io::ReadBuf::filled`, which returns the filled region.
#[verifier::external_body]
pub(crate) fn filled<'a>(buf: &'a tokio::io::ReadBuf<'_>) -> (bytes: &'a [u8])
    ensures
        bytes@ == filled_bytes(buf),
{
    buf.filled()
}

} // verus!
