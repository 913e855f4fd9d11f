//! A restaurant split into modules: the front of house takes guests in, the
//! back of house cooks, and a customer uses both.

use vstd::prelude::*;

pub mod back_of_house;
pub mod customer;
pub mod front_of_house;

verus! {

/// `std::fmt::Error`, the error of formatting. Nothing is known of a value of
/// it.
#[verifier::external_type_specification]
#[verifier::external_body]
pub struct ExFmtError(std::fmt::Error);

/// `std::io::Error`, the error of input and output. Nothing is known of a
/// value of it.
#[verifier::external_type_specification]
#[verifier::external_body]
pub struct ExIoError(std::io::Error);

/// Has no formatting result to report. Its result type and that of
/// `function2` are both called `Result` where they come from; here each is
/// written out.
pub fn function1() -> (outcome: Option<Result<(), std::fmt::Error>>)
    ensures
        outcome is None,
{
    None
}

/// Has no input or output result to report.
pub fn function2() -> (outcome: Option<Result<(), std::io::Error>>)
    ensures
        outcome is None,
{
    None
}

} // verus!
