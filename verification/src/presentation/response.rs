//! Statuses and bodies.

use vstd::prelude::*;

verus! {

/// The statuses that the service answers with.
#[derive(Clone, Copy, PartialEq, Eq, Structural, Debug)]
pub enum Status {
    Success,
    Created,
    NoContent,
    NotFound,
    InternalServerError,
}

impl Status {
    /// The number of the status on the wire.
    pub open spec fn code(self) -> u16 {
        match self {
            Status::Success => 200,
            Status::Created => 201,
            Status::NoContent => 204,
            Status::NotFound => 404,
            Status::InternalServerError => 500,
        }
    }

    /// Computes [`Status::code`].
    pub fn as_u16(&self) -> (code: u16)
        ensures
            code == self.code(),
    {
        match self {
            Status::Success => 200,
            Status::Created => 201,
            Status::NoContent => 204,
            Status::NotFound => 404,
            Status::InternalServerError => 500,
        }
    }
}

/// What a reply carries besides its status: one record or a list of records
/// in their wire form `R`, a line of text, or nothing.
#[derive(Debug, Clone, PartialEq, Eq)]
pub enum Body<R> {
    One(R),
    Many(Vec<R>),
    Message(&'static str),
    Empty,
}

/// A status and a body.
#[derive(Debug, Clone, PartialEq, Eq)]
pub struct Reply<R> {
    pub status: Status,
    pub body: Body<R>,
}

impl<R> Reply<R> {
    /// The reply is `status` with the line `text`.
    pub open spec fn says(self, status: Status, text: Seq<char>) -> bool {
        &&& self.status == status
        &&& self.body matches Body::Message(line)
        &&& line@ == text
    }

    /// The reply is `status` without a body.
    pub open spec fn is_bare(self, status: Status) -> bool {
        self.status == status && self.body is Empty
    }
}

} // verus!
