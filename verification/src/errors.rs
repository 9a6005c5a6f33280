//! The errors that index operations report.
use vstd::prelude::*;
use crate::address::Address;

verus! {

/// Why an operation on a partition, or a call to a cooperating one, failed.
#[derive(Debug)]
pub enum Error {
    /// An entry could not be committed at `address`.
    StoreWrite { address: Address },
    /// No readable entry is held at `address`.
    NotFound { address: Address },
    /// The call to `method` of `module` in `partition` brought no response.
    RemoteCallFailed { partition: String, module: String, method: String },
    /// A rule of the caller's own was broken; `message` says which.
    Internal { message: String },
}

/// What an [`Error`] says, with texts as sequences of characters.
pub enum ErrorView {
    StoreWrite { address: Seq<char> },
    NotFound { address: Seq<char> },
    RemoteCallFailed { partition: Seq<char>, module: Seq<char>, method: Seq<char> },
    Internal { message: Seq<char> },
}

impl View for Error {
    type V = ErrorView;

    open spec fn view(&self) -> ErrorView {
        match *self {
            Error::StoreWrite { address } => ErrorView::StoreWrite { address: address@ },
            Error::NotFound { address } => ErrorView::NotFound { address: address@ },
            Error::RemoteCallFailed { partition, module, method } => ErrorView::RemoteCallFailed {
                partition: partition@,
                module: module@,
                method: method@,
            },
            Error::Internal { message } => ErrorView::Internal { message: message@ },
        }
    }
}

impl Clone for Error {
    fn clone(&self) -> (copy: Error)
        ensures
            copy@ == self@,
    {
        match self {
            Error::StoreWrite { address } => Error::StoreWrite { address: address.clone() },
            Error::NotFound { address } => Error::NotFound { address: address.clone() },
            Error::RemoteCallFailed { partition, module, method } => Error::RemoteCallFailed {
                partition: partition.clone(),
                module: module.clone(),
                method: method.clone(),
            },
            Error::Internal { message } => Error::Internal { message: message.clone() },
        }
    }
}

impl PartialEq for Error {
    fn eq(&self, other: &Error) -> (same: bool) {
        match self {
            Error::StoreWrite { address: a } => match other {
                Error::StoreWrite { address: b } => a.text == b.text,
                _ => false,
            },
            Error::NotFound { address: a } => match other {
                Error::NotFound { address: b } => a.text == b.text,
                _ => false,
            },
            Error::RemoteCallFailed { partition: p, module: m, method: f } => match other {
                Error::RemoteCallFailed { partition: q, module: n, method: g } => {
                    *p == *q && *m == *n && *f == *g
                },
                _ => false,
            },
            Error::Internal { message: a } => match other {
                Error::Internal { message: b } => *a == *b,
                _ => false,
            },
        }
    }
}

impl Eq for Error {}

impl vstd::std_specs::cmp::PartialEqSpecImpl for Error {
    open spec fn obeys_eq_spec() -> bool {
        true
    }

    open spec fn eq_spec(&self, other: &Error) -> bool {
        self@ == other@
    }
}

impl Error {
    /// An [`Error::Internal`] that says `message`.
    pub fn internal(message: &str) -> (error: Error)
        ensures
            error@ == (ErrorView::Internal { message: message@ }),
    {
        Error::Internal { message: message.to_owned() }
    }

    /// An [`Error::RemoteCallFailed`] for the call to `method` of `module`
    /// in `partition`.
    pub fn remote_call_failed(partition: &str, module: &str, method: &str) -> (error: Error)
        ensures
            error@ == (ErrorView::RemoteCallFailed {
                partition: partition@,
                module: module@,
                method: method@,
            }),
    {
        Error::RemoteCallFailed {
            partition: partition.to_owned(),
            module: module.to_owned(),
            method: method.to_owned(),
        }
    }
}

/// The outcome of creating or resolving one address.
pub open spec fn address_outcome_view(outcome: Result<Address, Error>) -> Result<
    Seq<char>,
    ErrorView,
> {
    match outcome {
        Ok(address) => Ok(address@),
        Err(error) => Err(error@),
    }
}

/// The outcomes of creating or resolving addresses, in the same order.
pub open spec fn address_outcome_views(outcomes: Seq<Result<Address, Error>>) -> Seq<
    Result<Seq<char>, ErrorView>,
> {
    Seq::new(outcomes.len(), |i: int| address_outcome_view(outcomes[i]))
}

/// The outcome of one step that yields nothing, such as adding or removing
/// an edge.
pub open spec fn step_outcome_view(outcome: Result<(), Error>) -> Result<(), ErrorView> {
    match outcome {
        Ok(_) => Ok(()),
        Err(error) => Err(error@),
    }
}

/// The outcomes of steps that yield nothing, in the same order.
pub open spec fn step_outcome_views(outcomes: Seq<Result<(), Error>>) -> Seq<
    Result<(), ErrorView>,
> {
    Seq::new(outcomes.len(), |i: int| step_outcome_view(outcomes[i]))
}

/// What an operation on several addresses reports: one outcome for each,
/// or the failure of the operation as a whole.
pub open spec fn report_view(report: Result<Vec<Result<Address, Error>>, Error>) -> Result<
    Seq<Result<Seq<char>, ErrorView>>,
    ErrorView,
> {
    match report {
        Ok(outcomes) => Ok(address_outcome_views(outcomes@)),
        Err(error) => Err(error@),
    }
}

} // verus!
