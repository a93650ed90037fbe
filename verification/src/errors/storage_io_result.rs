//! Errors of operating system calls as errors of the store.

use vstd::prelude::*;
use crate::errors::storage_error::{
    err_from_error,
    io_error_payload,
    ErrorSubject,
    ErrorVerb,
    StorageError,
};
use crate::errors::ErrorSource;
use crate::log_id::LogId;
use crate::storage::SnapshotSignature;
use crate::type_config::RaftTypeConfig;

verus! {

/// Whether `r` keeps the value of a result, or wraps its error with the given subject and verb.
pub open spec fn wraps<C: RaftTypeConfig, T>(
    result: Result<T, std::io::Error>,
    r: Result<T, StorageError<C>>,
    subject: ErrorSubject,
    verb: ErrorVerb,
) -> bool {
    match result {
        Ok(x) => r == Ok::<T, StorageError<C>>(x),
        Err(io_error) => {
            &&& r matches Err(e)
            &&& e.wraps_io_error(subject, verb, io_error)
        },
    }
}

/// Wraps the error of an operating system call into a storage error, one method for each kind of
/// storage error.
pub trait StorageIOResult<C: RaftTypeConfig, T>: Sized {
    /// What is wrapped.
    spec fn io_result(self) -> Result<T, std::io::Error>;

    /// Wraps the error for writing log entries.
    fn sto_write_logs(self) -> (r: Result<T, StorageError<C>>)
        ensures
            wraps(self.io_result(), r, ErrorSubject::Logs, ErrorVerb::Write),
    ;

    /// Wraps the error for reading log entries.
    fn sto_read_logs(self) -> (r: Result<T, StorageError<C>>)
        ensures
            wraps(self.io_result(), r, ErrorSubject::Logs, ErrorVerb::Read),
    ;

    /// Wraps the error for writing the vote.
    fn sto_write_vote(self) -> (r: Result<T, StorageError<C>>)
        ensures
            wraps(self.io_result(), r, ErrorSubject::Vote, ErrorVerb::Write),
    ;

    /// Wraps the error for reading the vote.
    fn sto_read_vote(self) -> (r: Result<T, StorageError<C>>)
        ensures
            wraps(self.io_result(), r, ErrorSubject::Vote, ErrorVerb::Read),
    ;

    /// Wraps the error for applying a log entry.
    fn sto_apply(self, log_id: LogId) -> (r: Result<T, StorageError<C>>)
        ensures
            wraps(self.io_result(), r, ErrorSubject::Apply(log_id), ErrorVerb::Write),
    ;

    /// Wraps the error for reading from the state machine.
    fn sto_read_sm(self) -> (r: Result<T, StorageError<C>>)
        ensures
            wraps(self.io_result(), r, ErrorSubject::StateMachine, ErrorVerb::Read),
    ;

    /// Wraps the error for writing a snapshot.
    fn sto_write_snapshot(self, signature: Option<SnapshotSignature>) -> (r: Result<T, StorageError<C>>)
        ensures
            wraps(self.io_result(), r, ErrorSubject::Snapshot(signature), ErrorVerb::Write),
    ;

    /// Wraps the error for reading a snapshot.
    fn sto_read_snapshot(self, signature: Option<SnapshotSignature>) -> (r: Result<T, StorageError<C>>)
        ensures
            wraps(self.io_result(), r, ErrorSubject::Snapshot(signature), ErrorVerb::Read),
    ;

    /// Wraps the error for writing in general.
    fn sto_write(self) -> (r: Result<T, StorageError<C>>)
        ensures
            wraps(self.io_result(), r, ErrorSubject::Store, ErrorVerb::Write),
    ;
}

impl<C: RaftTypeConfig, T> StorageIOResult<C, T> for Result<T, std::io::Error> {
    open spec fn io_result(self) -> Result<T, std::io::Error> {
        self
    }

    fn sto_write_logs(self) -> (r: Result<T, StorageError<C>>) {
        match self {
            Ok(x) => Ok(x),
            Err(e) => Err(StorageError::write_logs(err_from_error::<C>(&e))),
        }
    }

    fn sto_read_logs(self) -> (r: Result<T, StorageError<C>>) {
        match self {
            Ok(x) => Ok(x),
            Err(e) => Err(StorageError::read_logs(err_from_error::<C>(&e))),
        }
    }

    fn sto_write_vote(self) -> (r: Result<T, StorageError<C>>) {
        match self {
            Ok(x) => Ok(x),
            Err(e) => Err(StorageError::write_vote(err_from_error::<C>(&e))),
        }
    }

    fn sto_read_vote(self) -> (r: Result<T, StorageError<C>>) {
        match self {
            Ok(x) => Ok(x),
            Err(e) => Err(StorageError::read_vote(err_from_error::<C>(&e))),
        }
    }

    fn sto_apply(self, log_id: LogId) -> (r: Result<T, StorageError<C>>) {
        match self {
            Ok(x) => Ok(x),
            Err(e) => Err(StorageError::apply(log_id, err_from_error::<C>(&e))),
        }
    }

    fn sto_read_sm(self) -> (r: Result<T, StorageError<C>>) {
        match self {
            Ok(x) => Ok(x),
            Err(e) => Err(StorageError::read_state_machine(err_from_error::<C>(&e))),
        }
    }

    fn sto_write_snapshot(self, signature: Option<SnapshotSignature>) -> (r: Result<T, StorageError<C>>) {
        match self {
            Ok(x) => Ok(x),
            Err(e) => Err(StorageError::write_snapshot(signature, err_from_error::<C>(&e))),
        }
    }

    fn sto_read_snapshot(self, signature: Option<SnapshotSignature>) -> (r: Result<T, StorageError<C>>) {
        match self {
            Ok(x) => Ok(x),
            Err(e) => Err(StorageError::read_snapshot(signature, err_from_error::<C>(&e))),
        }
    }

    fn sto_write(self) -> (r: Result<T, StorageError<C>>) {
        match self {
            Ok(x) => Ok(x),
            Err(e) => Err(StorageError::write(err_from_error::<C>(&e))),
        }
    }
}

/// A value is kept, and an error is wrapped with what was being done and to what; the message of an
/// error that carries one is the message of the cause.
pub proof fn outcomes_are_wrapped<C: RaftTypeConfig, T>(
    result: Result<T, std::io::Error>,
    r: Result<T, StorageError<C>>,
    subject: ErrorSubject,
    verb: ErrorVerb,
)
    requires
        wraps(result, r, subject, verb),
    ensures
        r is Ok <==> result is Ok,
        result matches Ok(x) ==> r == Ok::<T, StorageError<C>>(x),
        r matches Err(e) ==> e.subject == subject && e.verb == verb && (io_error_payload(
            result->Err_0,
        ) matches Some(m) ==> e.source.message() == m),
{
}

/// Each method wraps with its own subject and verb.
pub proof fn outcome_calls<C: RaftTypeConfig, T>(
    result: Result<T, std::io::Error>,
    r: Result<T, StorageError<C>>,
    log_id: LogId,
    signature: Option<SnapshotSignature>,
)
    requires
        r is Err,
    ensures
        call_ensures(<Result<T, std::io::Error> as StorageIOResult<C, T>>::sto_write_logs, (result,), r)
            ==> r->Err_0.subject is Logs && r->Err_0.verb is Write,
        call_ensures(<Result<T, std::io::Error> as StorageIOResult<C, T>>::sto_read_logs, (result,), r)
            ==> r->Err_0.subject is Logs && r->Err_0.verb is Read,
        call_ensures(<Result<T, std::io::Error> as StorageIOResult<C, T>>::sto_write_vote, (result,), r)
            ==> r->Err_0.subject is Vote && r->Err_0.verb is Write,
        call_ensures(<Result<T, std::io::Error> as StorageIOResult<C, T>>::sto_read_vote, (result,), r)
            ==> r->Err_0.subject is Vote && r->Err_0.verb is Read,
        call_ensures(
            <Result<T, std::io::Error> as StorageIOResult<C, T>>::sto_apply,
            (result, log_id),
            r,
        ) ==> r->Err_0.subject == ErrorSubject::Apply(log_id) && r->Err_0.verb is Write,
        call_ensures(<Result<T, std::io::Error> as StorageIOResult<C, T>>::sto_read_sm, (result,), r)
            ==> r->Err_0.subject is StateMachine && r->Err_0.verb is Read,
        call_ensures(
            <Result<T, std::io::Error> as StorageIOResult<C, T>>::sto_write_snapshot,
            (result, signature),
            r,
        ) ==> r->Err_0.subject == ErrorSubject::Snapshot(signature) && r->Err_0.verb is Write,
        call_ensures(
            <Result<T, std::io::Error> as StorageIOResult<C, T>>::sto_read_snapshot,
            (result, signature),
            r,
        ) ==> r->Err_0.subject == ErrorSubject::Snapshot(signature) && r->Err_0.verb is Read,
        call_ensures(<Result<T, std::io::Error> as StorageIOResult<C, T>>::sto_write, (result,), r)
            ==> r->Err_0.subject is Store && r->Err_0.verb is Write,
{
}

} // verus!
