//! Errors of the store.

use vstd::prelude::*;
use vstd::string::*;
use crate::errors::ErrorSource;
use crate::log_id::LogId;
use crate::storage::SnapshotSignature;
use crate::text;
use crate::type_config::RaftTypeConfig;

verus! {

/// The error of an operating system call.
#[verifier::external_type_specification]
#[verifier::external_body]
pub struct ExIoError(std::io::Error);

/// The message that an error carries, if it was made with one.
pub uninterp spec fn io_error_payload(e: std::io::Error) -> Option<Seq<char>>;

/// Whether an error is written as a text, on some machine.
pub uninterp spec fn is_io_error_text(e: std::io::Error, text: Seq<char>) -> bool;

/// `std::string::ToString::to_string` on a `std::io::Error`: a text of the error, which is the
/// message that it carries, if it was made with one.
///
/// Nothing is claimed of what the text of any other error says: for an error of the operating system
/// it is the system's own.
#[verifier::external_body]
fn io_error_text(e: &std::io::Error) -> (r: String)
    ensures
        is_io_error_text(*e, r@),
        io_error_payload(*e) matches Some(m) ==> r@ == m,
{
    e.to_string()
}

/// A kind of error.
#[derive(Clone, Copy, Debug, PartialEq, Eq, Structural)]
pub enum IoErrorKind {
    /// Data that is not valid for the operation.
    InvalidData,
    /// An error of no other kind.
    Other,
}

/// The kind of an error, if it is one of [`IoErrorKind`].
pub uninterp spec fn io_error_kind(e: std::io::Error) -> Option<IoErrorKind>;

/// `std::io::Error::other`: an error of the kind `Other` that carries the given message.
#[verifier::external_body]
pub(crate) fn io_error_other(message: String) -> (r: std::io::Error)
    ensures
        io_error_payload(r) == Some(message@),
        io_error_kind(r) == Some(IoErrorKind::Other),
{
    std::io::Error::other(message)
}

/// `std::io::Error::new`: an error of the given kind that carries the given message.
#[verifier::external_body]
pub(crate) fn io_error_new(kind: IoErrorKind, message: String) -> (r: std::io::Error)
    ensures
        io_error_payload(r) == Some(message@),
        io_error_kind(r) == Some(kind),
{
    let std_kind = match kind {
        IoErrorKind::InvalidData => std::io::ErrorKind::InvalidData,
        IoErrorKind::Other => std::io::ErrorKind::Other,
    };
    std::io::Error::new(std_kind, message)
}

/// A cause that has the text of an error: the message that the error carries, if it was made with
/// one.
pub fn err_from_error<C: RaftTypeConfig>(e: &std::io::Error) -> (r: C::ErrorSource)
    ensures
        is_io_error_text(*e, r.message()),
        io_error_payload(*e) matches Some(m) ==> r.message() == m,
{
    let message = io_error_text(e);
    C::ErrorSource::from_message(message.as_str())
}

/// Whether a cause is what [`err_from_error`] makes of an error.
pub open spec fn is_cause_of<C: RaftTypeConfig>(
    source: C::ErrorSource,
    e: std::io::Error,
) -> bool {
    &&& call_ensures(err_from_error::<C>, (&e,), source)
    &&& is_io_error_text(e, source.message())
    &&& io_error_payload(e) matches Some(m) ==> source.message() == m
}

/// Wraps the error of a result into a storage error.
pub trait ToStorageResult<C: RaftTypeConfig, T>: Sized {
    /// What is wrapped.
    spec fn result(self) -> Result<T, std::io::Error>;

    /// Convert `Result<T, E>` to `Result<T, StorageError>`.
    ///
    /// `f` gives the subject and the verb of the storage error; it is called only for an error.
    fn sto_res<F>(self, f: F) -> (r: Result<T, StorageError<C>>) where
        F: FnOnce() -> (ErrorSubject, ErrorVerb),

        requires
            f.requires(()),
        ensures
            match self.result() {
                Ok(x) => r == Ok::<T, StorageError<C>>(x),
                Err(io_error) => {
                    &&& r matches Err(e)
                    &&& f.ensures((), (e.subject, e.verb))
                    &&& e.wraps_io_error(e.subject, e.verb, io_error)
                },
            },
    ;
}

impl<C: RaftTypeConfig, T> ToStorageResult<C, T> for Result<T, std::io::Error> {
    open spec fn result(self) -> Result<T, std::io::Error> {
        self
    }

    fn sto_res<F>(self, f: F) -> (r: Result<T, StorageError<C>>) where
        F: FnOnce() -> (ErrorSubject, ErrorVerb),
    {
        match self {
            Ok(x) => Ok(x),
            Err(e) => {
                let (subject, verb) = f();
                Err(StorageError::new(subject, verb, err_from_error::<C>(&e)))
            },
        }
    }
}

/// What a storage error is about.
#[derive(Clone, Debug, PartialEq, Eq)]
pub enum ErrorSubject {
    /// The store in general.
    Store,
    /// The vote.
    Vote,
    /// A series of log entries.
    Logs,
    /// A single log entry.
    Log(LogId),
    /// A single log entry whose leader is not known.
    LogIndex(u64),
    /// A log entry that was being applied.
    Apply(LogId),
    /// The state machine.
    StateMachine,
    /// A snapshot.
    Snapshot(Option<SnapshotSignature>),
    /// Nothing in particular.
    Unspecified,
}

impl ErrorSubject {
    /// The subject with its fields, as a programmer would write it.
    pub open spec fn text(self) -> Seq<char> {
        match self {
            ErrorSubject::Store => "Store"@,
            ErrorSubject::Vote => "Vote"@,
            ErrorSubject::Logs => "Logs"@,
            ErrorSubject::Log(id) => "Log("@ + id.debug_spec() + ")"@,
            ErrorSubject::LogIndex(i) => "LogIndex("@ + text::decimal(i as nat) + ")"@,
            ErrorSubject::Apply(id) => "Apply("@ + id.debug_spec() + ")"@,
            ErrorSubject::StateMachine => "StateMachine"@,
            ErrorSubject::Snapshot(s) => "Snapshot("@ + (match s {
                Some(s) => "Some("@ + s.text() + ")"@,
                None => "None"@,
            }) + ")"@,
            ErrorSubject::Unspecified => "None"@,
        }
    }

    /// The subject with its fields, as a programmer would write it.
    pub fn to_string(&self) -> (r: String)
        ensures
            r@ == self.text(),
    {
        match self {
            ErrorSubject::Store => "Store".to_owned(),
            ErrorSubject::Vote => "Vote".to_owned(),
            ErrorSubject::Logs => "Logs".to_owned(),
            ErrorSubject::Log(id) => "Log(".to_owned().concat(id.debug_text().as_str()).concat(")"),
            ErrorSubject::LogIndex(i) => "LogIndex(".to_owned().concat(
                text::u64_text(*i).as_str(),
            ).concat(")"),
            ErrorSubject::Apply(id) => "Apply(".to_owned().concat(id.debug_text().as_str()).concat(
                ")",
            ),
            ErrorSubject::StateMachine => "StateMachine".to_owned(),
            ErrorSubject::Snapshot(s) => {
                let inner = match s {
                    Some(s) => "Some(".to_owned().concat(s.to_string().as_str()).concat(")"),
                    None => "None".to_owned(),
                };
                "Snapshot(".to_owned().concat(inner.as_str()).concat(")")
            },
            ErrorSubject::Unspecified => "None".to_owned(),
        }
    }
}

/// What was being done when an error occurred.
#[derive(Clone, Copy, Debug, PartialEq, Eq, Structural)]
pub enum ErrorVerb {
    /// Reading data.
    Read,
    /// Writing data.
    Write,
    /// Seeking in data.
    Seek,
    /// Deleting data.
    Delete,
}

impl ErrorVerb {
    /// The name of the verb.
    pub open spec fn text(self) -> Seq<char> {
        match self {
            ErrorVerb::Read => "Read"@,
            ErrorVerb::Write => "Write"@,
            ErrorVerb::Seek => "Seek"@,
            ErrorVerb::Delete => "Delete"@,
        }
    }

    /// The name of the verb.
    pub fn to_string(&self) -> (r: String)
        ensures
            r@ == self.text(),
    {
        match self {
            ErrorVerb::Read => "Read".to_owned(),
            ErrorVerb::Write => "Write".to_owned(),
            ErrorVerb::Seek => "Seek".to_owned(),
            ErrorVerb::Delete => "Delete".to_owned(),
        }
    }
}

/// An error that occurred when operating the store.
///
/// It means that data is lost: a node that meets it shuts down.
pub struct StorageError<C: RaftTypeConfig> {
    pub subject: ErrorSubject,
    pub verb: ErrorVerb,
    pub source: C::ErrorSource,
}

impl<C: RaftTypeConfig> From<StorageError<C>> for std::io::Error {
    fn from(e: StorageError<C>) -> (r: std::io::Error)
        ensures
            io_error_payload(r) == Some(e.text()),
            io_error_kind(r) == Some(IoErrorKind::Other),
    {
        e.into_io_error()
    }
}

impl<C: RaftTypeConfig> vstd::std_specs::convert::FromSpecImpl<StorageError<C>> for std::io::Error {
    open spec fn obeys_from_spec() -> bool {
        false
    }

    open spec fn from_spec(e: StorageError<C>) -> std::io::Error {
        arbitrary()
    }
}

impl<C: RaftTypeConfig> StorageError<C> {
    /// `when <verb> <subject>: <cause>`.
    pub open spec fn text(self) -> Seq<char> {
        "when "@ + self.verb.text() + " "@ + self.subject.text() + ": "@ + self.source.message()
    }

    /// `when <verb> <subject>: <cause>`.
    pub fn to_string(&self) -> (r: String)
        ensures
            r@ == self.text(),
    {
        let v = self.verb.to_string();
        let s = self.subject.to_string();
        let m = self.source.to_message();
        "when ".to_owned().concat(v.as_str()).concat(" ").concat(s.as_str()).concat(": ").concat(
            m.as_str(),
        )
    }

    /// An error of the kind `Other` that carries the text of this one.
    pub fn into_io_error(self) -> (r: std::io::Error)
        ensures
            io_error_payload(r) == Some(self.text()),
            io_error_kind(r) == Some(IoErrorKind::Other),
    {
        io_error_other(self.to_string())
    }

    /// An error of its parts.
    pub fn new(subject: ErrorSubject, verb: ErrorVerb, source: C::ErrorSource) -> (r: Self)
        ensures
            r == (StorageError::<C> { subject, verb, source }),
    {
        StorageError { subject, verb, source }
    }

    /// Whether this error wraps the error of an operating system call, with a subject and a verb.
    pub open spec fn wraps_io_error(
        self,
        subject: ErrorSubject,
        verb: ErrorVerb,
        io_error: std::io::Error,
    ) -> bool {
        &&& self.subject == subject
        &&& self.verb == verb
        &&& is_cause_of::<C>(self.source, io_error)
    }

    /// An error that wraps the error of an operating system call.
    pub fn from_io_error(
        subject: ErrorSubject,
        verb: ErrorVerb,
        io_error: std::io::Error,
    ) -> (r: Self)
        ensures
            r.wraps_io_error(subject, verb, io_error),
    {
        StorageError::new(subject, verb, err_from_error::<C>(&io_error))
    }

    /// An error of writing a log entry.
    pub fn write_log_entry(log_id: LogId, source: C::ErrorSource) -> (r: Self)
        ensures
            r == (StorageError::<C> {
                subject: ErrorSubject::Log(log_id),
                verb: ErrorVerb::Write,
                source,
            }),
    {
        StorageError::new(ErrorSubject::Log(log_id), ErrorVerb::Write, source)
    }

    /// An error of reading the log entry at an index.
    pub fn read_log_at_index(log_index: u64, source: C::ErrorSource) -> (r: Self)
        ensures
            r == (StorageError::<C> {
                subject: ErrorSubject::LogIndex(log_index),
                verb: ErrorVerb::Read,
                source,
            }),
    {
        StorageError::new(ErrorSubject::LogIndex(log_index), ErrorVerb::Read, source)
    }

    /// An error of reading a log entry.
    pub fn read_log_entry(log_id: LogId, source: C::ErrorSource) -> (r: Self)
        ensures
            r == (StorageError::<C> {
                subject: ErrorSubject::Log(log_id),
                verb: ErrorVerb::Read,
                source,
            }),
    {
        StorageError::new(ErrorSubject::Log(log_id), ErrorVerb::Read, source)
    }

    /// An error of writing log entries.
    pub fn write_logs(source: C::ErrorSource) -> (r: Self)
        ensures
            r == (StorageError::<C> {
                subject: ErrorSubject::Logs,
                verb: ErrorVerb::Write,
                source,
            }),
    {
        StorageError::new(ErrorSubject::Logs, ErrorVerb::Write, source)
    }

    /// An error of reading log entries.
    pub fn read_logs(source: C::ErrorSource) -> (r: Self)
        ensures
            r == (StorageError::<C> {
                subject: ErrorSubject::Logs,
                verb: ErrorVerb::Read,
                source,
            }),
    {
        StorageError::new(ErrorSubject::Logs, ErrorVerb::Read, source)
    }

    /// An error of writing the vote.
    pub fn write_vote(source: C::ErrorSource) -> (r: Self)
        ensures
            r == (StorageError::<C> {
                subject: ErrorSubject::Vote,
                verb: ErrorVerb::Write,
                source,
            }),
    {
        StorageError::new(ErrorSubject::Vote, ErrorVerb::Write, source)
    }

    /// An error of reading the vote.
    pub fn read_vote(source: C::ErrorSource) -> (r: Self)
        ensures
            r == (StorageError::<C> {
                subject: ErrorSubject::Vote,
                verb: ErrorVerb::Read,
                source,
            }),
    {
        StorageError::new(ErrorSubject::Vote, ErrorVerb::Read, source)
    }

    /// An error of applying a log entry to the state machine.
    pub fn apply(log_id: LogId, source: C::ErrorSource) -> (r: Self)
        ensures
            r == (StorageError::<C> {
                subject: ErrorSubject::Apply(log_id),
                verb: ErrorVerb::Write,
                source,
            }),
    {
        StorageError::new(ErrorSubject::Apply(log_id), ErrorVerb::Write, source)
    }

    /// An error of writing to the state machine.
    pub fn write_state_machine(source: C::ErrorSource) -> (r: Self)
        ensures
            r == (StorageError::<C> {
                subject: ErrorSubject::StateMachine,
                verb: ErrorVerb::Write,
                source,
            }),
    {
        StorageError::new(ErrorSubject::StateMachine, ErrorVerb::Write, source)
    }

    /// An error of reading from the state machine.
    pub fn read_state_machine(source: C::ErrorSource) -> (r: Self)
        ensures
            r == (StorageError::<C> {
                subject: ErrorSubject::StateMachine,
                verb: ErrorVerb::Read,
                source,
            }),
    {
        StorageError::new(ErrorSubject::StateMachine, ErrorVerb::Read, source)
    }

    /// An error of writing a snapshot.
    pub fn write_snapshot(signature: Option<SnapshotSignature>, source: C::ErrorSource) -> (r: Self)
        ensures
            r == (StorageError::<C> {
                subject: ErrorSubject::Snapshot(signature),
                verb: ErrorVerb::Write,
                source,
            }),
    {
        StorageError::new(ErrorSubject::Snapshot(signature), ErrorVerb::Write, source)
    }

    /// An error of reading a snapshot.
    pub fn read_snapshot(signature: Option<SnapshotSignature>, source: C::ErrorSource) -> (r: Self)
        ensures
            r == (StorageError::<C> {
                subject: ErrorSubject::Snapshot(signature),
                verb: ErrorVerb::Read,
                source,
            }),
    {
        StorageError::new(ErrorSubject::Snapshot(signature), ErrorVerb::Read, source)
    }

    /// A general error of reading.
    pub fn read(source: C::ErrorSource) -> (r: Self)
        ensures
            r == (StorageError::<C> {
                subject: ErrorSubject::Store,
                verb: ErrorVerb::Read,
                source,
            }),
    {
        StorageError::new(ErrorSubject::Store, ErrorVerb::Read, source)
    }

    /// A general error of writing.
    pub fn write(source: C::ErrorSource) -> (r: Self)
        ensures
            r == (StorageError::<C> {
                subject: ErrorSubject::Store,
                verb: ErrorVerb::Write,
                source,
            }),
    {
        StorageError::new(ErrorSubject::Store, ErrorVerb::Write, source)
    }
}

/// A result is wrapped as an error is: where `f` gives one subject and one verb, the errors that
/// [`ToStorageResult::sto_res`] may give are those that [`StorageError::from_io_error`] may give
/// with them.
pub proof fn results_are_wrapped_as_errors_are<
    C: RaftTypeConfig,
    F: FnOnce() -> (ErrorSubject, ErrorVerb),
>(f: F, subject: ErrorSubject, verb: ErrorVerb, io_error: std::io::Error, e: StorageError<C>)
    requires
        f.ensures((), (subject, verb)),
        forall|s: ErrorSubject, v: ErrorVerb| f.ensures((), (s, v)) ==> s == subject && v == verb,
    ensures
        e.wraps_io_error(subject, verb, io_error) <==> {
            &&& f.ensures((), (e.subject, e.verb))
            &&& e.wraps_io_error(e.subject, e.verb, io_error)
        },
{
}

/// An error that carries a message is wrapped in one way only: two errors that wrap it with one
/// subject and one verb have the same cause and the same text.
pub proof fn one_error_is_wrapped_alike<C: RaftTypeConfig>(
    subject: ErrorSubject,
    verb: ErrorVerb,
    io_error: std::io::Error,
    a: StorageError<C>,
    b: StorageError<C>,
)
    requires
        io_error_payload(io_error) is Some,
        a.wraps_io_error(subject, verb, io_error),
        b.wraps_io_error(subject, verb, io_error),
    ensures
        a.subject == b.subject,
        a.verb == b.verb,
        a.source.message() == b.source.message(),
        a.text() == b.text(),
{
}

/// An error tells of what was being done, to what, and of the message of the cause.
pub proof fn errors_wrap_their_cause<C: RaftTypeConfig>(
    subject: ErrorSubject,
    verb: ErrorVerb,
    io_error: std::io::Error,
    e: StorageError<C>,
    out: std::io::Error,
)
    ensures
        call_ensures(StorageError::<C>::from_io_error, (subject, verb, io_error), e) ==> {
            &&& e.subject == subject
            &&& e.verb == verb
            &&& is_io_error_text(io_error, e.source.message())
            &&& io_error_payload(io_error) matches Some(m) ==> e.source.message() == m
        },
        call_ensures(StorageError::<C>::into_io_error, (e,), out) ==> io_error_payload(out) == Some(
            "when "@ + e.verb.text() + " "@ + e.subject.text() + ": "@ + e.source.message(),
        ) && io_error_kind(out) == Some(IoErrorKind::Other),
{
}

/// Errors are named after what was being done and to what.
pub proof fn error_calls<C: RaftTypeConfig>(
    log_id: LogId,
    index: u64,
    signature: Option<SnapshotSignature>,
    source: C::ErrorSource,
    e: StorageError<C>,
)
    ensures
        call_ensures(StorageError::<C>::write_log_entry, (log_id, source), e) ==> e.subject
            == ErrorSubject::Log(log_id) && e.verb is Write && e.source == source,
        call_ensures(StorageError::<C>::read_log_entry, (log_id, source), e) ==> e.subject
            == ErrorSubject::Log(log_id) && e.verb is Read && e.source == source,
        call_ensures(StorageError::<C>::read_log_at_index, (index, source), e) ==> e.subject
            == ErrorSubject::LogIndex(index) && e.verb is Read && e.source == source,
        call_ensures(StorageError::<C>::write_logs, (source,), e) ==> e.subject is Logs
            && e.verb is Write && e.source == source,
        call_ensures(StorageError::<C>::read_logs, (source,), e) ==> e.subject is Logs
            && e.verb is Read && e.source == source,
        call_ensures(StorageError::<C>::write_vote, (source,), e) ==> e.subject is Vote
            && e.verb is Write && e.source == source,
        call_ensures(StorageError::<C>::read_vote, (source,), e) ==> e.subject is Vote
            && e.verb is Read && e.source == source,
        call_ensures(StorageError::<C>::apply, (log_id, source), e) ==> e.subject
            == ErrorSubject::Apply(log_id) && e.verb is Write && e.source == source,
        call_ensures(StorageError::<C>::write_state_machine, (source,), e)
            ==> e.subject is StateMachine && e.verb is Write && e.source == source,
        call_ensures(StorageError::<C>::read_state_machine, (source,), e)
            ==> e.subject is StateMachine && e.verb is Read && e.source == source,
        call_ensures(StorageError::<C>::write_snapshot, (signature, source), e) ==> e.subject
            == ErrorSubject::Snapshot(signature) && e.verb is Write && e.source == source,
        call_ensures(StorageError::<C>::read_snapshot, (signature, source), e) ==> e.subject
            == ErrorSubject::Snapshot(signature) && e.verb is Read && e.source == source,
        call_ensures(StorageError::<C>::read, (source,), e) ==> e.subject is Store && e.verb is Read
            && e.source == source,
        call_ensures(StorageError::<C>::write, (source,), e) ==> e.subject is Store
            && e.verb is Write && e.source == source,
{
}

} // verus!
