//! The closed set of errors and the envelope in which every operation
//! reports its outcome.
use vstd::prelude::*;
use vstd::string::StringExecFns;

verus! {

/// What went wrong inside the service when the fault is not the caller's.
#[derive(Debug, Clone, Copy, PartialEq, Eq, Structural)]
pub enum InternalKind {
    DatabaseError,
    CryptoError,
    IOError,
    SerializationError,
    UUIDError,
    UnknownBoxed,
}

impl InternalKind {
    /// The name under which the kind is reported.
    pub open spec fn label(self) -> Seq<char> {
        match self {
            InternalKind::DatabaseError => "DatabaseError"@,
            InternalKind::CryptoError => "CryptoError"@,
            InternalKind::IOError => "IOError"@,
            InternalKind::SerializationError => "SerializationError"@,
            InternalKind::UUIDError => "UUIDError"@,
            InternalKind::UnknownBoxed => "UnknownBoxed"@,
        }
    }

    /// The name under which the kind is reported.
    pub fn as_str(&self) -> (name: &'static str)
        ensures
            name@ == self.label(),
    {
        match self {
            InternalKind::DatabaseError => "DatabaseError",
            InternalKind::CryptoError => "CryptoError",
            InternalKind::IOError => "IOError",
            InternalKind::SerializationError => "SerializationError",
            InternalKind::UUIDError => "UUIDError",
            InternalKind::UnknownBoxed => "UnknownBoxed",
        }
    }
}

/// Every way in which an operation can fail.
#[derive(Debug)]
pub enum Error {
    NotFound { message: String },
    InternalError { kind: InternalKind, message: String },
    Unknown { message: String },
    MissingCredentials { message: String },
    UserAlreadyExists { message: String },
    UserDoesNotExist { message: String },
    AuthenticationFailure { message: String },
    InvalidPayload { message: String },
}

/// An [`Error`] as contracts see it: the same variants over sequences of
/// characters.
pub enum ErrorView {
    NotFound { message: Seq<char> },
    InternalError { kind: InternalKind, message: Seq<char> },
    Unknown { message: Seq<char> },
    MissingCredentials { message: Seq<char> },
    UserAlreadyExists { message: Seq<char> },
    UserDoesNotExist { message: Seq<char> },
    AuthenticationFailure { message: Seq<char> },
    InvalidPayload { message: Seq<char> },
}

impl ErrorView {
    /// The text that accompanies the error.
    pub open spec fn message(self) -> Seq<char> {
        match self {
            ErrorView::NotFound { message } => message,
            ErrorView::InternalError { message, .. } => message,
            ErrorView::Unknown { message } => message,
            ErrorView::MissingCredentials { message } => message,
            ErrorView::UserAlreadyExists { message } => message,
            ErrorView::UserDoesNotExist { message } => message,
            ErrorView::AuthenticationFailure { message } => message,
            ErrorView::InvalidPayload { message } => message,
        }
    }
}

impl View for Error {
    type V = ErrorView;

    open spec fn view(&self) -> ErrorView {
        match *self {
            Error::NotFound { message } => ErrorView::NotFound { message: message@ },
            Error::InternalError { kind, message } => ErrorView::InternalError {
                kind,
                message: message@,
            },
            Error::Unknown { message } => ErrorView::Unknown { message: message@ },
            Error::MissingCredentials { message } => ErrorView::MissingCredentials {
                message: message@,
            },
            Error::UserAlreadyExists { message } => ErrorView::UserAlreadyExists {
                message: message@,
            },
            Error::UserDoesNotExist { message } => ErrorView::UserDoesNotExist {
                message: message@,
            },
            Error::AuthenticationFailure { message } => ErrorView::AuthenticationFailure {
                message: message@,
            },
            Error::InvalidPayload { message } => ErrorView::InvalidPayload { message: message@ },
        }
    }
}

impl Clone for Error {
    fn clone(&self) -> (copy: Self)
        ensures
            copy@ == self@,
    {
        match self {
            Error::NotFound { message } => Error::NotFound { message: message.clone() },
            Error::InternalError { kind, message } => Error::InternalError {
                kind: *kind,
                message: message.clone(),
            },
            Error::Unknown { message } => Error::Unknown { message: message.clone() },
            Error::MissingCredentials { message } => Error::MissingCredentials {
                message: message.clone(),
            },
            Error::UserAlreadyExists { message } => Error::UserAlreadyExists {
                message: message.clone(),
            },
            Error::UserDoesNotExist { message } => Error::UserDoesNotExist {
                message: message.clone(),
            },
            Error::AuthenticationFailure { message } => Error::AuthenticationFailure {
                message: message.clone(),
            },
            Error::InvalidPayload { message } => Error::InvalidPayload { message: message.clone() },
        }
    }
}

impl Error {
    /// A failure that fits no other variant.
    pub fn unknown(msg: &str) -> (e: Error)
        ensures
            e@ == (ErrorView::Unknown { message: msg@ }),
    {
        Error::Unknown { message: msg.to_owned() }
    }

    /// A failure inside the service, of the given kind.
    pub fn internal(kind: InternalKind, message: String) -> (e: Error)
        ensures
            e@ == (ErrorView::InternalError { kind, message: message@ }),
    {
        Error::InternalError { kind, message }
    }

    /// The text that accompanies the error.
    pub fn message(&self) -> (text: &String)
        ensures
            text@ == self@.message(),
    {
        match self {
            Error::NotFound { message } => message,
            Error::InternalError { message, .. } => message,
            Error::Unknown { message } => message,
            Error::MissingCredentials { message } => message,
            Error::UserAlreadyExists { message } => message,
            Error::UserDoesNotExist { message } => message,
            Error::AuthenticationFailure { message } => message,
            Error::InvalidPayload { message } => message,
        }
    }
}

/// A value together with the flag that tells a client whether the operation
/// succeeded.
#[derive(Debug)]
pub struct Success<V> {
    success: bool,
    value: V,
}

/// A [`Success`] as contracts see it.
pub struct SuccessView<V> {
    pub success: bool,
    pub value: V,
}

impl<V> Success<V> {
    /// The flag a client branches on.
    pub closed spec fn flag(&self) -> bool {
        self.success
    }

    /// The wrapped value.
    pub closed spec fn payload(&self) -> V {
        self.value
    }

    /// Wraps the payload of an operation that succeeded.
    pub fn of(value: V) -> (s: Self)
        ensures
            s.flag(),
            s.payload() == value,
    {
        Self { success: true, value }
    }

    /// The flag a client branches on.
    pub fn succeeded(&self) -> (flag: bool)
        ensures
            flag == self.flag(),
    {
        self.success
    }

    /// The wrapped value.
    pub fn value(&self) -> (v: &V)
        ensures
            *v == self.payload(),
    {
        &self.value
    }

    /// Gives the wrapped value up.
    pub fn into_value(self) -> (v: V)
        ensures
            v == self.payload(),
    {
        self.value
    }
}

impl<V: View> View for Success<V> {
    type V = SuccessView<V::V>;

    open spec fn view(&self) -> SuccessView<V::V> {
        SuccessView { success: self.flag(), value: self.payload()@ }
    }
}

/// The envelope of every answer: the payload of a success, or the error of a
/// failure, each under its success flag.
#[derive(Debug)]
pub enum Maybe<T> {
    Nothing(Success<Error>),
    Fine(Success<T>),
}

/// A [`Maybe`] as contracts see it.
pub enum MaybeView<T> {
    Nothing(SuccessView<ErrorView>),
    Fine(SuccessView<T>),
}

impl<T> MaybeView<T> {
    /// The flag is set exactly on the variant that carries a payload.
    pub open spec fn wf(self) -> bool {
        match self {
            MaybeView::Nothing(s) => !s.success,
            MaybeView::Fine(s) => s.success,
        }
    }
}

impl<T: View> View for Maybe<T> {
    type V = MaybeView<T::V>;

    open spec fn view(&self) -> MaybeView<T::V> {
        match self {
            Maybe::Nothing(s) => MaybeView::Nothing(s@),
            Maybe::Fine(s) => MaybeView::Fine(s@),
        }
    }
}

/// The envelope of a success that carries `value`.
pub open spec fn fine<T>(value: T) -> MaybeView<T> {
    MaybeView::Fine(SuccessView { success: true, value })
}

/// The envelope of a failure with `error`.
pub open spec fn nothing<T>(error: ErrorView) -> MaybeView<T> {
    MaybeView::Nothing(SuccessView { success: false, value: error })
}

/// Wraps the payload of an operation that succeeded.
pub fn Fine<V: View>(v: V) -> (m: Maybe<V>)
    ensures
        m@ == fine(v@),
{
    Maybe::Fine(Success::of(v))
}

/// Wraps the error of an operation that failed.
pub fn Nothing<V: View>(err: Error) -> (m: Maybe<V>)
    ensures
        m@ == nothing::<V::V>(err@),
{
    Maybe::Nothing(Success { success: false, value: err })
}

/// The outcome of an operation, with a model for contracts.
pub trait Outcome {
    /// The outcome as contracts see it.
    type Seen;

    /// The outcome as contracts see it.
    spec fn seen(&self) -> Self::Seen;
}

/// What is handed to the transport. Every operation of this crate hands
/// over an envelope, which is the `Ok` side: a failure inside the service is
/// reported in it like any other. The `Err` side is for what goes wrong
/// before an operation begins.
pub type Payload<T> = Result<Maybe<T>, Error>;

/// A [`Payload`] as contracts see it.
pub type PayloadView<T> = Result<MaybeView<T>, ErrorView>;

impl<T: View> Outcome for Result<Maybe<T>, Error> {
    type Seen = Result<MaybeView<T::V>, ErrorView>;

    open spec fn seen(&self) -> Self::Seen {
        match self {
            Ok(envelope) => Ok(envelope@),
            Err(e) => Err(e@),
        }
    }
}

/// The payload of a success that carries `value`.
pub open spec fn granted<T>(value: T) -> PayloadView<T> {
    Ok(fine(value))
}

/// The payload of a failure that is reported in an envelope.
pub open spec fn refused<T>(error: ErrorView) -> PayloadView<T> {
    Ok(nothing(error))
}

/// The payload of a success that carries `value`.
pub fn proceeds<V: View>(value: V) -> (p: Payload<V>)
    ensures
        p.seen() == granted(value@),
{
    Ok(Fine(value))
}

/// The payload of a failure that the client is told about in an envelope.
pub fn breaks<V: View>(err: Error) -> (p: Payload<V>)
    ensures
        p.seen() == refused::<V::V>(err@),
{
    Ok(Nothing(err))
}

/// The payload of an internal failure whose kind is not known.
pub fn bails<V: View>(err: &str) -> (p: Payload<V>)
    ensures
        p.seen() == refused::<V::V>(
            ErrorView::InternalError { kind: InternalKind::UnknownBoxed, message: err@ },
        ),
{
    Ok(Nothing(Error::InternalError { kind: InternalKind::UnknownBoxed, message: err.to_owned() }))
}

/// The text of the error for a request body that could not be read.
pub open spec fn invalid_payload_text(reason: Seq<char>) -> Seq<char> {
    "Invalid payload: "@ + reason
}

/// The text of the error for a path that leads nowhere.
pub open spec fn invalid_path_text(path: Seq<char>) -> Seq<char> {
    "Invalid path: "@ + path
}

/// The error for a request body that was rejected for `reason`.
pub fn handle_json_error(reason: &str) -> (e: Error)
    ensures
        e@ == (ErrorView::InvalidPayload { message: invalid_payload_text(reason@) }),
{
    Error::InvalidPayload { message: "Invalid payload: ".to_owned().concat(reason) }
}

/// The error for a request to a path that no operation serves.
pub fn handler404(path: &str) -> (e: Error)
    ensures
        e@ == (ErrorView::NotFound { message: invalid_path_text(path@) }),
{
    Error::NotFound { message: "Invalid path: ".to_owned().concat(path) }
}

} // verus!
