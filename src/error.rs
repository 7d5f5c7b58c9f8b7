use vstd::prelude::*;
use vstd::string::*;

verus! {

/// The decimal digits of `n`, most significant first, without sign or padding.
pub open spec fn decimal(n: nat) -> Seq<char>
    decreases n,
{
    let digits = seq!['0', '1', '2', '3', '4', '5', '6', '7', '8', '9'];
    if n < 10 {
        seq![digits[n as int]]
    } else {
        decimal(n / 10).push(digits[(n % 10) as int])
    }
}

/// The decimal digit `d`, as text.
fn digit_text(d: u16) -> (r: &'static str)
    requires
        d < 10,
    ensures
        r@ == seq![seq!['0', '1', '2', '3', '4', '5', '6', '7', '8', '9'][d as int]],
{
    proof {
        reveal_strlit("0");
        reveal_strlit("1");
        reveal_strlit("2");
        reveal_strlit("3");
        reveal_strlit("4");
        reveal_strlit("5");
        reveal_strlit("6");
        reveal_strlit("7");
        reveal_strlit("8");
        reveal_strlit("9");
    }
    if d == 0 {
        "0"
    } else if d == 1 {
        "1"
    } else if d == 2 {
        "2"
    } else if d == 3 {
        "3"
    } else if d == 4 {
        "4"
    } else if d == 5 {
        "5"
    } else if d == 6 {
        "6"
    } else if d == 7 {
        "7"
    } else if d == 8 {
        "8"
    } else {
        "9"
    }
}

/// The decimal digits of `n`.
fn status_text(n: u16) -> (r: String)
    ensures
        r@ == decimal(n as nat),
    decreases n,
{
    if n < 10 {
        String::from_str(digit_text(n))
    } else {
        let mut r = status_text(n / 10);
        r.append(digit_text(n % 10));
        r
    }
}

/// The kinds of failure that every layer of the pipeline reports.
#[derive(Clone, Debug, PartialEq, Eq)]
pub enum ErrorKind {
    /// The far end rejected the call.
    HttpResponse { status: u16, error_code: Option<String> },
    /// Transport-level I/O failure.
    Io,
    /// Malformed JSON, or a header that could not be parsed.
    DataConversion,
    /// A token could not be acquired.
    Credential,
    /// Anything else.
    Other,
}

/// How a kind reads when it is displayed.
pub open spec fn kind_text(kind: ErrorKind) -> Seq<char> {
    match kind {
        ErrorKind::HttpResponse { status, error_code } => "HttpResponse("@ + decimal(status as nat)
            + ", "@ + match error_code {
            Some(code) => code@,
            None => "unknown"@,
        } + ")"@,
        ErrorKind::Io => "Io"@,
        ErrorKind::DataConversion => "DataConversion"@,
        ErrorKind::Credential => "Credential"@,
        ErrorKind::Other => "Other"@,
    }
}

impl ErrorKind {
    /// An error of this kind, with no message and no cause.
    pub fn into_error(self) -> (r: Error)
        ensures
            r.kind_spec() == self,
            r.message_spec() is None,
            r.cause_spec() is None,
    {
        Error { kind: self, message: None, cause: None }
    }

    /// The kind as text: `HttpResponse(404, unknown)`, `Io`, ...
    pub fn display(&self) -> (r: String)
        ensures
            r@ == kind_text(*self),
    {
        proof {
            reveal_strlit("HttpResponse(");
            reveal_strlit(", ");
            reveal_strlit("unknown");
            reveal_strlit(")");
        }
        match self {
            ErrorKind::HttpResponse { status, error_code } => {
                let mut r = String::from_str("HttpResponse(");
                let digits = status_text(*status);
                r.append(digits.as_str());
                r.append(", ");
                match error_code {
                    Some(code) => r.append(code.as_str()),
                    None => r.append("unknown"),
                }
                r.append(")");
                r
            },
            ErrorKind::Io => String::from_str("Io"),
            ErrorKind::DataConversion => String::from_str("DataConversion"),
            ErrorKind::Credential => String::from_str("Credential"),
            ErrorKind::Other => String::from_str("Other"),
        }
    }
}

/// A failure: exactly one kind, with an optional human-readable message and
/// an optional underlying cause (held as the cause's own text).
#[derive(Debug)]
pub struct Error {
    kind: ErrorKind,
    message: Option<String>,
    cause: Option<String>,
}

impl Error {
    pub closed spec fn kind_spec(&self) -> ErrorKind {
        self.kind
    }

    pub closed spec fn message_spec(&self) -> Option<Seq<char>> {
        match self.message {
            Some(m) => Some(m@),
            None => None,
        }
    }

    pub closed spec fn cause_spec(&self) -> Option<Seq<char>> {
        match self.cause {
            Some(c) => Some(c@),
            None => None,
        }
    }

    /// An error of `kind` that wraps an underlying failure, given by its text.
    pub fn new(kind: ErrorKind, cause: String) -> (r: Error)
        ensures
            r.kind_spec() == kind,
            r.message_spec() is None,
            r.cause_spec() == Some(cause@),
    {
        Error { kind, message: None, cause: Some(cause) }
    }

    /// The kind of this error, however much was attached to it.
    pub fn kind(&self) -> (r: &ErrorKind)
        ensures
            *r == self.kind_spec(),
    {
        &self.kind
    }

    /// An error of `kind` with an explanation and no cause.
    pub fn message(kind: ErrorKind, message: String) -> (r: Error)
        ensures
            r.kind_spec() == kind,
            r.message_spec() == Some(message@),
            r.cause_spec() is None,
    {
        Error { kind, message: Some(message), cause: None }
    }

    /// As `message`, with the explanation computed only now.
    pub fn with_message<F: FnOnce() -> String>(kind: ErrorKind, message: F) -> (r: Error)
        requires
            call_requires(message, ()),
        ensures
            r.kind_spec() == kind,
            r.cause_spec() is None,
            exists|m: String| call_ensures(message, (), m) && r.message_spec() == Some(m@),
    {
        let m = message();
        let r = Error { kind, message: Some(m), cause: None };
        assert(call_ensures(message, (), m) && r.message_spec() == Some(m@));
        r
    }

    /// The underlying cause's text, if there is one.
    pub fn source(&self) -> (r: Option<&String>)
        ensures
            match r {
                Some(c) => self.cause_spec() == Some(c@),
                None => self.cause_spec() is None,
            },
    {
        match &self.cause {
            Some(c) => Some(c),
            None => None,
        }
    }

    /// The error as text: the message where there is one, else the cause,
    /// else the kind.
    pub fn display(&self) -> (r: String)
        ensures
            r@ == error_text(self.kind_spec(), self.message_spec(), self.cause_spec()),
    {
        match &self.message {
            Some(m) => m.clone(),
            None => match &self.cause {
                Some(c) => c.clone(),
                None => self.kind.display(),
            },
        }
    }

    /// Attaches an explanation to this error: it becomes the cause of an error
    /// of `kind` that carries `message`.
    pub fn context(self, kind: ErrorKind, message: String) -> (r: Error)
        ensures
            r.kind_spec() == kind,
            r.message_spec() == Some(message@),
            r.cause_spec() == Some(
                error_text(self.kind_spec(), self.message_spec(), self.cause_spec()),
            ),
    {
        let text = self.display();
        Error { kind, message: Some(message), cause: Some(text) }
    }
}

/// Marks the types that `ResultExt` is implemented for.
pub trait Sealed {
}

impl<T> Sealed for Result<T, Error> {
}

/// Adapters that turn the error of a fallible operation into the cause of a
/// new error.
pub trait ResultExt<T>: Sealed + Sized {
    /// The result that the adapters act on.
    spec fn outcome(self) -> Result<T, Error>;

    /// The error becomes the cause of an error of `kind`.
    fn map_kind(self, kind: ErrorKind) -> (r: Result<T, Error>)
        ensures
            match self.outcome() {
                Ok(v) => r == Ok::<T, Error>(v),
                Err(e) => r is Err && r->Err_0.kind_spec() == kind && r->Err_0.message_spec() is None
                    && r->Err_0.cause_spec() == Some(cause_text(e)),
            },
    ;

    /// The error becomes the cause of an error of `kind` that carries `message`.
    fn context(self, kind: ErrorKind, message: String) -> (r: Result<T, Error>)
        ensures
            match self.outcome() {
                Ok(v) => r == Ok::<T, Error>(v),
                Err(e) => r is Err && r->Err_0.kind_spec() == kind && r->Err_0.message_spec()
                    == Some(message@) && r->Err_0.cause_spec() == Some(cause_text(e)),
            },
    ;

    /// As `context`, with the message computed only on failure: on success
    /// the closure is not called.
    fn with_context<F: FnOnce() -> String>(self, kind: ErrorKind, message: F) -> (r: Result<
        T,
        Error,
    >)
        requires
            call_requires(message, ()),
        ensures
            match self.outcome() {
                Ok(v) => r == Ok::<T, Error>(v),
                Err(e) => r is Err && r->Err_0.kind_spec() == kind && r->Err_0.cause_spec() == Some(
                    cause_text(e),
                ) && exists|m: String|
                    call_ensures(message, (), m) && r->Err_0.message_spec() == Some(m@),
            },
    ;
}

impl<T> ResultExt<T> for Result<T, Error> {
    open spec fn outcome(self) -> Result<T, Error> {
        self
    }

    fn map_kind(self, kind: ErrorKind) -> (r: Result<T, Error>) {
        map_kind(self, kind)
    }

    fn context(self, kind: ErrorKind, message: String) -> (r: Result<T, Error>) {
        context(self, kind, message)
    }

    fn with_context<F: FnOnce() -> String>(self, kind: ErrorKind, message: F) -> (r: Result<
        T,
        Error,
    >) {
        match self {
            Ok(v) => Ok(v),
            Err(e) => {
                let m = message();
                let r = e.context(kind, m);
                assert(call_ensures(message, (), m) && r.message_spec() == Some(m@));
                Err(r)
            },
        }
    }
}

/// The text that an error becomes when it is wrapped as a cause.
pub open spec fn cause_text(e: Error) -> Seq<char> {
    error_text(e.kind_spec(), e.message_spec(), e.cause_spec())
}

/// A failure of `r` becomes the cause of an error of `kind`.
pub fn map_kind<T>(r: Result<T, Error>, kind: ErrorKind) -> (out: Result<T, Error>)
    ensures
        match r {
            Ok(v) => out == Ok::<T, Error>(v),
            Err(e) => out is Err && out->Err_0.kind_spec() == kind
                && out->Err_0.message_spec() is None
                && out->Err_0.cause_spec() == Some(cause_text(e)),
        },
{
    match r {
        Ok(v) => Ok(v),
        Err(e) => Err(Error::new(kind, e.display())),
    }
}

/// A failure of `r` becomes the cause of an error of `kind` carrying `message`.
pub fn context<T>(r: Result<T, Error>, kind: ErrorKind, message: String) -> (out: Result<T, Error>)
    ensures
        match r {
            Ok(v) => out == Ok::<T, Error>(v),
            Err(e) => out is Err && out->Err_0.kind_spec() == kind
                && out->Err_0.message_spec() == Some(message@)
                && out->Err_0.cause_spec() == Some(cause_text(e)),
        },
{
    match r {
        Ok(v) => Ok(v),
        Err(e) => Err(e.context(kind, message)),
    }
}

/// How an error reads when it is displayed.
pub open spec fn error_text(
    kind: ErrorKind,
    message: Option<Seq<char>>,
    cause: Option<Seq<char>>,
) -> Seq<char> {
    match message {
        Some(m) => m,
        None => match cause {
            Some(c) => c,
            None => kind_text(kind),
        },
    }
}

impl From<ErrorKind> for Error {
    fn from(kind: ErrorKind) -> (r: Error) {
        Error { kind, message: None, cause: None }
    }
}

impl vstd::std_specs::convert::FromSpecImpl<ErrorKind> for Error {
    open spec fn obeys_from_spec() -> bool {
        true
    }

    closed spec fn from_spec(kind: ErrorKind) -> Error {
        Error { kind, message: None, cause: None }
    }
}

/// An error made from a kind by `From` has that kind, and neither a message
/// nor a cause.
pub broadcast proof fn lemma_from_kind(kind: ErrorKind)
    ensures
        #[trigger] <Error as vstd::std_specs::convert::FromSpec<ErrorKind>>::from_spec(
            kind,
        ).kind_spec() == kind,
        <Error as vstd::std_specs::convert::FromSpec<ErrorKind>>::from_spec(
            kind,
        ).message_spec() is None,
        <Error as vstd::std_specs::convert::FromSpec<ErrorKind>>::from_spec(
            kind,
        ).cause_spec() is None,
{
}

} // verus!
