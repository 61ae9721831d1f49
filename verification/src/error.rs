//! The application error: a kind that decides how the error is reported, a message, and
//! what the errors it was chained from display.

use vstd::prelude::*;

verus! {

/// Coarse category of an application error; the HTTP API picks status codes by it.
#[derive(Debug, Clone, Copy, PartialEq, Eq, Hash, Structural)]
pub enum AppErrorKind {
    Input,
    NotFound,
    Rule,
    Infrastructure,
    Catastrophic,
}

/// An application error, by value: its kind, its message, and what the errors it was
/// chained from display, nearest first.
pub struct AppErrorView {
    pub kind: AppErrorKind,
    pub message: Seq<char>,
    pub causes: Seq<Seq<char>>,
}

/// The unified high-level error of the application.
#[derive(Debug, Clone)]
pub struct AppError {
    kind: AppErrorKind,
    message: String,
    causes: Vec<String>,
}

/// The texts of some strings.
pub open spec fn texts(v: Seq<String>) -> Seq<Seq<char>> {
    v.map_values(|s: String| s@)
}

impl View for AppError {
    type V = AppErrorView;

    closed spec fn view(&self) -> AppErrorView {
        AppErrorView { kind: self.kind, message: self.message@, causes: texts(self.causes@) }
    }
}

/// An error of `kind` with `message` and no underlying error.
pub open spec fn spec_app_error(kind: AppErrorKind, message: Seq<char>) -> AppErrorView {
    AppErrorView { kind, message, causes: Seq::empty() }
}

/// An error of `kind` with `message`, chained from errors that display `causes`, nearest
/// first.
pub open spec fn spec_chained_error(
    kind: AppErrorKind,
    causes: Seq<Seq<char>>,
    message: Seq<char>,
) -> AppErrorView {
    AppErrorView { kind, message, causes }
}

/// A message followed by the texts of the errors beneath it, each after `": "`, as the
/// alternate display of an error chain shows them.
pub open spec fn chain_text(message: Seq<char>, causes: Seq<Seq<char>>) -> Seq<char>
    decreases causes.len(),
{
    if causes.len() == 0 {
        message
    } else {
        chain_text(message, causes.drop_last()) + ": "@ + causes.last()
    }
}

/// An error that can be described in words, with the errors beneath it, when an
/// application error is chained from it.
pub trait ErrorSource {
    /// What the error displays.
    spec fn spec_describe(&self) -> Seq<char>;

    /// What the errors beneath it display, nearest first.
    spec fn spec_causes(&self) -> Seq<Seq<char>>;

    fn describe(&self) -> (r: String)
        ensures
            r@ == self.spec_describe(),
    ;

    fn causes(&self) -> (r: Vec<String>)
        ensures
            texts(r@) == self.spec_causes(),
    ;
}

/// No cause.
pub(crate) fn no_causes() -> (r: Vec<String>)
    ensures
        texts(r@) == Seq::<Seq<char>>::empty(),
{
    let r: Vec<String> = Vec::new();
    assert(texts(r@) =~= Seq::<Seq<char>>::empty());
    r
}

/// One cause, displaying `s`.
pub(crate) fn single_cause(s: String) -> (r: Vec<String>)
    ensures
        texts(r@) == seq![s@],
{
    let mut r: Vec<String> = Vec::new();
    r.push(s);
    assert(texts(r@) =~= seq![r@[0]@]);
    r
}

/// A copy of some strings.
fn copy_texts(v: &Vec<String>) -> (r: Vec<String>)
    ensures
        texts(r@) == texts(v@),
{
    let mut out: Vec<String> = Vec::new();
    let mut i: usize = 0;
    while i < v.len()
        invariant
            i <= v@.len(),
            texts(out@) == texts(v@.take(i as int)),
        decreases v@.len() - i,
    {
        out.push(v[i].clone());
        assert(texts(v@.take(i + 1)) =~= texts(v@.take(i as int)).push(v@[i as int]@));
        assert(texts(out@) =~= texts(v@.take(i as int)).push(v@[i as int]@)) by {
            assert(texts(out@).drop_last() =~= texts(out@.drop_last()));
        }
        i = i + 1;
    }
    assert(v@.take(v@.len() as int) =~= v@);
    out
}

/// The causes of an error chained from `source`: what it displays, then what is beneath it.
fn source_chain<E: ErrorSource>(source: &E) -> (r: Vec<String>)
    ensures
        texts(r@) == seq![source.spec_describe()] + source.spec_causes(),
{
    let mut causes = source.causes();
    let ghost before = causes@;
    causes.insert(0, source.describe());
    assert(texts(causes@) =~= seq![source.spec_describe()] + texts(before));
    causes
}

impl AppError {
    /// An error of `kind` from `error`, keeping what it displays and what is beneath it.
    pub fn new<E: ErrorSource>(kind: AppErrorKind, error: E) -> (r: Self)
        ensures
            r@ == spec_chained_error(kind, error.spec_causes(), error.spec_describe()),
    {
        AppError { kind, message: error.describe(), causes: error.causes() }
    }

    /// An error of `kind` that only carries `message`.
    pub fn message(kind: AppErrorKind, message: String) -> (r: Self)
        ensures
            r@ == spec_app_error(kind, message@),
    {
        AppError { kind, message, causes: no_causes() }
    }

    pub fn input(message: String) -> (r: Self)
        ensures
            r@ == spec_app_error(AppErrorKind::Input, message@),
    {
        Self::message(AppErrorKind::Input, message)
    }

    pub fn not_found(message: String) -> (r: Self)
        ensures
            r@ == spec_app_error(AppErrorKind::NotFound, message@),
    {
        Self::message(AppErrorKind::NotFound, message)
    }

    pub fn rule(message: String) -> (r: Self)
        ensures
            r@ == spec_app_error(AppErrorKind::Rule, message@),
    {
        Self::message(AppErrorKind::Rule, message)
    }

    pub fn infrastructure(message: String) -> (r: Self)
        ensures
            r@ == spec_app_error(AppErrorKind::Infrastructure, message@),
    {
        Self::message(AppErrorKind::Infrastructure, message)
    }

    pub fn catastrophic(message: String) -> (r: Self)
        ensures
            r@ == spec_app_error(AppErrorKind::Catastrophic, message@),
    {
        Self::message(AppErrorKind::Catastrophic, message)
    }

    /// An infrastructure error: `message` says what was attempted, `source` (with the
    /// errors beneath it) the failure underneath.
    pub fn chain_infrastructure<E: ErrorSource>(source: E, message: String) -> (r: Self)
        ensures
            r@ == spec_chained_error(
                AppErrorKind::Infrastructure,
                seq![source.spec_describe()] + source.spec_causes(),
                message@,
            ),
    {
        AppError { kind: AppErrorKind::Infrastructure, message, causes: source_chain(&source) }
    }

    /// A catastrophic error: `message` says what was attempted, `source` (with the errors
    /// beneath it) the failure underneath.
    pub fn chain_catastrophic<E: ErrorSource>(source: E, message: String) -> (r: Self)
        ensures
            r@ == spec_chained_error(
                AppErrorKind::Catastrophic,
                seq![source.spec_describe()] + source.spec_causes(),
                message@,
            ),
    {
        AppError { kind: AppErrorKind::Catastrophic, message, causes: source_chain(&source) }
    }

    pub fn kind(&self) -> (r: AppErrorKind)
        ensures
            r == self@.kind,
    {
        self.kind
    }

    /// The outermost message: what the error displays.
    pub fn description(&self) -> (r: &str)
        ensures
            r@ == self@.message,
    {
        self.message.as_str()
    }

    /// What the error this one was chained from displays.
    pub fn source_description(&self) -> (r: Option<&str>)
        ensures
            match r {
                Some(s) => self@.causes.len() > 0 && s@ == self@.causes[0],
                None => self@.causes.len() == 0,
            },
    {
        if self.causes.len() > 0 {
            Some(self.causes[0].as_str())
        } else {
            None
        }
    }

    /// The whole chain: the message, then what each error beneath displays, separated by
    /// `": "`, as the alternate display of the error shows it.
    pub fn chained_description(&self) -> (r: String)
        ensures
            r@ == chain_text(self@.message, self@.causes),
    {
        let mut out = self.message.clone();
        let mut i: usize = 0;
        while i < self.causes.len()
            invariant
                i <= self.causes@.len(),
                out@ == chain_text(self.message@, texts(self.causes@).take(i as int)),
            decreases self.causes@.len() - i,
        {
            let ghost before = out@;
            let sep = String::from_str(": ");
            out = out.concat(sep.as_str()).concat(self.causes[i].as_str());
            proof {
                let t = texts(self.causes@).take(i + 1);
                assert(t.drop_last() =~= texts(self.causes@).take(i as int));
                assert(t.last() == self.causes@[i as int]@);
            }
            i = i + 1;
        }
        assert(texts(self.causes@).take(self.causes@.len() as int) =~= texts(self.causes@));
        out
    }
}

impl ErrorSource for String {
    open spec fn spec_describe(&self) -> Seq<char> {
        self@
    }

    open spec fn spec_causes(&self) -> Seq<Seq<char>> {
        Seq::empty()
    }

    fn describe(&self) -> (r: String) {
        self.clone()
    }

    fn causes(&self) -> (r: Vec<String>) {
        no_causes()
    }
}

impl ErrorSource for AppError {
    open spec fn spec_describe(&self) -> Seq<char> {
        self@.message
    }

    open spec fn spec_causes(&self) -> Seq<Seq<char>> {
        self@.causes
    }

    fn describe(&self) -> (r: String) {
        self.message.clone()
    }

    fn causes(&self) -> (r: Vec<String>) {
        copy_texts(&self.causes)
    }
}

/// Replacing the error of a `Result` by an application error.
pub trait AppResultExt<T>: Sized {
    /// Any error becomes an infrastructure error with `message`; the error itself is dropped.
    fn throw_infrastructure(self, message: String) -> Result<T, AppError>;

    /// Any error becomes a catastrophic error with `message`; the error itself is dropped.
    fn throw_catastrophic(self, message: String) -> Result<T, AppError>;
}

impl<T, E> AppResultExt<T> for Result<T, E> {
    fn throw_infrastructure(self, message: String) -> (r: Result<T, AppError>)
        ensures
            match self {
                Ok(v) => r == Ok::<T, AppError>(v),
                Err(_) => r is Err && r->Err_0@ == spec_app_error(
                    AppErrorKind::Infrastructure,
                    message@,
                ),
            },
    {
        match self {
            Ok(v) => Ok(v),
            Err(_) => Err(AppError::infrastructure(message)),
        }
    }

    fn throw_catastrophic(self, message: String) -> (r: Result<T, AppError>)
        ensures
            match self {
                Ok(v) => r == Ok::<T, AppError>(v),
                Err(_) => r is Err && r->Err_0@ == spec_app_error(
                    AppErrorKind::Catastrophic,
                    message@,
                ),
            },
    {
        match self {
            Ok(v) => Ok(v),
            Err(_) => Err(AppError::catastrophic(message)),
        }
    }
}

/// Chaining an application error from the error of a `Result`.
pub trait HasIntoAnyhowError<T, E>: Sized {
    /// The error is turned into an application error by `f`.
    fn convert_err<F: FnOnce(E) -> AppError>(self, f: F) -> Result<T, AppError>
        requires
            forall|e: E| f.requires((e,)),
    ;

    /// The error becomes the source of an infrastructure error with `message`.
    fn chain_infrastructure(self, message: String) -> Result<T, AppError>;

    /// The error becomes the source of a catastrophic error with `message`.
    fn chain_catastrophic(self, message: String) -> Result<T, AppError>;
}

impl<T, E: ErrorSource> HasIntoAnyhowError<T, E> for Result<T, E> {
    fn convert_err<F: FnOnce(E) -> AppError>(self, f: F) -> (r: Result<T, AppError>)
        ensures
            self is Ok ==> r is Ok && r->Ok_0 == self->Ok_0,
            self is Err ==> r is Err && f.ensures((self->Err_0,), r->Err_0),
    {
        match self {
            Ok(v) => Ok(v),
            Err(e) => Err(f(e)),
        }
    }

    fn chain_infrastructure(self, message: String) -> (r: Result<T, AppError>)
        ensures
            match self {
                Ok(v) => r == Ok::<T, AppError>(v),
                Err(e) => r is Err && r->Err_0@ == spec_chained_error(
                    AppErrorKind::Infrastructure,
                    seq![e.spec_describe()] + e.spec_causes(),
                    message@,
                ),
            },
    {
        match self {
            Ok(v) => Ok(v),
            Err(e) => Err(AppError::chain_infrastructure(e, message)),
        }
    }

    fn chain_catastrophic(self, message: String) -> (r: Result<T, AppError>)
        ensures
            match self {
                Ok(v) => r == Ok::<T, AppError>(v),
                Err(e) => r is Err && r->Err_0@ == spec_chained_error(
                    AppErrorKind::Catastrophic,
                    seq![e.spec_describe()] + e.spec_causes(),
                    message@,
                ),
            },
    {
        match self {
            Ok(v) => Ok(v),
            Err(e) => Err(AppError::chain_catastrophic(e, message)),
        }
    }
}

/// Turning an absent value into a not-found error.
pub trait HasOption<T>: Sized {
    /// An absent value becomes the error that `f` makes.
    fn unwrap_none_to_err<F: FnOnce() -> AppError>(self, f: F) -> Result<T, AppError>
        requires
            f.requires(()),
    ;

    /// An absent value becomes a not-found error with `message`.
    fn throw_not_found(self, message: String) -> Result<T, AppError>;
}

impl<T> HasOption<T> for Result<Option<T>, AppError> {
    fn unwrap_none_to_err<F: FnOnce() -> AppError>(self, f: F) -> (r: Result<T, AppError>)
        ensures
            match self {
                Ok(Some(v)) => r == Ok::<T, AppError>(v),
                Ok(None) => r is Err && f.ensures((), r->Err_0),
                Err(e) => r == Err::<T, AppError>(e),
            },
    {
        match self {
            Ok(Some(v)) => Ok(v),
            Ok(None) => Err(f()),
            Err(e) => Err(e),
        }
    }

    fn throw_not_found(self, message: String) -> (r: Result<T, AppError>)
        ensures
            match self {
                Ok(Some(v)) => r == Ok::<T, AppError>(v),
                Ok(None) => r is Err && r->Err_0@ == spec_app_error(
                    AppErrorKind::NotFound,
                    message@,
                ),
                Err(e) => r == Err::<T, AppError>(e),
            },
    {
        match self {
            Ok(Some(v)) => Ok(v),
            Ok(None) => Err(AppError::not_found(message)),
            Err(e) => Err(e),
        }
    }
}

} // verus!
