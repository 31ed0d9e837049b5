//! What can go wrong, and how each failure is worded.

use vstd::prelude::*;
use vstd::string::*;
use vstd::utf8;

use crate::text;

verus! {

/// The kinds of I/O failure that the daemon tells apart.
#[derive(Debug, Clone, Copy, PartialEq, Eq, Structural)]
pub enum IoErrorKind {
    /// The stream ended before the buffer was full.
    UnexpectedEof,
    /// A signal arrived before the call was done.
    Interrupted,
    /// Anything else.
    Other,
}

/// A failed read, write or file access: its kind and how the system words it.
#[derive(Debug)]
pub struct IoError {
    pub kind: IoErrorKind,
    pub text: String,
}

/// A failed system call: whether a signal cut it short, and how the system
/// words the failure.
#[derive(Debug)]
pub struct NixError {
    pub interrupted: bool,
    pub text: String,
}

/// A string that cannot be handed to the system because it holds a zero byte,
/// with the position of the first one among the string's bytes.
#[derive(Debug, Clone, Copy, PartialEq, Eq, Structural)]
pub struct NulError {
    pub position: usize,
}

/// Whatever can go wrong.
#[derive(Debug)]
pub enum Error {
    Config(String),
    Auth(String),
    Io(IoError),
    Nix(NixError),
    Nul(NulError),
    Other(String),
}

/// The contents of an [`IoError`].
pub struct IoErrorView {
    pub kind: IoErrorKind,
    pub text: Seq<char>,
}

/// The contents of a [`NixError`].
pub struct NixErrorView {
    pub interrupted: bool,
    pub text: Seq<char>,
}

/// The contents of an [`Error`].
pub enum ErrorView {
    Config(Seq<char>),
    Auth(Seq<char>),
    Io(IoErrorView),
    Nix(NixErrorView),
    Nul(NulError),
    Other(Seq<char>),
}

impl View for IoError {
    type V = IoErrorView;

    open spec fn view(&self) -> IoErrorView {
        IoErrorView { kind: self.kind, text: self.text@ }
    }
}

impl View for NixError {
    type V = NixErrorView;

    open spec fn view(&self) -> NixErrorView {
        NixErrorView { interrupted: self.interrupted, text: self.text@ }
    }
}

impl View for Error {
    type V = ErrorView;

    open spec fn view(&self) -> ErrorView {
        match self {
            Error::Config(text) => ErrorView::Config(text@),
            Error::Auth(text) => ErrorView::Auth(text@),
            Error::Io(error) => ErrorView::Io(error@),
            Error::Nix(error) => ErrorView::Nix(error@),
            Error::Nul(error) => ErrorView::Nul(*error),
            Error::Other(text) => ErrorView::Other(text@),
        }
    }
}

impl ErrorView {
    /// How the failure is worded to a person.
    pub open spec fn message(self) -> Seq<char> {
        match self {
            ErrorView::Config(text) => "config error: "@ + text,
            ErrorView::Auth(text) => "auth error: "@ + text,
            ErrorView::Io(error) => "io error: "@ + error.text,
            ErrorView::Nix(error) => "nix error: "@ + error.text,
            ErrorView::Nul(error) => "nul error: "@
                + "nul byte found in provided data at position: "@ + text::decimal(
                error.position as nat,
            ),
            ErrorView::Other(text) => text,
        }
    }
}

/// The contents of an outcome, whether it succeeded or failed.
pub open spec fn outcome<T: View>(r: Result<T, Error>) -> Result<T::V, ErrorView> {
    match r {
        Ok(value) => Ok(value@),
        Err(error) => Err(error@),
    }
}

/// Puts `prefix` in front of `text`.
pub fn prefixed(prefix: &str, text: &str) -> (r: String)
    ensures
        r@ == prefix@ + text@,
{
    let mut r = prefix.to_string();
    r.append(text);
    r
}

impl Error {
    /// Words the failure for a person.
    pub fn to_string(&self) -> (r: String)
        ensures
            r@ == self@.message(),
    {
        match self {
            Error::Config(text) => prefixed("config error: ", text.as_str()),
            Error::Auth(text) => prefixed("auth error: ", text.as_str()),
            Error::Io(error) => prefixed("io error: ", error.text.as_str()),
            Error::Nix(error) => prefixed("nix error: ", error.text.as_str()),
            Error::Nul(error) => {
                let head = prefixed("nul error: ", "nul byte found in provided data at position: ");
                prefixed(head.as_str(), text::decimal_text(error.position as u64).as_str())
            },
            Error::Other(text) => text.clone(),
        }
    }
}

impl From<IoError> for Error {
    fn from(error: IoError) -> (r: Self) {
        Error::Io(error)
    }
}

impl vstd::std_specs::convert::FromSpecImpl<IoError> for Error {
    open spec fn obeys_from_spec() -> bool {
        true
    }

    open spec fn from_spec(error: IoError) -> Error {
        Error::Io(error)
    }
}

impl From<NixError> for Error {
    fn from(error: NixError) -> (r: Self) {
        Error::Nix(error)
    }
}

impl vstd::std_specs::convert::FromSpecImpl<NixError> for Error {
    open spec fn obeys_from_spec() -> bool {
        true
    }

    open spec fn from_spec(error: NixError) -> Error {
        Error::Nix(error)
    }
}

impl From<NulError> for Error {
    fn from(error: NulError) -> (r: Self) {
        Error::Nul(error)
    }
}

impl vstd::std_specs::convert::FromSpecImpl<NulError> for Error {
    open spec fn obeys_from_spec() -> bool {
        true
    }

    open spec fn from_spec(error: NulError) -> Error {
        Error::Nul(error)
    }
}

impl From<String> for Error {
    fn from(text: String) -> (r: Self) {
        Error::Other(text)
    }
}

impl vstd::std_specs::convert::FromSpecImpl<String> for Error {
    open spec fn obeys_from_spec() -> bool {
        true
    }

    open spec fn from_spec(text: String) -> Error {
        Error::Other(text)
    }
}

impl<'a> From<&'a str> for Error {
    fn from(text: &'a str) -> (r: Self)
        ensures
            r@ == ErrorView::Other(text@),
    {
        Error::Other(text.to_string())
    }
}

impl<'a> vstd::std_specs::convert::FromSpecImpl<&'a str> for Error {
    open spec fn obeys_from_spec() -> bool {
        false
    }

    open spec fn from_spec(text: &'a str) -> Error {
        arbitrary()
    }
}

/// What becomes of `text` when the system is to take it as a string: the text
/// itself, or a failure that tells where its first zero byte stands.
#[verifier::opaque]
pub open spec fn c_text(text: Seq<char>) -> Result<Seq<char>, ErrorView> {
    let bytes = utf8::encode_utf8(text);
    if text::nul_free(bytes) {
        Ok(text)
    } else {
        let position = choose|position: int| text::first_nul_at(bytes, position);
        Err(ErrorView::Nul(NulError { position: position as usize }))
    }
}

/// What becomes of several texts: all of them, or the failure of the first one
/// that the system cannot take.
#[verifier::opaque]
pub open spec fn c_texts(texts: Seq<Seq<char>>) -> Result<Seq<Seq<char>>, ErrorView> {
    if forall|i: int| 0 <= i < texts.len() ==> (#[trigger] c_text(texts[i])) is Ok {
        Ok(texts)
    } else {
        Err(c_text(texts[first_refused(texts)])->Err_0)
    }
}

/// The first of the texts that the system cannot take.
pub open spec fn first_refused(texts: Seq<Seq<char>>) -> int {
    choose|i: int|
        {
            &&& 0 <= i < texts.len()
            &&& c_text(texts[i]) is Err
            &&& forall|j: int| 0 <= j < i ==> (#[trigger] c_text(texts[j])) is Ok
        }
}

/// A text or a list of texts that the system can take is taken as it is.
pub proof fn c_text_is_kept(text: Seq<char>, texts: Seq<Seq<char>>)
    ensures
        c_text(text) matches Ok(kept) ==> kept == text,
        c_texts(texts) matches Ok(kept) ==> kept == texts,
{
    reveal(c_text);
    reveal(c_texts);
}

/// Hands `text` back if the system can take it as a string, that is, if it
/// holds no zero byte.
pub fn c_string(text: String) -> (r: Result<String, Error>)
    ensures
        outcome(r) == c_text(text@),
        match r {
            Ok(same) => same == text && text::nul_free(utf8::encode_utf8(text@)),
            Err(error) => error matches Error::Nul(nul) && text::first_nul_at(
                utf8::encode_utf8(text@),
                nul.position as int,
            ),
        },
{
    reveal(c_text);
    match text::first_nul(text.as_str().as_bytes()) {
        Some(position) => {
            proof {
                let bytes = utf8::encode_utf8(text@);
                let chosen = choose|position: int| text::first_nul_at(bytes, position);
                assert(text::first_nul_at(bytes, position as int));
                assert(bytes[position as int] == 0);
                assert(chosen == position);
            }
            Err(Error::from(NulError { position }))
        },
        None => Ok(text),
    }
}

/// Hands the texts back if the system can take each of them as a string.
pub fn c_strings(texts: Vec<String>) -> (r: Result<Vec<String>, Error>)
    ensures
        match r {
            Ok(same) => same == texts && c_texts(texts.deep_view()) == Ok::<
                Seq<Seq<char>>,
                ErrorView,
            >(texts.deep_view()),
            Err(error) => c_texts(texts.deep_view()) == Err::<Seq<Seq<char>>, ErrorView>(error@),
        },
{
    reveal(c_texts);
    let ghost all = texts.deep_view();
    let mut i: usize = 0;
    while i < texts.len()
        invariant
            i <= texts.len(),
            all == texts.deep_view(),
            forall|j: int| 0 <= j < i ==> (#[trigger] c_text(all[j])) is Ok,
        decreases texts.len() - i,
    {
        match c_string(texts[i].clone()) {
            Ok(_) => {},
            Err(error) => {
                proof {
                    reveal(c_texts);
                    assert(c_text(all[i as int]) is Err);
                    assert(first_refused(all) == i) by {
                        let k = first_refused(all);
                        assert(c_text(all[k]) is Err);
                    }
                }
                return Err(error);
            },
        }
        i = i + 1;
    }
    Ok(texts)
}

/// Each failure is worded by what failed and by what is said of it.
pub proof fn failures_are_worded(error: ErrorView)
    ensures
        error matches ErrorView::Config(text) ==> error.message() == "config error: "@ + text,
        error matches ErrorView::Auth(text) ==> error.message() == "auth error: "@ + text,
        error matches ErrorView::Io(io) ==> error.message() == "io error: "@ + io.text,
        error matches ErrorView::Nix(nix) ==> error.message() == "nix error: "@ + nix.text,
        error matches ErrorView::Nul(nul) ==> error.message()
            == "nul error: nul byte found in provided data at position: "@ + text::decimal(
            nul.position as nat,
        ),
        error matches ErrorView::Other(text) ==> error.message() == text,
{
    reveal_strlit("nul error: ");
    reveal_strlit("nul byte found in provided data at position: ");
    reveal_strlit("nul error: nul byte found in provided data at position: ");
    assert("nul error: "@ + "nul byte found in provided data at position: "@
        =~= "nul error: nul byte found in provided data at position: "@);
}

/// A failure keeps everything that is known of it.
pub proof fn failures_are_kept(
    io: IoError,
    nix: NixError,
    nul: NulError,
    text: String,
)
    ensures
        Error::Io(io)@ == ErrorView::Io(IoErrorView { kind: io.kind, text: io.text@ }),
        Error::Nix(nix)@ == ErrorView::Nix(
            NixErrorView { interrupted: nix.interrupted, text: nix.text@ },
        ),
        Error::Nul(nul)@ == ErrorView::Nul(nul),
        Error::Config(text)@ == ErrorView::Config(text@),
        Error::Auth(text)@ == ErrorView::Auth(text@),
        Error::Other(text)@ == ErrorView::Other(text@),
        <Error as vstd::std_specs::convert::FromSpec<IoError>>::from_spec(io) == Error::Io(io),
        <Error as vstd::std_specs::convert::FromSpec<NixError>>::from_spec(nix) == Error::Nix(nix),
        <Error as vstd::std_specs::convert::FromSpec<NulError>>::from_spec(nul) == Error::Nul(nul),
        <Error as vstd::std_specs::convert::FromSpec<String>>::from_spec(text) == Error::Other(
            text,
        ),
{
}

/// The contents of an outcome are those of its value or of its failure.
pub proof fn outcomes_are_kept<T: View>(value: T, error: Error)
    ensures
        outcome(Ok::<T, Error>(value)) == Ok::<T::V, ErrorView>(value@),
        outcome(Err::<T, Error>(error)) == Err::<T::V, ErrorView>(error@),
{
}

/// The system takes a text, and takes it as it is, exactly where none of its
/// bytes is zero; else the failure tells the position of the first zero byte.
pub proof fn zero_bytes_are_refused(text: Seq<char>)
    requires
        utf8::encode_utf8(text).len() <= usize::MAX,
    ensures
        !utf8::encode_utf8(text).contains(0) ==> c_text(text) == Ok::<Seq<char>, ErrorView>(text),
        utf8::encode_utf8(text).contains(0) ==> {
            &&& c_text(text) matches Err(ErrorView::Nul(nul))
            &&& nul.position < utf8::encode_utf8(text).len()
            &&& utf8::encode_utf8(text)[nul.position as int] == 0
            &&& !utf8::encode_utf8(text).take(nul.position as int).contains(0)
        },
{
    reveal(c_text);
    let bytes = utf8::encode_utf8(text);
    text::first_zero_has_one_position(bytes, 0, 0);
    if bytes.contains(0) {
        lemma_first_nul_exists(bytes);
        let position = choose|position: int| text::first_nul_at(bytes, position);
        text::first_zero_has_one_position(bytes, position, position);
        text::first_zero_has_one_position(bytes.take(position), 0, 0);
    }
}

proof fn lemma_first_nul_exists(bytes: Seq<u8>)
    requires
        bytes.contains(0),
    ensures
        exists|position: int| text::first_nul_at(bytes, position),
    decreases bytes.len(),
{
    let earlier = bytes.drop_last();
    if earlier.contains(0) {
        lemma_first_nul_exists(earlier);
        let position = choose|position: int| text::first_nul_at(earlier, position);
        assert forall|i: int| 0 <= i < position implies bytes[i] != 0 by {
            assert(earlier[i] == bytes[i]);
        }
        assert(bytes[position] == earlier[position]);
        assert(text::first_nul_at(bytes, position));
    } else {
        let n = bytes.len() - 1;
        let k = choose|k: int| 0 <= k < bytes.len() && bytes[k] == 0;
        if k < n {
            assert(earlier[k] == 0);
        }
        assert forall|i: int| 0 <= i < n implies bytes[i] != 0 by {
            assert(earlier[i] == bytes[i]);
        }
        assert(text::first_nul_at(bytes, n));
    }
}

/// The system takes a list of texts, and takes it as it is, exactly where it
/// takes each of them; else the list fails as the first text does that fails.
pub proof fn first_refused_text_decides(texts: Seq<Seq<char>>, i: int)
    ensures
        (forall|j: int| 0 <= j < texts.len() ==> (#[trigger] c_text(texts[j])) is Ok) ==> c_texts(
            texts,
        ) == Ok::<Seq<Seq<char>>, ErrorView>(texts),
        0 <= i < texts.len() && c_text(texts[i]) is Err && (forall|j: int|
            0 <= j < i ==> (#[trigger] c_text(texts[j])) is Ok) ==> c_texts(texts) == Err::<
            Seq<Seq<char>>,
            ErrorView,
        >(c_text(texts[i])->Err_0),
{
    reveal(c_texts);
    if 0 <= i < texts.len() && c_text(texts[i]) is Err && (forall|j: int|
        0 <= j < i ==> (#[trigger] c_text(texts[j])) is Ok) {
        let k = first_refused(texts);
        assert(0 <= k < texts.len() && c_text(texts[k]) is Err);
        assert(k == i);
    }
}

} // verus!
