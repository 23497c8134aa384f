use vstd::prelude::*;
use vstd::string::*;

verus! {

/// `std::io::Error`, carried from a failed read to the caller unopened.
#[verifier::external_type_specification]
#[verifier::external_body]
pub struct ExIoError(std::io::Error);

/// Everything that can go wrong while reading the battery's attributes.
#[derive(Debug)]
pub enum Error {
    /// Attribute text that could not be turned into a typed value.
    TryFromConversion,
    /// A failed read of an attribute file.
    IOError(std::io::Error),
    /// An attribute file that was read but held no text.
    SysFsBatteryItem,
    /// An attribute path that is missing or is not a regular file.
    SysFsBatteryItemPath(String),
    /// An attribute name that the loader does not know.
    SysFsBatteryItemUnknown(String),
    /// A device path that is missing or is not a directory.
    SysFsBatteryPath(String),
}

/// An error with its texts as character sequences.
pub enum ErrorView {
    TryFromConversion,
    IOError(std::io::Error),
    SysFsBatteryItem,
    SysFsBatteryItemPath(Seq<char>),
    SysFsBatteryItemUnknown(Seq<char>),
    SysFsBatteryPath(Seq<char>),
}

impl View for Error {
    type V = ErrorView;

    open spec fn view(&self) -> ErrorView {
        match self {
            Error::TryFromConversion => ErrorView::TryFromConversion,
            Error::IOError(e) => ErrorView::IOError(*e),
            Error::SysFsBatteryItem => ErrorView::SysFsBatteryItem,
            Error::SysFsBatteryItemPath(p) => ErrorView::SysFsBatteryItemPath(p@),
            Error::SysFsBatteryItemUnknown(i) => ErrorView::SysFsBatteryItemUnknown(i@),
            Error::SysFsBatteryPath(p) => ErrorView::SysFsBatteryPath(p@),
        }
    }
}

impl From<std::io::Error> for Error {
    fn from(e: std::io::Error) -> (r: Error)
        ensures
            r == Error::IOError(e),
    {
        Error::IOError(e)
    }
}

impl vstd::std_specs::convert::FromSpecImpl<std::io::Error> for Error {
    open spec fn obeys_from_spec() -> bool {
        true
    }

    open spec fn from_spec(e: std::io::Error) -> Error {
        Error::IOError(e)
    }
}

/// The message that describes an error; `cause` is what a failed read
/// reports of itself.
pub open spec fn message_text(e: ErrorView, cause: Seq<char>) -> Seq<char> {
    match e {
        ErrorView::TryFromConversion => "A conversion error occurred."@,
        ErrorView::IOError(_) => "An IO error occurred: "@ + cause,
        ErrorView::SysFsBatteryItem => "The requested item is empty."@,
        ErrorView::SysFsBatteryItemPath(p) => p + " is not a file."@,
        ErrorView::SysFsBatteryItemUnknown(i) => i + " is an unknown item."@,
        ErrorView::SysFsBatteryPath(p) => p + " is not a directory."@,
    }
}

/// Relies on `std::io::Error`'s `Display`, through `to_string`; what it says
/// depends on the system, so nothing is stated of it.
#[verifier::external_body]
fn io_error_text(e: &std::io::Error) -> (r: String) {
    e.to_string()
}

/// The message for a failed read whose cause reads `cause`.
pub fn io_message(cause: &str) -> (r: String)
    ensures
        r@ == "An IO error occurred: "@ + cause@,
{
    String::from_str("An IO error occurred: ").concat(cause)
}

impl Error {
    /// A human-readable description of the error.
    pub fn message(&self) -> (r: String)
        ensures
            exists|cause: Seq<char>| r@ == message_text(self@, cause),
            !(self is IOError) ==> r@ == message_text(self@, Seq::empty()),
    {
        let r = match self {
            Error::TryFromConversion => String::from_str("A conversion error occurred."),
            Error::IOError(e) => {
                let cause = io_error_text(e);
                let r = io_message(cause.as_str());
                assert(r@ == message_text(self@, cause@));
                return r;
            },
            Error::SysFsBatteryItem => String::from_str("The requested item is empty."),
            Error::SysFsBatteryItemPath(p) => p.clone().concat(" is not a file."),
            Error::SysFsBatteryItemUnknown(i) => i.clone().concat(" is an unknown item."),
            Error::SysFsBatteryPath(p) => p.clone().concat(" is not a directory."),
        };
        assert(r@ == message_text(self@, Seq::empty()));
        r
    }
}

} // verus!
