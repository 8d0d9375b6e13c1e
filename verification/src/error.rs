//! The kinds of file the library works on and the ways an operation can fail.
use crate::path::{extension_in, extension_of, extension_start, file_name_bounds, file_name_of,
    has_extension};
use crate::text::{chars_of, equals_at};
use vstd::prelude::*;

verus! {

/// A kind of file, told by the extension of its name.
#[derive(Clone, Copy, Debug, PartialEq, Eq)]
pub enum FileKind {
    /// A package container.
    Container,
    /// A content object found inside a container.
    InnerContent,
    /// A ticket, which holds a title key.
    Ticket,
}

impl FileKind {
    /// The extension that files of this kind have.
    pub open spec fn ext(self) -> Seq<char> {
        match self {
            FileKind::Container => seq!['n', 's', 'p'],
            FileKind::InnerContent => seq!['n', 'c', 'a'],
            FileKind::Ticket => seq!['t', 'i', 'k'],
        }
    }

    /// The extension that files of this kind have.
    pub fn extension(self) -> (s: &'static str)
        ensures
            s@ == self.ext(),
    {
        proof {
            reveal_strlit("nsp");
            reveal_strlit("nca");
            reveal_strlit("tik");
        }
        match self {
            FileKind::Container => "nsp",
            FileKind::InnerContent => "nca",
            FileKind::Ticket => "tik",
        }
    }

    /// Whether the file name of `path` has the extension of this kind.
    pub open spec fn accepts(self, path: Seq<char>) -> bool {
        extension_of(path) == Some(self.ext())
    }

    /// Tests whether the file name of `path` has the extension of this kind.
    pub fn admits(self, path: &str) -> (b: bool)
        ensures
            b == self.accepts(path@),
    {
        let chars = chars_of(path);
        let ext = chars_of(self.extension());
        has_extension(chars.as_slice(), ext.as_slice())
    }
}

/// Why an operation failed.
#[derive(Clone, Debug, PartialEq, Eq)]
pub enum Error {
    /// The extension of the path is not that of the expected kind of file.
    WrongFileKind {
        /// The file name of the offending path.
        file_name: String,
        /// The kind of file that was asked for.
        expected: FileKind,
    },
    /// The path names no file.
    MissingFile,
    /// The tool could not be run, or what it printed is not text.
    ExternalToolFailure,
    /// No line of the tool's report holds the content type marker.
    MarkerNotFound,
    /// The content type that the tool reported is none of the known ones.
    UnrecognizedContentType {
        /// The field of the report that was read as the content type.
        token: String,
    },
}

/// What an [`Error`] holds, in mathematical terms.
pub ghost enum ErrorView {
    WrongFileKind { file_name: Seq<char>, expected: FileKind },
    MissingFile,
    ExternalToolFailure,
    MarkerNotFound,
    UnrecognizedContentType { token: Seq<char> },
}

impl View for Error {
    type V = ErrorView;

    open spec fn view(&self) -> ErrorView {
        match self {
            Error::WrongFileKind { file_name, expected } => ErrorView::WrongFileKind {
                file_name: file_name@,
                expected: *expected,
            },
            Error::MissingFile => ErrorView::MissingFile,
            Error::ExternalToolFailure => ErrorView::ExternalToolFailure,
            Error::MarkerNotFound => ErrorView::MarkerNotFound,
            Error::UnrecognizedContentType { token } => ErrorView::UnrecognizedContentType {
                token: token@,
            },
        }
    }
}

/// What is wrong with `path` where a file of kind `kind` is asked for:
/// `MissingFile` where it has no file name; nothing where the extension of
/// its file name is that of the kind; else `WrongFileKind`, with the file
/// name, whether that has another extension or none.
pub open spec fn kind_error(path: Seq<char>, kind: FileKind) -> Option<ErrorView> {
    match file_name_of(path) {
        None => Some(ErrorView::MissingFile),
        Some(name) => if extension_in(name) == Some(kind.ext()) {
            None
        } else {
            Some(ErrorView::WrongFileKind { file_name: name, expected: kind })
        },
    }
}

/// Checks that `path` names a file of kind `kind`.
pub fn check_kind(path: &str, kind: FileKind) -> (r: Result<(), Error>)
    ensures
        match r {
            Ok(_) => kind_error(path@, kind) is None,
            Err(e) => kind_error(path@, kind) == Some(e@),
        },
{
    let chars = chars_of(path);
    let (from, to) = match file_name_bounds(chars.as_slice()) {
        Some(bounds) => bounds,
        None => { return Err(Error::MissingFile); },
    };
    let ext = chars_of(kind.extension());
    let same = match extension_start(chars.as_slice(), from, to) {
        Some(at) => equals_at(chars.as_slice(), at, to, ext.as_slice()),
        None => false,
    };
    if same {
        Ok(())
    } else {
        Err(Error::WrongFileKind {
            file_name: path.substring_char(from, to).to_owned(),
            expected: kind,
        })
    }
}

} // verus!
