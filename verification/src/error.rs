//! The ways in which a request can fail.

use crate::units::Unit;
use vstd::prelude::*;
use vstd::string::StringExecFns;

verus! {

/// One of the three fields of a conversion request.
#[derive(Clone, Copy, Debug, PartialEq, Eq, Structural)]
pub enum Field {
    From,
    To,
    Value,
}

impl Field {
    /// The name of the field as the user writes it.
    pub open spec fn spec_name(self) -> Seq<char> {
        match self {
            Field::From => "from"@,
            Field::To => "to"@,
            Field::Value => "value"@,
        }
    }

    /// The name of the field as the user writes it.
    pub fn name(&self) -> (name: &'static str)
        ensures
            name@ == self.spec_name(),
    {
        match self {
            Field::From => "from",
            Field::To => "to",
            Field::Value => "value",
        }
    }
}

/// Why a request failed. Every failure ends the request; none is retried.
#[derive(Debug, PartialEq, Eq)]
pub enum ErrorKind {
    /// A field of the request was not given.
    MissingField(Field),
    /// The value is not a number.
    InvalidNumber,
    /// The text names no unit; it is carried along.
    UnsupportedUnit(String),
    /// The two units belong to different families.
    IncompatibleUnits(Unit, Unit),
    /// The history store could not be read or written, or its content
    /// could not be understood; the store's own message is carried along.
    IOFailure(String),
}

/// An error with its texts as sequences of characters.
pub enum ErrorView {
    MissingField(Field),
    InvalidNumber,
    UnsupportedUnit(Seq<char>),
    IncompatibleUnits(Unit, Unit),
    IOFailure(Seq<char>),
}

impl ErrorView {
    /// The message shown to the user for this error.
    pub open spec fn message(self) -> Seq<char> {
        match self {
            ErrorView::MissingField(field) => "Nilai `"@ + field.spec_name() + "` wajib diisi."@,
            ErrorView::InvalidNumber => "Pastikan value adalah number"@,
            ErrorView::UnsupportedUnit(text) => "Unit "@ + text + " tidak didukung"@,
            ErrorView::IncompatibleUnits(from, to) => "Konversi unit "@ + from.label()
                + " ke unit "@ + to.label() + " tidak didukung"@,
            ErrorView::IOFailure(text) => text,
        }
    }
}

impl View for ErrorKind {
    type V = ErrorView;

    open spec fn view(&self) -> ErrorView {
        match self {
            ErrorKind::MissingField(field) => ErrorView::MissingField(*field),
            ErrorKind::InvalidNumber => ErrorView::InvalidNumber,
            ErrorKind::UnsupportedUnit(text) => ErrorView::UnsupportedUnit(text@),
            ErrorKind::IncompatibleUnits(from, to) => ErrorView::IncompatibleUnits(*from, *to),
            ErrorKind::IOFailure(text) => ErrorView::IOFailure(text@),
        }
    }
}

impl ErrorKind {
    /// The message shown to the user for this error.
    pub fn message(&self) -> (message: String)
        ensures
            message@ == self@.message(),
    {
        match self {
            ErrorKind::MissingField(field) => String::from_str("Nilai `").concat(
                field.name(),
            ).concat("` wajib diisi."),
            ErrorKind::InvalidNumber => String::from_str("Pastikan value adalah number"),
            ErrorKind::UnsupportedUnit(text) => String::from_str("Unit ").concat(
                text.as_str(),
            ).concat(" tidak didukung"),
            ErrorKind::IncompatibleUnits(from, to) => {
                let from_label = from.as_unit();
                let to_label = to.as_unit();
                String::from_str("Konversi unit ").concat(from_label.as_str()).concat(
                    " ke unit ",
                ).concat(to_label.as_str()).concat(" tidak didukung")
            },
            ErrorKind::IOFailure(text) => text.clone(),
        }
    }
}

} // verus!
