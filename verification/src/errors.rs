use vstd::prelude::*;

verus! {

/// The error kinds that the rename pipeline can report for one file.
///
/// `Message` carries a path-related complaint, `TypeMismatch` and
/// `DatetimeParse` come from the datetime normalizer, `BadDatetimeFormat`
/// flags an invalid strftime pattern, `CodecProbe` aborts the file whose
/// stream could not be probed, `TemplateCompile` and `Render` carry the
/// template engine's complaints, `Collision` refuses to overwrite an
/// existing destination, and `Io` stands for a failed rename.
#[derive(Debug, Clone, PartialEq, Eq)]
pub enum Error {
    Message(String),
    TypeMismatch,
    DatetimeParse(String),
    BadDatetimeFormat,
    CodecProbe(String),
    TemplateCompile(String),
    Render(String),
    Collision(String),
    Io(String),
}

} // verus!
