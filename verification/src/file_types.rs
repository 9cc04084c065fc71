//! The output formats that the engine knows by name.

use crate::utils::same_text;
use vstd::prelude::*;

verus! {

/// A format in which recognised text can be rendered.
#[derive(Debug, Clone, Copy, PartialEq, Eq, Structural)]
pub enum OutputFileFormat {
    PDF,
    ALTO,
    HOCR,
    TSV,
    TXT,
    OSD,
}

/// A call by which the engine hands back what it read from the image it
/// holds.
#[derive(Debug, Clone, Copy, PartialEq, Eq, Structural)]
pub enum Extraction {
    /// The plain text.
    Utf8Text,
    /// The text as hOCR, for the page of the given number.
    HocrText { page: i32 },
    /// The text as TSV, for the page of the given number.
    TsvText { page: i32 },
}

impl OutputFileFormat {
    /// The lower-case name of the format.
    pub open spec fn name_spec(self) -> Seq<char> {
        match self {
            OutputFileFormat::PDF => "pdf"@,
            OutputFileFormat::ALTO => "alto"@,
            OutputFileFormat::HOCR => "hocr"@,
            OutputFileFormat::TSV => "tsv"@,
            OutputFileFormat::TXT => "txt"@,
            OutputFileFormat::OSD => "osd"@,
        }
    }

    /// The format that goes by a name, if any does.
    pub open spec fn named(name: Seq<char>) -> Option<OutputFileFormat> {
        if name == "txt"@ {
            Some(OutputFileFormat::TXT)
        } else if name == "tsv"@ {
            Some(OutputFileFormat::TSV)
        } else if name == "hocr"@ {
            Some(OutputFileFormat::HOCR)
        } else if name == "pdf"@ {
            Some(OutputFileFormat::PDF)
        } else if name == "alto"@ {
            Some(OutputFileFormat::ALTO)
        } else if name == "osd"@ {
            Some(OutputFileFormat::OSD)
        } else {
            None
        }
    }

    /// The engine's extraction call for the format. Plain text, hOCR and TSV
    /// have one, the last two for the first page, which is all a single image
    /// has; the other formats are known by name only.
    pub open spec fn extraction_spec(self) -> Option<Extraction> {
        match self {
            OutputFileFormat::TXT => Some(Extraction::Utf8Text),
            OutputFileFormat::HOCR => Some(Extraction::HocrText { page: 0 }),
            OutputFileFormat::TSV => Some(Extraction::TsvText { page: 0 }),
            _ => None,
        }
    }

    /// Whether the engine has an extraction call for the format.
    pub open spec fn extractable(self) -> bool {
        self.extraction_spec() is Some
    }

    /// Returns the lower-case name of the format.
    pub fn get_type(&self) -> (name: &str)
        ensures
            name@ == self.name_spec(),
    {
        match self {
            OutputFileFormat::PDF => "pdf",
            OutputFileFormat::ALTO => "alto",
            OutputFileFormat::HOCR => "hocr",
            OutputFileFormat::TSV => "tsv",
            OutputFileFormat::TXT => "txt",
            OutputFileFormat::OSD => "osd",
        }
    }

    /// Finds the format that goes by a name. Names are matched exactly: no
    /// other case, no surrounding blanks.
    pub fn from_type(name: &str) -> (format: Option<OutputFileFormat>)
        ensures
            format == Self::named(name@),
    {
        if same_text(name, "txt") {
            Some(OutputFileFormat::TXT)
        } else if same_text(name, "tsv") {
            Some(OutputFileFormat::TSV)
        } else if same_text(name, "hocr") {
            Some(OutputFileFormat::HOCR)
        } else if same_text(name, "pdf") {
            Some(OutputFileFormat::PDF)
        } else if same_text(name, "alto") {
            Some(OutputFileFormat::ALTO)
        } else if same_text(name, "osd") {
            Some(OutputFileFormat::OSD)
        } else {
            None
        }
    }

    /// Picks the engine's extraction call for the format.
    pub fn extraction(&self) -> (call: Option<Extraction>)
        ensures
            call == self.extraction_spec(),
    {
        match self {
            OutputFileFormat::TXT => Some(Extraction::Utf8Text),
            OutputFileFormat::HOCR => Some(Extraction::HocrText { page: 0 }),
            OutputFileFormat::TSV => Some(Extraction::TsvText { page: 0 }),
            _ => None,
        }
    }

    /// Whether the engine has an extraction call for the format.
    pub fn is_extractable(&self) -> (yes: bool)
        ensures
            yes == self.extractable(),
    {
        match self {
            OutputFileFormat::TXT | OutputFileFormat::TSV | OutputFileFormat::HOCR => true,
            _ => false,
        }
    }

    /// Every format is found again by its own name, and a name finds no
    /// format but the one it belongs to.
    pub proof fn lemma_named_inverts_name(format: OutputFileFormat, name: Seq<char>)
        ensures
            Self::named(format.name_spec()) == Some(format),
            Self::named(name) == Some(format) <==> name == format.name_spec(),
    {
        // No two names are alike: those of one length differ in their first
        // letter, `tsv` and `txt` in their second.
        reveal_strlit("pdf");
        reveal_strlit("alto");
        reveal_strlit("hocr");
        reveal_strlit("tsv");
        reveal_strlit("txt");
        reveal_strlit("osd");
        assert("pdf"@.len() == 3 && "pdf"@[0] == 'p');
        assert("alto"@.len() == 4 && "alto"@[0] == 'a');
        assert("hocr"@.len() == 4 && "hocr"@[0] == 'h');
        assert("tsv"@.len() == 3 && "tsv"@[0] == 't' && "tsv"@[1] == 's');
        assert("txt"@.len() == 3 && "txt"@[0] == 't' && "txt"@[1] == 'x');
        assert("osd"@.len() == 3 && "osd"@[0] == 'o');
    }
}

} // verus!
