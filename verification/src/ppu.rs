//! A plate code with everything that follows from it.

use vstd::prelude::*;
use crate::checksum::{calculate_verifier, verifier_of};
use crate::errors::PpuError;
use crate::format::{format_of, scan_ppu, PpuFormat};
use crate::normalize::{
    canonical_form, is_canonical, lemma_canonical_numeric, lemma_normalize_canonical,
    normalize_outcome,
};
use crate::numeric::{numeric_of, ppu_to_numeric};

verus! {

/// A recognised plate code: the text as it was given, its layout, its
/// canonical form, the number that the canonical form writes and the check
/// character of that number.
///
/// A value is made by [`Ppu::new`] alone and never changes, so the five
/// parts always belong together: see [`Ppu::wf`].
#[derive(Debug)]
pub struct Ppu {
    raw: String,
    numeric: u32,
    normalized: String,
    verifier: char,
    format: PpuFormat,
}

impl Ppu {
    /// The text as it was given.
    pub closed spec fn raw_text(&self) -> Seq<char> {
        self.raw@
    }

    /// The canonical form.
    pub closed spec fn normalized_text(&self) -> Seq<char> {
        self.normalized@
    }

    /// The number that the canonical form writes.
    pub closed spec fn numeric_value(&self) -> u32 {
        self.numeric
    }

    /// The check character.
    pub closed spec fn verifier_char(&self) -> char {
        self.verifier
    }

    /// The layout.
    pub closed spec fn layout(&self) -> PpuFormat {
        self.format
    }

    /// The parts belong together: the layout and the canonical form are
    /// those of the given text, the number is the one that the canonical
    /// form writes, and the check character is that of the number.
    pub open spec fn wf(&self) -> bool {
        &&& format_of(self.raw_text()) == Some(self.layout())
        &&& normalize_outcome(self.raw_text()) == Ok::<Seq<char>, crate::errors::PpuFault>(
            self.normalized_text(),
        )
        &&& is_canonical(self.normalized_text())
        &&& numeric_of(self.normalized_text()) == Some(self.numeric_value())
        &&& self.verifier_char() == verifier_of(self.numeric_value() as nat)
    }

    #[verifier::type_invariant]
    spec fn well_formed(&self) -> bool {
        self.wf()
    }

    /// Recognises, normalizes and numbers a raw code and computes its check
    /// character.
    ///
    /// Succeeds exactly when the code has a canonical form; otherwise the
    /// error is the one that normalization gives.
    pub fn new(ppu: &str) -> (out: Result<Ppu, PpuError>)
        ensures
            match out {
                Ok(p) => p.wf() && p.raw_text() == ppu@,
                Err(e) => normalize_outcome(ppu@) == Err::<Seq<char>, crate::errors::PpuFault>(e@),
            },
    {
        let (stripped, format) = match scan_ppu(ppu) {
            Some(found) => found,
            None => {
                return Err(PpuError::UnknownFormat { ppu: ppu.to_owned() });
            },
        };
        let normalized = match canonical_form(&stripped, format) {
            Ok(text) => text,
            Err(e) => {
                return Err(e);
            },
        };
        proof {
            lemma_normalize_canonical(ppu@);
            lemma_canonical_numeric(normalized@);
        }
        let numeric: u32 = ppu_to_numeric(normalized.as_str()).unwrap();
        let verifier: char = calculate_verifier(numeric).unwrap();
        Ok(Ppu { raw: ppu.to_owned(), numeric, normalized, verifier, format })
    }

    /// The text as it was given. Every value is well formed.
    pub fn raw(&self) -> (s: &str)
        ensures
            s@ == self.raw_text(),
            self.wf(),
    {
        proof {
            use_type_invariant(self);
        }
        self.raw.as_str()
    }

    /// The canonical form: six digits.
    pub fn normalized(&self) -> (s: &str)
        ensures
            s@ == self.normalized_text(),
            self.wf(),
    {
        proof {
            use_type_invariant(self);
        }
        self.normalized.as_str()
    }

    /// The number that the canonical form writes.
    pub fn numeric(&self) -> (v: u32)
        ensures
            v == self.numeric_value(),
            self.wf(),
    {
        proof {
            use_type_invariant(self);
        }
        self.numeric
    }

    /// The check character of the number.
    pub fn check_char(&self) -> (c: char)
        ensures
            c == self.verifier_char(),
            self.wf(),
    {
        proof {
            use_type_invariant(self);
        }
        self.verifier
    }

    /// The pattern of the layout, as [`PpuFormat::as_str`] gives it.
    pub fn format(&self) -> (s: String)
        ensures
            s@ == self.layout().pattern(),
            self.wf(),
    {
        proof {
            use_type_invariant(self);
        }
        self.format.as_str().to_owned()
    }

    /// The canonical form, a hyphen and the check character.
    pub fn complete(&self) -> (s: String)
        ensures
            s@ == self.normalized_text() + seq!['-', self.verifier_char()],
    {
        let mut s = self.normalized.clone();
        s.push('-');
        s.push(self.verifier);
        proof {
            assert(s@ =~= self.normalized_text() + seq!['-', self.verifier_char()]);
        }
        s
    }
}

} // verus!
