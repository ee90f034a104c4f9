//! The wire records of the translation API: the request item and the pieces
//! of a response element.

use vstd::prelude::*;

verus! {

/// One text to translate; the request body is a one-element list of these,
/// serialized with the member name `Text`.
#[derive(Debug, Clone, PartialEq)]
pub struct TextItem {
    pub text: String,
}

/// One translated string together with the language it was translated to.
#[derive(Debug, Clone, PartialEq)]
pub struct Translation {
    pub text: String,
    pub to: String,
}

/// The language the service detected for the source text. The wire record
/// also carries a floating-point confidence score; it is validated as a
/// number when a response is read, but not kept, since nothing here reads it.
#[derive(Debug, Clone, PartialEq)]
pub struct DetectedLanguage {
    pub language: String,
}

/// One element of a translation response: the detected source language and
/// the translations of one input text.
#[derive(Debug, Clone, PartialEq)]
pub struct TranslationItem {
    pub detected_language: DetectedLanguage,
    pub translations: Vec<Translation>,
}

impl Default for TextItem {
    fn default() -> (r: Self)
        ensures
            r.text@ == Seq::<char>::empty(),
    {
        TextItem { text: String::new() }
    }
}

impl Default for Translation {
    fn default() -> (r: Self)
        ensures
            r.text@ == Seq::<char>::empty(),
            r.to@ == Seq::<char>::empty(),
    {
        Translation { text: String::new(), to: String::new() }
    }
}

impl Default for DetectedLanguage {
    fn default() -> (r: Self)
        ensures
            r.language@ == Seq::<char>::empty(),
    {
        DetectedLanguage { language: String::new() }
    }
}

impl Default for TranslationItem {
    fn default() -> (r: Self)
        ensures
            r.detected_language.language@ == Seq::<char>::empty(),
            r.translations@ =~= Seq::<Translation>::empty(),
    {
        TranslationItem { detected_language: DetectedLanguage { language: String::new() }, translations: Vec::new() }
    }
}

} // verus!
