//! The commit identifier for the revision label. The lookup is best effort:
//! when it fails the label carries a sentinel instead and the pipeline goes
//! on.
use vstd::prelude::*;
use vstd::string::*;
use vstd::utf8::*;
use crate::image::ImageReference;
use crate::labels::{label_key, labels_for, LabelKind, LabelOptions};
use crate::text::{chars_of, strip_range, substring, trim, Strip};

verus! {

/// What the version-control tool told of the current commit.
#[derive(Clone, Debug, PartialEq, Eq)]
pub enum RevisionLookup {
    /// The commit identifier.
    Resolved(String),
    /// The tool could not run, failed, or printed no text.
    Unavailable,
}

/// What the revision label holds when the lookup fails.
pub open spec fn unknown_revision() -> Seq<char> {
    "unknown"@
}

/// The lookup's result for the tool's exit status and standard output: the
/// output, decoded and trimmed, when the tool succeeded and printed valid
/// UTF-8.
pub open spec fn lookup_from(succeeded: bool, stdout: Seq<u8>) -> Option<Seq<char>> {
    if succeeded && valid_utf8(stdout) {
        Some(trim(decode_utf8(stdout)))
    } else {
        None
    }
}

/// The text that the revision label carries for a lookup's result.
pub open spec fn revision_text(lookup: Option<Seq<char>>) -> Seq<char> {
    match lookup {
        Some(s) => s,
        None => unknown_revision(),
    }
}

/// The lookup as the text it resolved to, if any.
pub open spec fn lookup_view(lookup: RevisionLookup) -> Option<Seq<char>> {
    match lookup {
        RevisionLookup::Resolved(s) => Some(s@),
        RevisionLookup::Unavailable => None,
    }
}

/// When the version-control tool exits with a failure, whatever it printed,
/// the image is still labelled, and its revision label holds `unknown`.
pub proof fn lemma_failed_lookup_labels_unknown(
    stdout: Seq<u8>,
    options: LabelOptions,
    image: ImageReference,
    created: Seq<char>,
)
    ensures
        lookup_from(false, stdout) is None,
        ({
            let labels = labels_for(options, image, revision_text(lookup_from(false, stdout)), created);
            labels.len() >= 4 && labels[2] == (label_key(LabelKind::Revision), "unknown"@)
        }),
{
}

/// Relies on `String::from_utf8`: it succeeds exactly on valid UTF-8 and
/// then holds the characters that the bytes encode.
#[verifier::external_body]
fn utf8_string(bytes: Vec<u8>) -> (r: Option<String>)
    ensures
        r is Some <==> valid_utf8(bytes@),
        r matches Some(s) ==> s@ == decode_utf8(bytes@),
{
    String::from_utf8(bytes).ok()
}

/// Interprets the tool's exit status and standard output.
pub fn revision_from_output(succeeded: bool, stdout: Vec<u8>) -> (r: RevisionLookup)
    ensures
        lookup_view(r) == lookup_from(succeeded, stdout@),
{
    if !succeeded {
        return RevisionLookup::Unavailable;
    }
    match utf8_string(stdout) {
        None => RevisionLookup::Unavailable,
        Some(text) => {
            let chars = chars_of(text.as_str());
            let (a, b) = strip_range(&chars, 0, chars.len(), Strip::Whitespace);
            assert(chars@.subrange(0, chars@.len() as int) =~= chars@);
            RevisionLookup::Resolved(substring(text.as_str(), a, b))
        },
    }
}

impl RevisionLookup {
    /// The value of the revision label: the identifier, or `unknown`.
    pub fn label_value(&self) -> (r: String)
        ensures
            r@ == revision_text(lookup_view(*self)),
    {
        match self {
            RevisionLookup::Resolved(s) => s.clone(),
            RevisionLookup::Unavailable => String::from_str("unknown"),
        }
    }
}

} // verus!
