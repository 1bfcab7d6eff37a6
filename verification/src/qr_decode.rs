//! Picking the query string out of what was read from an image.
//!
//! The caller loads the image and looks for QR codes on it. Each region that
//! looks like one either decodes to a text or does not; [`decode_qr`] takes these
//! outcomes in the order in which the regions were found, and the content of the
//! last region that decoded is the query string.
//!
//! Of `image` the library uses the words of its error, through
//! [`QrDecodeError::from_image`]; Verus takes the contract of that call on trust.

use image::ImageError;
use vstd::prelude::*;

verus! {

#[verifier::external_type_specification]
#[verifier::external_body]
pub struct ExImageError(ImageError);

/// The words of an error of `image`.
pub uninterp spec fn image_error_text(error: ImageError) -> Seq<char>;

/// `ImageError::to_string`: the error in words.
#[verifier::external_body]
fn describe_image_error(error: &ImageError) -> (text: String)
    ensures
        text@ == image_error_text(*error),
{
    error.to_string()
}

/// Why no query string came out of an image.
#[derive(Debug)]
pub enum QrDecodeError {
    /// The image could not be loaded; the text names the cause.
    IOError(String),
    /// No scan region was detected on the image.
    NotFound,
    /// Scan regions were detected, and none of them decoded.
    DecodeFailed,
}

impl QrDecodeError {
    /// The error that stands for an image that could not be loaded: `IOError`
    /// with the words of the failure.
    pub fn from_image(error: &ImageError) -> (mapped: Self)
        ensures
            mapped matches QrDecodeError::IOError(text) && text@ == image_error_text(*error),
    {
        QrDecodeError::IOError(describe_image_error(error))
    }

    /// The message that `message` returns.
    pub open spec fn text(&self) -> Seq<char> {
        match self {
            QrDecodeError::IOError(err) => "Could not load qr from file: "@ + err@,
            QrDecodeError::NotFound => "Could not detect qr on image"@,
            QrDecodeError::DecodeFailed => "Faild to decode any qr"@,
        }
    }

    /// The error in words, for a person to read.
    pub fn message(&self) -> (text: String)
        ensures
            text@ == self.text(),
    {
        match self {
            QrDecodeError::IOError(err) => {
                let mut text = String::from_str("Could not load qr from file: ");
                text.append(err.as_str());
                text
            },
            QrDecodeError::NotFound => String::from_str("Could not detect qr on image"),
            QrDecodeError::DecodeFailed => String::from_str("Faild to decode any qr"),
        }
    }
}

/// The content of the last region that decoded, where `outcomes` holds for each
/// detected region, in detection order, its content if it decoded.
pub open spec fn last_decoded(outcomes: Seq<Option<Seq<char>>>) -> Option<Seq<char>>
    decreases outcomes.len(),
{
    if outcomes.len() == 0 {
        None
    } else if outcomes.last() is Some {
        outcomes.last()
    } else {
        last_decoded(outcomes.drop_last())
    }
}

/// `last_decoded` is `None` where no region decoded; else it is the content of a
/// region after which no other decoded.
pub proof fn lemma_last_decoded(outcomes: Seq<Option<Seq<char>>>)
    ensures
        match last_decoded(outcomes) {
            Some(content) => exists|i: int|
                0 <= i < outcomes.len() && outcomes[i] == Some(content) && forall|j: int|
                    i < j < outcomes.len() ==> outcomes[j] is None,
            None => forall|i: int| 0 <= i < outcomes.len() ==> outcomes[i] is None,
        },
    decreases outcomes.len(),
{
    if outcomes.len() == 0 {
    } else if outcomes.last() is Some {
        let i = outcomes.len() - 1;
        assert(outcomes[i] == Some(last_decoded(outcomes)->0));
    } else {
        let front = outcomes.drop_last();
        lemma_last_decoded(front);
        match last_decoded(front) {
            Some(content) => {
                let i = choose|i: int|
                    0 <= i < front.len() && front[i] == Some(content) && forall|j: int|
                        i < j < front.len() ==> front[j] is None;
                assert(outcomes[i] == Some(content));
                assert forall|j: int| i < j < outcomes.len() implies outcomes[j] is None by {
                    if j < front.len() {
                        assert(front[j] is None);
                    }
                }
            },
            None => {
                assert forall|i: int| 0 <= i < outcomes.len() implies outcomes[i] is None by {
                    if i < front.len() {
                        assert(front[i] is None);
                    }
                }
            },
        }
    }
}

/// Whether `result` is what the outcomes of decoding the detected regions call
/// for: `NotFound` where there was no region, `DecodeFailed` where none decoded,
/// and else the content of the last one that did.
pub open spec fn selects(
    outcomes: Seq<Option<Seq<char>>>,
    result: Result<String, QrDecodeError>,
) -> bool {
    match result {
        Ok(content) => last_decoded(outcomes) == Some(content@),
        Err(QrDecodeError::NotFound) => outcomes.len() == 0,
        Err(QrDecodeError::DecodeFailed) => outcomes.len() > 0 && last_decoded(outcomes) is None,
        Err(QrDecodeError::IOError(_)) => false,
    }
}

/// Where no region was detected, the result is `NotFound`.
pub proof fn lemma_no_region_not_found(result: Result<String, QrDecodeError>)
    requires
        selects(Seq::empty(), result),
    ensures
        result == Err::<String, QrDecodeError>(QrDecodeError::NotFound),
{
}

/// Where regions were detected and none of them decoded, the result is
/// `DecodeFailed`.
pub proof fn lemma_none_decoded_failed(
    outcomes: Seq<Option<Seq<char>>>,
    result: Result<String, QrDecodeError>,
)
    requires
        outcomes.len() > 0,
        forall|i: int| 0 <= i < outcomes.len() ==> outcomes[i] is None,
        selects(outcomes, result),
    ensures
        result == Err::<String, QrDecodeError>(QrDecodeError::DecodeFailed),
{
    lemma_last_decoded(outcomes);
    if last_decoded(outcomes) is Some {
        let i = choose|i: int| 0 <= i < outcomes.len() && outcomes[i] == last_decoded(outcomes);
        assert(outcomes[i] is None);
    }
}

/// Where the region at `last` decoded and none after it did, the result is the
/// content of that region, whatever the regions before it came to.
pub proof fn lemma_last_success_wins(
    outcomes: Seq<Option<Seq<char>>>,
    last: int,
    result: Result<String, QrDecodeError>,
)
    requires
        0 <= last < outcomes.len(),
        outcomes[last] is Some,
        forall|j: int| last < j < outcomes.len() ==> outcomes[j] is None,
        selects(outcomes, result),
    ensures
        result matches Ok(content) && Some(content@) == outcomes[last],
{
    lemma_last_decoded(outcomes);
    match last_decoded(outcomes) {
        Some(content) => {
            let i = choose|i: int|
                0 <= i < outcomes.len() && outcomes[i] == Some(content) && forall|j: int|
                    i < j < outcomes.len() ==> outcomes[j] is None;
            if i < last {
                assert(outcomes[last] is None);
            } else if last < i {
                assert(outcomes[i] is None);
            }
        },
        None => {
            assert(outcomes[last] is None);
        },
    }
}

/// Picks the query string out of the outcomes of decoding the detected regions,
/// given in detection order.
pub fn select_content(outcomes: Vec<Option<String>>) -> (result: Result<String, QrDecodeError>)
    ensures
        selects(outcomes.deep_view(), result),
{
    if outcomes.len() == 0 {
        return Err(QrDecodeError::NotFound);
    }
    let ghost all = outcomes.deep_view();
    let mut content: Option<String> = None;
    for outcome in it: outcomes
        invariant
            all.len() == it.seq().len(),
            forall|i: int| 0 <= i < all.len() ==> all[i] == it.seq()[i].deep_view(),
            content.deep_view() == last_decoded(all.take(it.index() as int)),
    {
        proof {
            let seen = all.take(it.index() + 1);
            assert(seen.drop_last() =~= all.take(it.index() as int));
            assert(seen.last() == outcome.deep_view());
        }
        match outcome {
            Some(cont) => {
                content = Some(cont);
            },
            None => {},
        }
    }
    proof {
        assert(all.take(all.len() as int) =~= all);
    }
    match content {
        None => Err(QrDecodeError::DecodeFailed),
        Some(content) => Ok(content),
    }
}

/// Whether `result` is `IOError` with the words `cause`.
pub open spec fn is_io_error(result: Result<String, QrDecodeError>, cause: Seq<char>) -> bool {
    result matches Err(QrDecodeError::IOError(text)) && text@ == cause
}

/// What `decode_qr` returns for `scanned`: `IOError` with the words of the
/// failure where the image could not be loaded, and else what the outcomes of
/// decoding its regions call for.
pub open spec fn decodes(
    scanned: Result<Vec<Option<String>>, ImageError>,
    result: Result<String, QrDecodeError>,
) -> bool {
    match scanned {
        Err(error) => is_io_error(result, image_error_text(error)),
        Ok(outcomes) => selects(outcomes.deep_view(), result),
    }
}

/// Reads the query string from what came of scanning an image file: the
/// failure where the image could not be loaded, and else, for each region that
/// was detected on it, in detection order, its content if it decoded.
pub fn decode_qr(scanned: Result<Vec<Option<String>>, ImageError>) -> (result: Result<
    String,
    QrDecodeError,
>)
    ensures
        decodes(scanned, result),
{
    match scanned {
        Ok(outcomes) => select_content(outcomes),
        Err(error) => Err(QrDecodeError::from_image(&error)),
    }
}

} // verus!
