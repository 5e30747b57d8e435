//! Finding the current installation image in a mirror's directory listing.

use vstd::prelude::*;
use vstd::string::*;

verus! {

/// The directory of the mirror that holds the latest image.
pub const ISO_BASE_URL: &'static str = "https://fastly.mirror.pkgbuild.com/iso/latest/";

/// The file name of an image: `archlinux-YYYY.MM.DD-x86_64.iso`.
pub const ISO_NAME_PATTERN: &'static str = r"archlinux-\d{4}\.\d{2}\.\d{2}-x86_64\.iso";

/// The regex crate's reason for refusing a pattern, carried as it is.
#[verifier::external_type_specification]
#[verifier::external_body]
pub struct ExRegexError(regex::Error);

/// Whether the regex crate accepts `pattern`.
pub uninterp spec fn compiles(pattern: Seq<char>) -> bool;

/// The text of the leftmost match of `pattern` in `haystack`, if any.
pub uninterp spec fn leftmost_match(pattern: Seq<char>, haystack: Seq<char>) -> Option<
    Seq<char>,
>;

/// `part` occurs in `whole` as a contiguous run of characters.
pub open spec fn is_infix(part: Seq<char>, whole: Seq<char>) -> bool {
    exists|i: int| 0 <= i && i + part.len() <= whole.len() && #[trigger] whole.subrange(i, i + part.len()) == part
}

/// Relies on regex::Regex::new, regex::Regex::find and regex::Match::as_str:
/// the pattern compiles or not depending on its text alone; the text of the
/// leftmost match depends on the pattern and the haystack alone, and is a
/// slice of the haystack.
#[verifier::external_body]
fn find_match(pattern: &str, haystack: &str) -> (r: Result<Option<String>, regex::Error>)
    ensures
        r is Ok <==> compiles(pattern@),
        r matches Ok(found) ==> found.deep_view() == leftmost_match(pattern@, haystack@),
        r matches Ok(Some(m)) ==> is_infix(m@, haystack@),
{
    let re = regex::Regex::new(pattern)?;
    match re.find(haystack) {
        Some(m) => Ok(Some(m.as_str().to_string())),
        None => Ok(None),
    }
}

/// Why no image could be found.
#[derive(Clone, Copy, Debug, PartialEq, Eq, Structural)]
pub enum ListingError {
    /// The file name pattern did not compile.
    Pattern,
    /// The listing names no image.
    NotFound,
}

impl ListingError {
    /// A sentence that describes the error.
    pub fn message(&self) -> (r: &'static str)
        ensures
            r@ == match *self {
                ListingError::Pattern => "Invalid ISO file name pattern"@,
                ListingError::NotFound => "Could not detect ISO filename in mirror listing"@,
            },
    {
        match self {
            ListingError::Pattern => "Invalid ISO file name pattern",
            ListingError::NotFound => "Could not detect ISO filename in mirror listing",
        }
    }
}

/// The image's file name and its download address, given the file name
/// found in the listing, if any: the address is the mirror directory
/// followed by the name.
pub fn iso_download_target(name: Option<String>) -> (r: Result<(String, String), ListingError>)
    ensures
        match name {
            Some(n) => r matches Ok((found, url)) && found@ == n@ && url@ == ISO_BASE_URL@ + n@,
            None => r == Err::<(String, String), ListingError>(ListingError::NotFound),
        },
{
    match name {
        Some(n) => {
            let mut url = String::from_str(ISO_BASE_URL);
            url.append(n.as_str());
            Ok((n, url))
        },
        None => Err(ListingError::NotFound),
    }
}

/// Looks for the image in the text of a mirror listing: the leftmost text
/// that matches the file name pattern, and the address under the mirror
/// directory that downloads it.
pub fn find_iso_in_listing(html: &str) -> (r: Result<(String, String), ListingError>)
    ensures
        !compiles(ISO_NAME_PATTERN@) ==> r == Err::<(String, String), ListingError>(
            ListingError::Pattern,
        ),
        compiles(ISO_NAME_PATTERN@) ==> match leftmost_match(ISO_NAME_PATTERN@, html@) {
            Some(n) => r matches Ok((found, url)) && found@ == n && url@ == ISO_BASE_URL@ + n,
            None => r == Err::<(String, String), ListingError>(ListingError::NotFound),
        },
        r matches Ok((found, url)) ==> is_infix(found@, html@),
{
    match find_match(ISO_NAME_PATTERN, html) {
        Ok(found) => iso_download_target(found),
        Err(_) => Err(ListingError::Pattern),
    }
}

} // verus!
