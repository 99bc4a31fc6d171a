//! Generation tags: the second at which a deploy attempt starts, written as
//! `YYYYMMDD_HHMMSS` in UTC. The tag names the dump and the backup of the
//! attempt, so that the files of one attempt never stand for another's.
//!
//! A tag has the resolution of one second. Two attempts that start within
//! the same second are given the same text; [`GenerationTag::from_stamp`]
//! refuses the second of them instead of letting their files collide.

use vstd::prelude::*;
use vstd::string::*;

use crate::clock::{unix_second_of, ClockReading};
use crate::text::text_of;

verus! {

/// Number of characters in a tag.
pub const TAG_LEN: usize = 15;

/// Position of the underscore between the date and the time of day.
pub const TAG_SPLIT: usize = 8;

/// How a tag is written, in chrono's notation: year, month, day, an
/// underscore, hour, minute, second, each padded with zeros.
pub const TAG_PATTERN: &'static str = "%Y%m%d_%H%M%S";

/// An ASCII decimal digit.
pub open spec fn is_digit(c: char) -> bool {
    '0' <= c && c <= '9'
}

/// The shape of a tag: eight digits, an underscore, six digits.
pub open spec fn is_tag_text(s: Seq<char>) -> bool {
    &&& s.len() == TAG_LEN
    &&& s[TAG_SPLIT as int] == '_'
    &&& forall|i: int| 0 <= i < TAG_LEN && i != TAG_SPLIT ==> is_digit(#[trigger] s[i])
}

/// A tag is safe in a file name: it holds no slash, no dot and no NUL, only
/// digits and one underscore.
pub proof fn tag_is_filesystem_safe(tag: Seq<char>)
    requires
        is_tag_text(tag),
    ensures
        forall|i: int|
            0 <= i < tag.len() ==> (is_digit(#[trigger] tag[i]) || tag[i] == '_') && tag[i] != '/'
                && tag[i] != '.' && tag[i] != '\0',
{
}

/// Why no tag was made.
#[derive(Clone, Copy, Debug, PartialEq, Eq, Structural)]
pub enum TagError {
    /// The second lies outside the dates that can be written.
    OutOfRange,
    /// The date does not fit the fifteen characters of a tag.
    Malformed,
    /// The tag equals the one of the previous attempt.
    Collision,
}

/// The tag that comes of a stamp, given the tag of the attempt before.
pub open spec fn minted(stamp: Option<Seq<char>>, previous: Option<Seq<char>>) -> Result<
    Seq<char>,
    TagError,
> {
    match stamp {
        None => Err(TagError::OutOfRange),
        Some(text) => if !is_tag_text(text) {
            Err(TagError::Malformed)
        } else if previous == Some(text) {
            Err(TagError::Collision)
        } else {
            Ok(text)
        },
    }
}

/// What chrono writes for the UTC date and time of the Unix second `secs`
/// under the format `pattern`; `None` where chrono has no date for that
/// second.
pub uninterp spec fn utc_stamp(secs: i64, pattern: Seq<char>) -> Option<Seq<char>>;

/// Calls `chrono::DateTime::from_timestamp` and formats the date with
/// `DateTime::format`. Nothing is claimed of the text but that it is the one
/// chrono gives for this second and this pattern, every time. Only the
/// pattern of a tag is admitted: chrono stops on a pattern that it cannot
/// read.
#[verifier::external_body]
fn format_utc_stamp(secs: i64, pattern: &str) -> (out: Option<String>)
    requires
        pattern@ == TAG_PATTERN@,
    ensures
        out matches Some(text) ==> utc_stamp(secs, pattern@) == Some(text@),
        out is None ==> utc_stamp(secs, pattern@) is None,
{
    match chrono::DateTime::from_timestamp(secs, 0) {
        Some(moment) => Some(moment.format(pattern).to_string()),
        None => None,
    }
}

/// The tag of one deploy attempt.
#[derive(Debug, PartialEq, Eq)]
pub struct GenerationTag {
    text: String,
}

impl View for GenerationTag {
    type V = Seq<char>;

    closed spec fn view(&self) -> Seq<char> {
        self.text@
    }
}

impl Clone for GenerationTag {
    fn clone(&self) -> (copy: GenerationTag)
        ensures
            copy@ == self@,
    {
        proof {
            use_type_invariant(self);
        }
        GenerationTag { text: self.text.clone() }
    }
}

impl GenerationTag {
    #[verifier::type_invariant]
    spec fn well_formed(self) -> bool {
        is_tag_text(self.text@)
    }

    /// Whether `text` has the shape of a tag.
    pub fn is_valid(text: &str) -> (yes: bool)
        ensures
            yes == is_tag_text(text@),
    {
        if text.unicode_len() != TAG_LEN {
            return false;
        }
        let mut i: usize = 0;
        while i < TAG_LEN
            invariant
                i <= TAG_LEN,
                text@.len() == TAG_LEN,
                forall|j: int| 0 <= j < i && j != TAG_SPLIT ==> is_digit(#[trigger] text@[j]),
                i > TAG_SPLIT ==> text@[TAG_SPLIT as int] == '_',
            decreases TAG_LEN - i,
        {
            let c = text.get_char(i);
            if i == TAG_SPLIT {
                if c != '_' {
                    return false;
                }
            } else if !('0' <= c && c <= '9') {
                return false;
            }
            i = i + 1;
        }
        true
    }

    /// The tag written as `text`, where `text` has the shape of a tag.
    pub fn from_text(text: &str) -> (tag: Option<GenerationTag>)
        ensures
            tag is Some <==> is_tag_text(text@),
            tag matches Some(t) ==> t@ == text@,
    {
        if GenerationTag::is_valid(text) {
            Some(GenerationTag { text: String::from_str(text) })
        } else {
            None
        }
    }

    /// Makes the tag of an attempt from the stamp of its second and the tag
    /// of the attempt before it, if there was one. A stamp that is missing or
    /// misshapen gives no tag, nor does one that repeats the previous tag.
    pub fn from_stamp(stamp: Option<String>, previous: Option<&GenerationTag>) -> (tag: Result<
        GenerationTag,
        TagError,
    >)
        ensures
            tag matches Ok(t) ==> is_tag_text(t@),
            view_of(tag) == minted(text_of(stamp), previous_text(previous)),
    {
        let text = match stamp {
            None => {
                return Err(TagError::OutOfRange);
            },
            Some(text) => text,
        };
        if !GenerationTag::is_valid(text.as_str()) {
            return Err(TagError::Malformed);
        }
        match previous {
            Some(earlier) => {
                if earlier.text == text {
                    return Err(TagError::Collision);
                }
            },
            None => {},
        }
        Ok(GenerationTag { text })
    }

    /// The tag of the Unix second `secs`, unless it repeats `previous`.
    pub fn mint(secs: i64, previous: Option<&GenerationTag>) -> (tag: Result<
        GenerationTag,
        TagError,
    >)
        ensures
            tag matches Ok(t) ==> is_tag_text(t@),
            view_of(tag) == minted(utc_stamp(secs, TAG_PATTERN@), previous_text(previous)),
    {
        GenerationTag::from_stamp(format_utc_stamp(secs, TAG_PATTERN), previous)
    }

    /// The tag of the second that the clock reading `reading` falls in,
    /// unless it repeats `previous`.
    pub fn at(reading: ClockReading, previous: Option<&GenerationTag>) -> (tag: Result<
        GenerationTag,
        TagError,
    >)
        ensures
            tag matches Ok(t) ==> is_tag_text(t@),
            view_of(tag) == minted(
                utc_stamp(unix_second_of(reading) as i64, TAG_PATTERN@),
                previous_text(previous),
            ),
    {
        GenerationTag::mint(reading.unix_second(), previous)
    }

    /// The tag of the current second, unless it repeats `previous`. Which
    /// second that is, the clock decides; the result is what [`mint`] gives
    /// for it. So a tag that comes back is well formed and differs from
    /// `previous`, and each error comes as [`minted`] says: for a second that
    /// has no date, for one whose date does not fit a tag, or for one whose
    /// tag repeats `previous`.
    ///
    /// [`mint`]: GenerationTag::mint
    pub fn now(previous: Option<&GenerationTag>) -> (tag: Result<GenerationTag, TagError>)
        ensures
            tag matches Ok(t) ==> is_tag_text(t@) && previous_text(previous) != Some(t@),
            exists|secs: i64|
                view_of(tag) == #[trigger] minted(
                    utc_stamp(secs, TAG_PATTERN@),
                    previous_text(previous),
                ),
    {
        let reading = ClockReading::take();
        let tag = GenerationTag::at(reading, previous);
        assert(view_of(tag) == minted(
            utc_stamp(unix_second_of(reading) as i64, TAG_PATTERN@),
            previous_text(previous),
        ));
        tag
    }

    /// The characters of the tag.
    pub fn as_str(&self) -> (text: &str)
        ensures
            text@ == self@,
            is_tag_text(self@),
    {
        proof {
            use_type_invariant(self);
        }
        self.text.as_str()
    }
}

/// The characters of the previous tag, where there is one.
pub open spec fn previous_text(previous: Option<&GenerationTag>) -> Option<Seq<char>> {
    match previous {
        Some(tag) => Some(tag@),
        None => None,
    }
}

/// The characters of a minted tag, or the reason there is none.
pub open spec fn view_of(tag: Result<GenerationTag, TagError>) -> Result<Seq<char>, TagError> {
    match tag {
        Ok(t) => Ok(t@),
        Err(e) => Err(e),
    }
}

} // verus!
