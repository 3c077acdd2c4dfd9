//! Decoded stream events, held as plain values.

use vstd::prelude::*;

verus! {

/// The earliest and latest creation times (seconds since the Unix epoch)
/// that a [`Timestamp`] may hold: about 250,000 years either side of 1970.
pub const TIMESTAMP_MIN: i64 = -8_000_000_000_000;

pub const TIMESTAMP_MAX: i64 = 8_000_000_000_000;

/// Whole seconds that a display time zone lies east of UTC must be strictly
/// inside this bound.
pub const OFFSET_LIMIT: i32 = 86_400;

/// A creation time, in seconds since the Unix epoch, within the range that
/// calendar dates can be formed for.
pub struct Timestamp {
    secs: i64,
}

impl View for Timestamp {
    type V = int;

    closed spec fn view(&self) -> int {
        self.secs as int
    }
}

pub open spec fn timestamp_in_range(secs: int) -> bool {
    TIMESTAMP_MIN <= secs <= TIMESTAMP_MAX
}

impl Timestamp {
    #[verifier::type_invariant]
    spec fn inv(self) -> bool {
        timestamp_in_range(self.secs as int)
    }

    /// The timestamp for `secs`, or `None` where it lies outside the range.
    pub fn from_unix_seconds(secs: i64) -> (r: Option<Timestamp>)
        ensures
            r is Some <==> timestamp_in_range(secs as int),
            r matches Some(t) ==> t@ == secs as int,
    {
        if TIMESTAMP_MIN <= secs && secs <= TIMESTAMP_MAX {
            Some(Timestamp { secs })
        } else {
            None
        }
    }

    pub fn unix_seconds(&self) -> (r: i64)
        ensures
            r as int == self@,
            timestamp_in_range(r as int),
    {
        proof {
            use_type_invariant(self);
        }
        self.secs
    }
}

/// The author of an event.
pub struct Author {
    pub name: String,
    /// The screen name, without a leading `@`.
    pub handle: String,
}

/// The client that posted an event.
pub struct Source {
    pub name: String,
    pub url: String,
}

/// The kind of an attached media item.
#[derive(Clone, Copy, Debug, PartialEq, Eq, Structural)]
pub enum MediaKind {
    Photo,
    Video,
    Gif,
}

/// What an event wraps: nothing, a reposted original that stands in for the
/// event's own content, or a quoted event shown beside it.
pub enum Nested {
    Plain,
    Repost(Box<Tweet>),
    Quote(Box<Tweet>),
}

/// One posted event, with everything that rendering reads.
pub struct Tweet {
    pub author: Option<Author>,
    pub created_at: Timestamp,
    pub text: String,
    /// Screen name of the account replied to.
    pub reply_to: Option<String>,
    pub nested: Nested,
    pub source: Option<Source>,
    /// Full name of the place it was posted from.
    pub place: Option<String>,
    pub hashtags: Vec<String>,
    pub symbols: Vec<String>,
    /// Each link's expanded form, where the provider gave one.
    pub urls: Vec<Option<String>>,
    /// Screen names of the mentioned accounts.
    pub mentions: Vec<String>,
    pub media: Vec<MediaKind>,
}

/// How many events lie nested below `t`.
pub open spec fn nesting_depth(t: Tweet) -> nat
    decreases t,
{
    match t.nested {
        Nested::Plain => 0,
        Nested::Repost(o) => 1 + nesting_depth(*o),
        Nested::Quote(q) => 1 + nesting_depth(*q),
    }
}

/// One decoded frame of the stream.
pub enum StreamMessage {
    Tweet(Tweet),
    /// A payload that is not an event (heartbeat, rate-limit notice, ...),
    /// described as text.
    Other(String),
}

} // verus!
