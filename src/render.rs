//! Rendering of one event into lines of text, with nested reposts and quotes
//! walked recursively up to a depth bound.

use vstd::prelude::*;

use crate::event::{nesting_depth, timestamp_in_range, MediaKind, Nested, Tweet, OFFSET_LIMIT};

verus! {

pub const REPLY_PREFIX: &'static str = "➜ in reply to @";

pub const RETWEET_MARKER: &'static str = "Retweet ➜";

pub const SOURCE_PREFIX: &'static str = "➜ via ";

pub const PLACE_PREFIX: &'static str = "➜ from: ";

pub const QUOTE_MARKER: &'static str = "➜ Quoting the following status:";

pub const HASHTAGS_HEADER: &'static str = "➜ Hashtags contained in the tweet:";

pub const SYMBOLS_HEADER: &'static str = "➜ Symbols contained in the tweet:";

pub const URLS_HEADER: &'static str = "➜ URLs contained in the tweet:";

pub const MENTIONS_HEADER: &'static str = "➜ Users mentioned in the tweet:";

pub const MEDIA_HEADER: &'static str = "➜ Media attached to the tweet:";

pub const TRUNCATION_MARKER: &'static str = "➜ (nested status not shown: nesting too deep)";

/// The text of each line.
pub open spec fn str_lines(v: Seq<String>) -> Seq<Seq<char>> {
    v.map_values(|s: String| s@)
}

/// The text that chrono's `Display` gives for the instant `secs` seconds
/// after the Unix epoch, seen in the fixed time zone `offset` seconds east
/// of UTC.
pub uninterp spec fn local_time_text(secs: int, offset: int) -> Seq<char>;

pub open spec fn author_text(name: Seq<char>, handle: Seq<char>, time: Seq<char>) -> Seq<char> {
    name + " (@"@ + handle + ") posted at "@ + time
}

pub open spec fn source_text(name: Seq<char>, url: Seq<char>) -> Seq<char> {
    SOURCE_PREFIX@ + name + " ("@ + url + ")"@
}

pub open spec fn media_name(k: MediaKind) -> Seq<char> {
    match k {
        MediaKind::Photo => "Photo"@,
        MediaKind::Video => "Video"@,
        MediaKind::Gif => "Gif"@,
    }
}

pub open spec fn media_line(k: MediaKind) -> Seq<char> {
    "A "@ + media_name(k)
}

pub open spec fn media_lines(m: Seq<MediaKind>) -> Seq<Seq<char>> {
    m.map_values(|k: MediaKind| media_line(k))
}

/// The expanded forms among `urls`, in order.
pub open spec fn expanded_urls(urls: Seq<Option<String>>) -> Seq<Seq<char>>
    decreases urls.len(),
{
    if urls.len() == 0 {
        seq![]
    } else {
        let rest = expanded_urls(urls.drop_last());
        match urls.last() {
            Some(u) => rest.push(u@),
            None => rest,
        }
    }
}

/// The author line (with the creation time in the display zone) and the
/// reply line, where the event has them.
pub open spec fn head_lines(t: Tweet, offset: int) -> Seq<Seq<char>> {
    let author = match t.author {
        Some(a) => seq![author_text(a.name@, a.handle@, local_time_text(t.created_at@, offset))],
        None => seq![],
    };
    let reply = match t.reply_to {
        Some(h) => seq![REPLY_PREFIX@ + h@],
        None => seq![],
    };
    author + reply
}

/// The body text, then the source and place lines where present.
pub open spec fn own_lines(t: Tweet) -> Seq<Seq<char>> {
    let source = match t.source {
        Some(s) => seq![source_text(s.name@, s.url@)],
        None => seq![],
    };
    let place = match t.place {
        Some(p) => seq![PLACE_PREFIX@ + p@],
        None => seq![],
    };
    seq![t.text@] + source + place
}

/// A header followed by one line per item; nothing at all without items.
pub open spec fn section(header: Seq<char>, items: Seq<Seq<char>>) -> Seq<Seq<char>> {
    if items.len() == 0 {
        seq![]
    } else {
        seq![header] + items
    }
}

/// Hashtags, symbols, expanded links, mentioned accounts and media, each as a
/// section.
pub open spec fn section_lines(t: Tweet) -> Seq<Seq<char>> {
    section(HASHTAGS_HEADER@, str_lines(t.hashtags@))
        + section(SYMBOLS_HEADER@, str_lines(t.symbols@))
        + section(URLS_HEADER@, expanded_urls(t.urls@))
        + section(MENTIONS_HEADER@, str_lines(t.mentions@))
        + section(MEDIA_HEADER@, media_lines(t.media@))
}

/// The lines of `t` found `depth` levels below the top-level event. Past
/// `max_depth` a single truncation marker stands for the whole event.
pub open spec fn rendered(t: Tweet, depth: nat, max_depth: nat, offset: int) -> Seq<Seq<char>>
    decreases t,
{
    if depth > max_depth {
        seq![TRUNCATION_MARKER@]
    } else {
        match t.nested {
            Nested::Repost(o) => head_lines(t, offset) + seq![RETWEET_MARKER@] + rendered(
                *o,
                depth + 1,
                max_depth,
                offset,
            ),
            Nested::Quote(q) => head_lines(t, offset) + own_lines(t) + seq![QUOTE_MARKER@]
                + rendered(*q, depth + 1, max_depth, offset) + section_lines(t),
            Nested::Plain => head_lines(t, offset) + own_lines(t) + section_lines(t),
        }
    }
}

/// Relies on chrono: `DateTime::from_timestamp`, `FixedOffset::east_opt`,
/// `DateTime::with_timezone` and the `Display` of the zoned time, for the
/// text of an instant in a fixed display zone. Both constructors return
/// `Some` on the ranges that `requires` admits.
#[verifier::external_body]
fn time_text(secs: i64, offset: i32) -> (r: String)
    requires
        timestamp_in_range(secs as int),
        -OFFSET_LIMIT < offset < OFFSET_LIMIT,
    ensures
        r@ == local_time_text(secs as int, offset as int),
{
    let utc = chrono::DateTime::from_timestamp(secs, 0).unwrap();
    let zone = chrono::FixedOffset::east_opt(offset).unwrap();
    utc.with_timezone(&zone).to_string()
}

/// The author line: name, screen name and the creation time as already
/// shown in the display zone.
pub fn author_line(name: &str, handle: &str, time: &str) -> (r: String)
    ensures
        r@ == author_text(name@, handle@, time@),
{
    String::from_str(name).concat(" (@").concat(handle).concat(") posted at ").concat(time)
}

fn push_line(out: &mut Vec<String>, s: String)
    ensures
        str_lines(final(out)@) == str_lines(old(out)@).push(s@),
{
    let ghost before = out@;
    out.push(s);
    proof {
        assert(str_lines(out@) =~= str_lines(before).push(s@));
    }
}

fn push_str(out: &mut Vec<String>, s: &str)
    ensures
        str_lines(final(out)@) == str_lines(old(out)@).push(s@),
{
    push_line(out, String::from_str(s));
}

fn push_section(out: &mut Vec<String>, header: &str, items: &Vec<String>)
    ensures
        str_lines(final(out)@) == str_lines(old(out)@) + section(header@, str_lines(items@)),
{
    let ghost start = str_lines(out@);
    if items.len() == 0 {
        assert(start + section(header@, str_lines(items@)) =~= start);
        return;
    }
    push_str(out, header);
    let mut i: usize = 0;
    while i < items.len()
        invariant
            i <= items.len(),
            str_lines(out@) == start + seq![header@] + str_lines(items@.take(i as int)),
        decreases items.len() - i,
    {
        push_line(out, items[i].clone());
        i = i + 1;
        proof {
            assert(str_lines(items@.take(i as int)) =~= str_lines(items@.take(i - 1)).push(
                items@[i - 1]@,
            ));
            assert(str_lines(out@) =~= start + seq![header@] + str_lines(items@.take(i as int)));
        }
    }
    proof {
        assert(items@.take(i as int) =~= items@);
        assert(str_lines(out@) =~= start + section(header@, str_lines(items@)));
    }
}

fn media_text(k: MediaKind) -> (r: String)
    ensures
        r@ == media_line(k),
{
    let name = match k {
        MediaKind::Photo => "Photo",
        MediaKind::Video => "Video",
        MediaKind::Gif => "Gif",
    };
    String::from_str("A ").concat(name)
}

/// Renders events with a fixed display time zone and nesting bound.
pub struct Renderer {
    offset: i32,
    max_depth: u32,
}

impl Renderer {
    #[verifier::type_invariant]
    spec fn inv(self) -> bool {
        -OFFSET_LIMIT < self.offset < OFFSET_LIMIT
    }

    /// Seconds east of UTC of the display time zone.
    pub closed spec fn offset(self) -> int {
        self.offset as int
    }

    /// How many levels of nested events are shown below the top-level one.
    pub closed spec fn max_depth(self) -> nat {
        self.max_depth as nat
    }

    /// A renderer for the zone `offset_secs` seconds east of UTC, or `None`
    /// where no such zone exists (a whole day or more either way).
    pub fn new(offset_secs: i32, max_depth: u32) -> (r: Option<Renderer>)
        ensures
            r is Some <==> -OFFSET_LIMIT < offset_secs < OFFSET_LIMIT,
            r matches Some(x) ==> x.offset() == offset_secs && x.max_depth() == max_depth,
    {
        if -OFFSET_LIMIT < offset_secs && offset_secs < OFFSET_LIMIT {
            Some(Renderer { offset: offset_secs, max_depth })
        } else {
            None
        }
    }

    /// The lines for one top-level event.
    pub fn render(&self, t: &Tweet) -> (r: Vec<String>)
        ensures
            str_lines(r@) == rendered(*t, 0, self.max_depth(), self.offset()),
    {
        let mut out: Vec<String> = Vec::new();
        self.render_into(t, 0, &mut out);
        assert(str_lines(out@) =~= seq![] + rendered(*t, 0, self.max_depth(), self.offset()));
        out
    }

    fn render_into(&self, t: &Tweet, depth: u64, out: &mut Vec<String>)
        requires
            depth <= self.max_depth() + 1,
        ensures
            str_lines(final(out)@) == str_lines(old(out)@) + rendered(
                *t,
                depth as nat,
                self.max_depth(),
                self.offset(),
            ),
        decreases t,
    {
        let ghost start = str_lines(out@);
        if depth > self.max_depth as u64 {
            push_str(out, TRUNCATION_MARKER);
            assert(str_lines(out@) =~= start + rendered(
                *t,
                depth as nat,
                self.max_depth(),
                self.offset(),
            ));
            return;
        }
        self.push_head(t, out);
        match &t.nested {
            Nested::Repost(o) => {
                push_str(out, RETWEET_MARKER);
                self.render_into(o, depth + 1, out);
            },
            Nested::Quote(q) => {
                push_own(t, out);
                push_str(out, QUOTE_MARKER);
                self.render_into(q, depth + 1, out);
                push_sections(t, out);
            },
            Nested::Plain => {
                push_own(t, out);
                push_sections(t, out);
            },
        }
        assert(str_lines(out@) =~= start + rendered(
            *t,
            depth as nat,
            self.max_depth(),
            self.offset(),
        ));
    }

    fn push_head(&self, t: &Tweet, out: &mut Vec<String>)
        ensures
            str_lines(final(out)@) == str_lines(old(out)@) + head_lines(*t, self.offset()),
    {
        proof {
            use_type_invariant(self);
        }
        let ghost start = str_lines(out@);
        if let Some(a) = &t.author {
            let when = time_text(t.created_at.unix_seconds(), self.offset);
            push_line(out, author_line(a.name.as_str(), a.handle.as_str(), when.as_str()));
        }
        if let Some(h) = &t.reply_to {
            push_line(out, String::from_str(REPLY_PREFIX).concat(h.as_str()));
        }
        assert(str_lines(out@) =~= start + head_lines(*t, self.offset()));
    }
}

fn push_own(t: &Tweet, out: &mut Vec<String>)
    ensures
        str_lines(final(out)@) == str_lines(old(out)@) + own_lines(*t),
{
    let ghost start = str_lines(out@);
    push_line(out, t.text.clone());
    if let Some(s) = &t.source {
        let line = String::from_str(SOURCE_PREFIX).concat(s.name.as_str()).concat(" (").concat(
            s.url.as_str(),
        ).concat(")");
        push_line(out, line);
    }
    if let Some(p) = &t.place {
        push_line(out, String::from_str(PLACE_PREFIX).concat(p.as_str()));
    }
    assert(str_lines(out@) =~= start + own_lines(*t));
}

fn expanded_list(urls: &Vec<Option<String>>) -> (r: Vec<String>)
    ensures
        str_lines(r@) == expanded_urls(urls@),
{
    let mut r: Vec<String> = Vec::new();
    let mut i: usize = 0;
    while i < urls.len()
        invariant
            i <= urls.len(),
            str_lines(r@) == expanded_urls(urls@.take(i as int)),
        decreases urls.len() - i,
    {
        assert(urls@.take(i + 1).drop_last() =~= urls@.take(i as int));
        if let Some(u) = &urls[i] {
            push_line(&mut r, u.clone());
        }
        i = i + 1;
    }
    assert(urls@.take(i as int) =~= urls@);
    r
}

fn media_list(media: &Vec<MediaKind>) -> (r: Vec<String>)
    ensures
        str_lines(r@) == media_lines(media@),
{
    let mut r: Vec<String> = Vec::new();
    let mut i: usize = 0;
    while i < media.len()
        invariant
            i <= media.len(),
            str_lines(r@) == media_lines(media@.take(i as int)),
        decreases media.len() - i,
    {
        push_line(&mut r, media_text(media[i]));
        i = i + 1;
        assert(media_lines(media@.take(i as int)) =~= media_lines(media@.take(i - 1)).push(
            media_line(media@[i - 1]),
        ));
    }
    assert(media@.take(i as int) =~= media@);
    r
}

fn push_sections(t: &Tweet, out: &mut Vec<String>)
    ensures
        str_lines(final(out)@) == str_lines(old(out)@) + section_lines(*t),
{
    let ghost start = str_lines(out@);
    push_section(out, HASHTAGS_HEADER, &t.hashtags);
    push_section(out, SYMBOLS_HEADER, &t.symbols);
    let urls = expanded_list(&t.urls);
    push_section(out, URLS_HEADER, &urls);
    push_section(out, MENTIONS_HEADER, &t.mentions);
    let media = media_list(&t.media);
    push_section(out, MEDIA_HEADER, &media);
    assert(str_lines(out@) =~= start + section_lines(*t));
}

/// A repost renders as its author and reply lines, the repost marker, and
/// the reposted original one level down, in place of its own content: its
/// own text appears nowhere else, so where neither those lines nor the
/// marker hold that text, the output does not hold it.
pub proof fn lemma_repost_substitutes(r: Renderer, t: Tweet, depth: nat)
    requires
        t.nested is Repost,
        depth <= r.max_depth(),
    ensures
        ({
            let o = *t.nested->Repost_0;
            let inner = rendered(o, depth + 1, r.max_depth(), r.offset());
            &&& rendered(t, depth, r.max_depth(), r.offset()) == head_lines(t, r.offset()) + seq![
                RETWEET_MARKER@,
            ] + inner
            &&& (!head_lines(t, r.offset()).contains(t.text@) && !inner.contains(t.text@)
                && t.text@ != RETWEET_MARKER@) ==> !rendered(
                t,
                depth,
                r.max_depth(),
                r.offset(),
            ).contains(t.text@)
        }),
{
    let o = *t.nested->Repost_0;
    let head = head_lines(t, r.offset());
    let inner = rendered(o, depth + 1, r.max_depth(), r.offset());
    let all = rendered(t, depth, r.max_depth(), r.offset());
    assert(all == head + seq![RETWEET_MARKER@] + inner);
    if !head.contains(t.text@) && !inner.contains(t.text@) && t.text@ != RETWEET_MARKER@ {
        assert forall|i: int| 0 <= i < all.len() implies all[i] != t.text@ by {
            if i < head.len() {
                assert(all[i] == head[i]);
            } else if i == head.len() {
                assert(all[i] == RETWEET_MARKER@);
            } else {
                assert(all[i] == inner[i - head.len() - 1]);
            }
        }
    }
}

/// A quote renders additively: its author and reply lines, its own text,
/// source and place, the quote marker, the quoted event in full one level
/// down, then its own sections.
pub proof fn lemma_quote_adds(r: Renderer, t: Tweet, depth: nat)
    requires
        t.nested is Quote,
        depth <= r.max_depth(),
    ensures
        rendered(t, depth, r.max_depth(), r.offset()) == head_lines(t, r.offset()) + own_lines(t)
            + seq![QUOTE_MARKER@] + rendered(
            *t.nested->Quote_0,
            depth + 1,
            r.max_depth(),
            r.offset(),
        ) + section_lines(t),
{
}

/// An event with no hashtags, symbols, expanded links, mentions or media has
/// no section lines at all, and when it wraps nothing it renders as its head
/// and own lines alone.
pub proof fn lemma_empty_sections_omitted(r: Renderer, t: Tweet, depth: nat)
    requires
        t.hashtags@.len() == 0,
        t.symbols@.len() == 0,
        expanded_urls(t.urls@).len() == 0,
        t.mentions@.len() == 0,
        t.media@.len() == 0,
    ensures
        section_lines(t) == Seq::<Seq<char>>::empty(),
        (t.nested is Plain && depth <= r.max_depth()) ==> rendered(
            t,
            depth,
            r.max_depth(),
            r.offset(),
        ) == head_lines(t, r.offset()) + own_lines(t),
{
    assert(str_lines(t.hashtags@).len() == 0);
    assert(section_lines(t) =~= Seq::<Seq<char>>::empty());
    if t.nested is Plain && depth <= r.max_depth() {
        assert(rendered(t, depth, r.max_depth(), r.offset()) =~= head_lines(t, r.offset())
            + own_lines(t));
    }
}

/// Past the depth bound an event renders as the truncation marker alone, and
/// an event nested deeper than the bound allows renders with the marker
/// somewhere in its lines, whatever it holds.
pub proof fn lemma_depth_bounded(r: Renderer, t: Tweet, depth: nat)
    ensures
        depth > r.max_depth() ==> rendered(t, depth, r.max_depth(), r.offset()) == seq![
            TRUNCATION_MARKER@,
        ],
        depth + nesting_depth(t) > r.max_depth() ==> rendered(
            t,
            depth,
            r.max_depth(),
            r.offset(),
        ).contains(TRUNCATION_MARKER@),
    decreases t,
{
    let all = rendered(t, depth, r.max_depth(), r.offset());
    if depth > r.max_depth() {
        assert(all[0] == TRUNCATION_MARKER@);
    } else if depth + nesting_depth(t) > r.max_depth() {
        let head = head_lines(t, r.offset());
        match t.nested {
            Nested::Plain => {},
            Nested::Repost(o) => {
                lemma_depth_bounded(r, *o, depth + 1);
                let inner = rendered(*o, depth + 1, r.max_depth(), r.offset());
                let i = choose|i: int| 0 <= i < inner.len() && inner[i] == TRUNCATION_MARKER@;
                assert(all[head.len() + 1 + i] == TRUNCATION_MARKER@);
            },
            Nested::Quote(q) => {
                lemma_depth_bounded(r, *q, depth + 1);
                let inner = rendered(*q, depth + 1, r.max_depth(), r.offset());
                let i = choose|i: int| 0 <= i < inner.len() && inner[i] == TRUNCATION_MARKER@;
                let k = head.len() + own_lines(t).len() + 1 + i;
                assert(all[k] == TRUNCATION_MARKER@);
            },
        }
    }
}

} // verus!
