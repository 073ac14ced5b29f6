//! The news-feed controller and the RSS title extractor.
//!
//! A feed is fetched as raw bytes by the network layer outside the library;
//! the bytes are tokenized by the `quick_xml` crate behind small trusted
//! wrappers, and the verified state machine here assembles the feed from
//! the token stream: the first `<title>` names the feed, the next titles —
//! up to ten — become its headlines.

use vstd::prelude::*;

verus! {

/// Scroll position of a feed headline on the display.
#[derive(Debug, Clone, Copy, PartialEq, Eq, Structural)]
pub struct ScrollState {
    pub position: u32,
    pub forward: bool,
}

impl Default for ScrollState {
    /// Scrolling starts at the left edge, moving forward.
    fn default() -> (r: Self)
        ensures
            r.position == 0,
            r.forward,
    {
        ScrollState { position: 0, forward: true }
    }
}

/// One fetched feed: its name and up to ten headlines.
#[derive(Debug)]
pub struct Feed {
    pub title: String,
    pub headlines: Vec<String>,
}

impl DeepView for Feed {
    type V = (Seq<char>, Seq<Seq<char>>);

    open spec fn deep_view(&self) -> (Seq<char>, Seq<Seq<char>>) {
        (self.title@, self.headlines.deep_view())
    }
}

/// One token of the XML stream, reduced to what the feed assembler reads.
#[derive(Debug)]
pub enum XmlEvent {
    /// An opening tag, by local name.
    Start(String),
    /// A closing tag, by local name.
    End(String),
    /// Character data between tags, with no references in it.
    Text(String),
    /// A general or character reference, by the name between `&` and `;`.
    Ref(String),
    /// End of the document.
    Eof,
    /// The tokenizer refused the input.
    Failed,
    /// Anything else: comments, declarations, processing instructions.
    Other,
}

#[verifier::external_type_specification]
#[verifier::external_body]
#[verifier::reject_recursive_types(R)]
pub struct ExReader<R>(quick_xml::Reader<R>);

/// Relies on `quick_xml::Reader::from_reader`: builds a tokenizer over the
/// byte slice.
#[verifier::external_body]
fn xml_reader<'a>(bytes: &'a [u8]) -> quick_xml::Reader<&'a [u8]> {
    quick_xml::Reader::from_reader(bytes)
}

/// Relies on `quick_xml::Reader::read_event`: yields the next XML token,
/// `Eof` at the end of the input, and an error on ill-formed input.
#[verifier::external_body]
fn xml_next_event(r: &mut quick_xml::Reader<&[u8]>) -> XmlEvent {
    match r.read_event() {
        Ok(quick_xml::events::Event::Start(e)) => XmlEvent::Start(
            e.local_name().into_inner().to_owned(),
        ),
        Ok(quick_xml::events::Event::End(e)) => XmlEvent::End(
            e.local_name().into_inner().to_owned(),
        ),
        Ok(quick_xml::events::Event::Text(e)) => XmlEvent::Text(e.into_inner().into_owned()),
        Ok(quick_xml::events::Event::GeneralRef(e)) => XmlEvent::Ref(e.into_inner().into_owned()),
        Ok(quick_xml::events::Event::Eof) => XmlEvent::Eof,
        Ok(_) => XmlEvent::Other,
        Err(_) => XmlEvent::Failed,
    }
}

/// What the five predefined XML entities stand for; anything else is
/// unknown and fails the feed.
pub open spec fn spec_entity(name: Seq<char>) -> Option<Seq<char>> {
    if name == "lt"@ {
        Some("<"@)
    } else if name == "gt"@ {
        Some(">"@)
    } else if name == "amp"@ {
        Some("&"@)
    } else if name == "apos"@ {
        Some("'"@)
    } else if name == "quot"@ {
        Some("\""@)
    } else {
        None
    }
}

/// Relies on `quick_xml::escape::resolve_predefined_entity`: resolves
/// exactly the five predefined XML entities, to exactly these characters.
#[verifier::external_body]
fn resolve_entity(name: &String) -> (r: Option<String>)
    ensures
        r matches Some(s) ==> spec_entity(name@) == Some(s@),
        r is None ==> spec_entity(name@) is None,
{
    quick_xml::escape::resolve_predefined_entity(name).map(|s| s.to_owned())
}

/// The feed assembled from a token stream, starting from the given state:
/// `first` while no feed title was recorded yet, `in_title` inside a
/// `<title>` element whose text so far is `acc`.  The stream ends at its
/// end, at `Eof`, or once ten headlines are collected; an ill-formed
/// stream or an unknown reference inside a title yields nothing.
pub open spec fn spec_assemble_from(
    events: Seq<XmlEvent>,
    first: bool,
    in_title: bool,
    acc: Seq<char>,
    title: Seq<char>,
    heads: Seq<Seq<char>>,
) -> Option<(Seq<char>, Seq<Seq<char>>)>
    decreases events.len(),
{
    if events.len() == 0 {
        Some((title, heads))
    } else {
        let rest = events.drop_first();
        match events[0] {
            XmlEvent::Start(name) => if name@ == "title"@ {
                spec_assemble_from(rest, first, true, Seq::empty(), title, heads)
            } else {
                spec_assemble_from(rest, first, in_title, acc, title, heads)
            },
            XmlEvent::End(name) => if name@ == "title"@ && in_title {
                if first {
                    spec_assemble_from(rest, false, false, Seq::empty(), acc, heads)
                } else if heads.len() + 1 == 10 {
                    Some((title, heads.push(acc)))
                } else {
                    spec_assemble_from(rest, first, false, Seq::empty(), title, heads.push(acc))
                }
            } else {
                spec_assemble_from(rest, first, in_title, acc, title, heads)
            },
            XmlEvent::Text(s) => if in_title {
                spec_assemble_from(rest, first, in_title, acc + s@, title, heads)
            } else {
                spec_assemble_from(rest, first, in_title, acc, title, heads)
            },
            XmlEvent::Ref(name) => if in_title {
                match spec_entity(name@) {
                    Some(e) => spec_assemble_from(rest, first, in_title, acc + e, title, heads),
                    None => None,
                }
            } else {
                spec_assemble_from(rest, first, in_title, acc, title, heads)
            },
            XmlEvent::Eof => Some((title, heads)),
            XmlEvent::Failed => None,
            XmlEvent::Other => spec_assemble_from(rest, first, in_title, acc, title, heads),
        }
    }
}

/// The feed a whole token stream assembles to, from the initial state.
pub open spec fn spec_assemble(events: Seq<XmlEvent>) -> Option<(Seq<char>, Seq<Seq<char>>)> {
    spec_assemble_from(events, true, false, Seq::empty(), Seq::empty(), Seq::empty())
}

/// Whether this local tag name is `title`.
fn is_title(name: &String) -> (r: bool)
    ensures
        r == (name@ == "title"@),
{
    *name == "title".to_owned()
}

/// Assembles a feed from a token stream: the exact executable form of
/// `spec_assemble`.
pub fn assemble_feed(events: &Vec<XmlEvent>) -> (r: Option<Feed>)
    ensures
        match r {
            Some(f) => spec_assemble(events@) == Some((f.title@, f.headlines.deep_view())),
            None => spec_assemble(events@) is None,
        },
{
    let ghost all = events@;
    let mut first: bool = true;
    let mut in_title: bool = false;
    let mut acc: String = String::new();
    let mut title: String = String::new();
    let mut heads: Vec<String> = Vec::new();
    let n = events.len();
    proof {
        assert(all.subrange(0, all.len() as int) =~= all);
        assert(heads.deep_view() =~= Seq::<Seq<char>>::empty());
    }
    let mut i: usize = 0;
    while i < n
        invariant
            i <= n,
            n == all.len(),
            events@ == all,
            heads.deep_view().len() < 10,
            heads.deep_view().len() == heads@.len(),
            spec_assemble(all) == spec_assemble_from(
                all.subrange(i as int, all.len() as int),
                first,
                in_title,
                acc@,
                title@,
                heads.deep_view(),
            ),
        decreases n - i,
    {
        let ghost rest_before = all.subrange(i as int, all.len() as int);
        proof {
            assert(rest_before[0] == all[i as int]);
            assert(rest_before.drop_first() =~= all.subrange(i + 1, all.len() as int));
        }
        match &events[i] {
            XmlEvent::Start(name) => {
                if is_title(name) {
                    in_title = true;
                    acc = String::new();
                }
            },
            XmlEvent::End(name) => {
                if is_title(name) && in_title {
                    in_title = false;
                    let done = acc;
                    acc = String::new();
                    if first {
                        first = false;
                        title = done;
                    } else {
                        let ghost heads_before = heads.deep_view();
                        let ghost done_view = done@;
                        heads.push(done);
                        proof {
                            assert(heads.deep_view() =~= heads_before.push(done_view));
                        }
                        if heads.len() == 10 {
                            return Some(Feed { title, headlines: heads });
                        }
                    }
                }
            },
            XmlEvent::Text(s) => {
                if in_title {
                    acc.append(s.as_str());
                }
            },
            XmlEvent::Ref(name) => {
                if in_title {
                    match resolve_entity(name) {
                        Some(e) => {
                            acc.append(e.as_str());
                        },
                        None => {
                            return None;
                        },
                    }
                }
            },
            XmlEvent::Eof => {
                return Some(Feed { title, headlines: heads });
            },
            XmlEvent::Failed => {
                return None;
            },
            XmlEvent::Other => {},
        }
        i = i + 1;
    }
    proof {
        assert(all.subrange(all.len() as int, all.len() as int).len() == 0);
    }
    Some(Feed { title, headlines: heads })
}

/// Parses one RSS document: tokenizes the bytes with the XML crate, then
/// runs the verified assembler over whatever tokens came back.  Whatever
/// the tokenizer produced, the result is exactly what `spec_assemble`
/// makes of it; a feed never carries more than ten headlines.
pub fn parse_rss_feed(bytes: &Vec<u8>) -> (r: Option<Feed>)
    ensures
        r matches Some(f) ==> f.headlines@.len() <= 10,
{
    let mut reader = xml_reader(bytes.as_slice());
    let mut events: Vec<XmlEvent> = Vec::new();
    let mut steps: usize = 0;
    // The tokenizer eventually reports `Eof`, but nothing verified says so:
    // the stream is cut off after a generous bound instead.
    while steps < 0x10_0000
        decreases 0x10_0000 - steps,
    {
        let ev = xml_next_event(&mut reader);
        match ev {
            XmlEvent::Eof => {
                events.push(XmlEvent::Eof);
                return finish_parse(&events);
            },
            XmlEvent::Failed => {
                return None;
            },
            _ => {
                events.push(ev);
            },
        }
        steps = steps + 1;
    }
    None
}

/// Runs the assembler and bounds the headline count for `parse_rss_feed`.
fn finish_parse(events: &Vec<XmlEvent>) -> (r: Option<Feed>)
    ensures
        r matches Some(f) ==> f.headlines@.len() <= 10,
{
    let r = assemble_feed(events);
    match r {
        Some(f) => {
            proof {
                lemma_assemble_headline_bound(events@, true, false, Seq::empty(), Seq::empty(),
                    Seq::empty());
                assert(f.headlines.deep_view().len() == f.headlines@.len());
            }
            Some(f)
        },
        None => None,
    }
}

#[verifier::external_type_specification]
#[verifier::external_body]
pub struct ExUrl(url::Url);

/// Fetches and keeps the news feeds.  The network fetch itself happens
/// outside the library, which hands each response body in as bytes.
#[derive(Debug)]
pub struct FeedController {
    feeds: Vec<Feed>,
    urls: Vec<url::Url>,
}

impl FeedController {
    /// The feeds currently held.
    pub closed spec fn spec_feeds(&self) -> Seq<Feed> {
        self.feeds@
    }

    /// The feed addresses to fetch.
    pub closed spec fn spec_urls(&self) -> Seq<url::Url> {
        self.urls@
    }

    /// A controller with no feeds and no addresses.
    pub fn new() -> (r: Self)
        ensures
            r.spec_feeds().len() == 0,
            r.spec_urls().len() == 0,
    {
        FeedController { feeds: Vec::new(), urls: Vec::new() }
    }

    /// The feed addresses.
    pub fn urls(&self) -> (r: &Vec<url::Url>)
        ensures
            r@ == self.spec_urls(),
    {
        &self.urls
    }

    /// Adds one feed address.
    pub fn add_url(&mut self, url: url::Url)
        ensures
            final(self).spec_urls() == old(self).spec_urls().push(url),
            final(self).spec_feeds() == old(self).spec_feeds(),
    {
        self.urls.push(url);
    }

    /// The feeds parsed by the last refresh.
    pub fn feeds(&self) -> (r: &Vec<Feed>)
        ensures
            r@ == self.spec_feeds(),
    {
        &self.feeds
    }

    /// Replaces the held feeds with whatever parses out of the fetched
    /// response bodies, one per address, skipping bodies that do not parse.
    /// The addresses themselves stay as they are.
    pub fn refresh(&mut self, bodies: &Vec<Vec<u8>>)
        ensures
            final(self).spec_urls() == old(self).spec_urls(),
            final(self).spec_feeds().len() <= bodies@.len(),
            forall|j: int|
                0 <= j < final(self).spec_feeds().len()
                    ==> (#[trigger] final(self).spec_feeds()[j]).headlines@.len() <= 10,
    {
        self.feeds.clear();
        let mut i: usize = 0;
        while i < bodies.len()
            invariant
                i <= bodies@.len(),
                self.feeds@.len() <= i,
                self.urls@ == old(self).urls@,
                forall|j: int|
                    0 <= j < self.feeds@.len() ==> (#[trigger] self.feeds@[j]).headlines@.len()
                        <= 10,
            decreases bodies@.len() - i,
        {
            match parse_rss_feed(&bodies[i]) {
                Some(feed) => {
                    self.feeds.push(feed);
                },
                None => {},
            }
            i = i + 1;
        }
    }
}

/// The assembler never collects more than ten headlines.
proof fn lemma_assemble_headline_bound(
    events: Seq<XmlEvent>,
    first: bool,
    in_title: bool,
    acc: Seq<char>,
    title: Seq<char>,
    heads: Seq<Seq<char>>,
)
    requires
        heads.len() < 10,
    ensures
        spec_assemble_from(events, first, in_title, acc, title, heads) matches Some(p)
            ==> p.1.len() <= 10,
    decreases events.len(),
{
    if events.len() > 0 {
        let rest = events.drop_first();
        match events[0] {
            XmlEvent::Start(name) => {
                lemma_assemble_headline_bound(rest, first, true, Seq::empty(), title, heads);
                lemma_assemble_headline_bound(rest, first, in_title, acc, title, heads);
            },
            XmlEvent::End(name) => {
                lemma_assemble_headline_bound(rest, false, false, Seq::empty(), acc, heads);
                lemma_assemble_headline_bound(rest, first, in_title, acc, title, heads);
                if heads.len() + 1 < 10 {
                    lemma_assemble_headline_bound(rest, first, false, Seq::empty(), title,
                        heads.push(acc));
                }
            },
            XmlEvent::Text(s) => {
                lemma_assemble_headline_bound(rest, first, in_title, acc + s@, title, heads);
                lemma_assemble_headline_bound(rest, first, in_title, acc, title, heads);
            },
            XmlEvent::Ref(name) => {
                match spec_entity(name@) {
                    Some(e) => {
                        lemma_assemble_headline_bound(rest, first, in_title, acc + e, title,
                            heads);
                    },
                    None => {},
                }
                lemma_assemble_headline_bound(rest, first, in_title, acc, title, heads);
            },
            _ => {
                lemma_assemble_headline_bound(rest, first, in_title, acc, title, heads);
            },
        }
    }
}

} // verus!
