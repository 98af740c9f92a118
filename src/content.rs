use vstd::prelude::*;
use crate::calendar::CalendarDate;
use crate::persistence::{Download, Persistence};

verus! {

/// Why the content of a day is not simply at hand.
#[derive(Clone, Debug)]
pub enum FetchError {
    /// The origin could not be reached or answered with a failure status.
    Http,
    /// The content was fetched, but writing it to the cache failed. The
    /// content itself is kept here and can still be delivered.
    Io(Vec<u8>),
}

/// The stages of a content request.
#[derive(Clone, Copy, Debug, PartialEq, Eq, Structural)]
pub enum Stage {
    /// Waiting for the cache file to be read.
    Lookup,
    /// Waiting for the download from the origin.
    Fetching,
    /// Waiting for the downloaded content to be written to the cache.
    Storing,
    /// Answered with the content.
    Delivered,
    /// Answered with a failed download.
    DownloadFailed,
    /// Answered with content that could not be cached.
    CacheFailed,
}

/// What the caller is asked to do next, as a value of the model.
pub enum Effect {
    ReadCache,
    Download,
    WriteCache(Seq<u8>),
    Deliver(Seq<u8>),
    FailHttp,
    FailIo(Seq<u8>),
}

/// What the caller reports back, as a value of the model.
pub enum Signal {
    CacheRead(Option<Seq<u8>>),
    Downloaded(Option<Seq<u8>>),
    CacheWritten(bool),
}

/// What a request in `stage`, holding `content`, waits for.
pub open spec fn awaited(stage: Stage, content: Seq<u8>) -> Effect {
    match stage {
        Stage::Lookup => Effect::ReadCache,
        Stage::Fetching => Effect::Download,
        Stage::Storing => Effect::WriteCache(content),
        Stage::Delivered => Effect::Deliver(content),
        Stage::DownloadFailed => Effect::FailHttp,
        Stage::CacheFailed => Effect::FailIo(content),
    }
}

/// One move of a content request: the new stage, the content it holds, and
/// what the caller is to do next. A signal that does not answer what the
/// request waits for changes nothing, and the request asks again.
pub open spec fn transition(stage: Stage, content: Seq<u8>, signal: Signal) -> (
    Stage,
    Seq<u8>,
    Effect,
) {
    match (stage, signal) {
        (Stage::Lookup, Signal::CacheRead(Some(bytes))) => (
            Stage::Delivered,
            bytes,
            Effect::Deliver(bytes),
        ),
        (Stage::Lookup, Signal::CacheRead(None)) => (Stage::Fetching, content, Effect::Download),
        (Stage::Fetching, Signal::Downloaded(Some(bytes))) => (
            Stage::Storing,
            bytes,
            Effect::WriteCache(bytes),
        ),
        (Stage::Fetching, Signal::Downloaded(None)) => (
            Stage::DownloadFailed,
            content,
            Effect::FailHttp,
        ),
        (Stage::Storing, Signal::CacheWritten(true)) => (
            Stage::Delivered,
            content,
            Effect::Deliver(content),
        ),
        (Stage::Storing, Signal::CacheWritten(false)) => (
            Stage::CacheFailed,
            content,
            Effect::FailIo(content),
        ),
        _ => (stage, content, awaited(stage, content)),
    }
}

/// One whole request, from the cache lookup to its answer, against a cache
/// that holds `cached` for the day, an origin that gives `fetched`, and a
/// cache write that succeeds when `written`. Gives the answer, the number of
/// downloads made, and what the cache holds for the day afterwards.
pub open spec fn serve(cached: Option<Seq<u8>>, fetched: Option<Seq<u8>>, written: bool) -> (
    Effect,
    nat,
    Option<Seq<u8>>,
) {
    let (s1, c1, e1) = transition(Stage::Lookup, Seq::empty(), Signal::CacheRead(cached));
    if e1 is Download {
        let (s2, c2, e2) = transition(s1, c1, Signal::Downloaded(fetched));
        if e2 is WriteCache {
            let (s3, c3, e3) = transition(s2, c2, Signal::CacheWritten(written));
            (e3, 1, if written { Some(c2) } else { cached })
        } else {
            (e2, 1, cached)
        }
    } else {
        (e1, 0, cached)
    }
}

/// Once a request for a day has been answered with content and the cache
/// was written, a second request for that day downloads nothing and is
/// answered with the same content: the two together download at most once.
pub proof fn lemma_second_request_hits_cache(
    cached: Option<Seq<u8>>,
    fetched1: Option<Seq<u8>>,
    fetched2: Option<Seq<u8>>,
    written2: bool,
)
    ensures
        ({
            let (first, n1, after) = serve(cached, fetched1, true);
            let (second, n2, _) = serve(after, fetched2, written2);
            first is Deliver ==> n1 + n2 <= 1 && n2 == 0 && second == first
        }),
{
}

/// What the caller is asked to do next.
pub enum Step {
    /// Read the cache file of the request's day.
    ReadCache,
    /// Download the content from the request's address.
    Download,
    /// Write these bytes to the cache file of the request's day.
    WriteCache(Vec<u8>),
    /// The request is answered.
    Done(Result<Vec<u8>, FetchError>),
}

impl View for Step {
    type V = Effect;

    open spec fn view(&self) -> Effect {
        match self {
            Step::ReadCache => Effect::ReadCache,
            Step::Download => Effect::Download,
            Step::WriteCache(b) => Effect::WriteCache(b@),
            Step::Done(Ok(b)) => Effect::Deliver(b@),
            Step::Done(Err(FetchError::Http)) => Effect::FailHttp,
            Step::Done(Err(FetchError::Io(b))) => Effect::FailIo(b@),
        }
    }
}

/// What the caller reports after doing a step.
pub enum Event {
    /// The cache file's bytes, or `None` where it is missing or unreadable.
    CacheRead(Option<Vec<u8>>),
    /// The downloaded bytes, or `None` where the download failed.
    Downloaded(Option<Vec<u8>>),
    /// Whether writing the cache file succeeded.
    CacheWritten(bool),
}

impl View for Event {
    type V = Signal;

    open spec fn view(&self) -> Signal {
        match self {
            Event::CacheRead(Some(b)) => Signal::CacheRead(Some(b@)),
            Event::CacheRead(None) => Signal::CacheRead(None),
            Event::Downloaded(Some(b)) => Signal::Downloaded(Some(b@)),
            Event::Downloaded(None) => Signal::Downloaded(None),
            Event::CacheWritten(ok) => Signal::CacheWritten(*ok),
        }
    }
}

/// A request for the content of one day: the cache is asked first, the
/// origin only on a miss, and what was downloaded is cached before it is
/// handed out.
pub struct ContentRequest {
    path: String,
    url: String,
    stage: Stage,
    content: Vec<u8>,
}

impl ContentRequest {
    pub closed spec fn cache_path(&self) -> Seq<char> {
        self.path@
    }

    pub closed spec fn address(&self) -> Seq<char> {
        self.url@
    }

    pub closed spec fn stage(&self) -> Stage {
        self.stage
    }

    pub closed spec fn content(&self) -> Seq<u8> {
        self.content@
    }

    /// A request for the content of day `d`, which starts with a cache lookup.
    pub fn new(persistence: &Persistence, download: &Download, d: &CalendarDate) -> (r: ContentRequest)
        requires
            d.valid(),
        ensures
            r.cache_path() == persistence.comic_location(*d),
            r.address() == download.comic_address(*d),
            r.stage() == Stage::Lookup,
            r.content() == Seq::<u8>::empty(),
    {
        ContentRequest {
            path: persistence.comic_path(d),
            url: download.comic_url(d),
            stage: Stage::Lookup,
            content: Vec::new(),
        }
    }

    /// The cache file of the request's day.
    pub fn path(&self) -> (r: &String)
        ensures
            r@ == self.cache_path(),
    {
        &self.path
    }

    /// The address that the content of the request's day is downloaded from.
    pub fn url(&self) -> (r: &String)
        ensures
            r@ == self.address(),
    {
        &self.url
    }

    /// What the request waits for now.
    pub fn current(&self) -> (r: Step)
        ensures
            r@ == awaited(self.stage(), self.content()),
    {
        match self.stage {
            Stage::Lookup => Step::ReadCache,
            Stage::Fetching => Step::Download,
            Stage::Storing => Step::WriteCache(self.content.clone()),
            Stage::Delivered => Step::Done(Ok(self.content.clone())),
            Stage::DownloadFailed => Step::Done(Err(FetchError::Http)),
            Stage::CacheFailed => Step::Done(Err(FetchError::Io(self.content.clone()))),
        }
    }

    /// Takes in what the last step gave and says what to do next.
    pub fn advance(&mut self, event: Event) -> (r: Step)
        ensures
            (final(self).stage(), final(self).content(), r@) == transition(
                old(self).stage(),
                old(self).content(),
                event@,
            ),
            final(self).cache_path() == old(self).cache_path(),
            final(self).address() == old(self).address(),
    {
        match (self.stage, event) {
            (Stage::Lookup, Event::CacheRead(Some(bytes))) => {
                self.stage = Stage::Delivered;
                self.content = bytes;
                Step::Done(Ok(self.content.clone()))
            },
            (Stage::Lookup, Event::CacheRead(None)) => {
                self.stage = Stage::Fetching;
                Step::Download
            },
            (Stage::Fetching, Event::Downloaded(Some(bytes))) => {
                self.stage = Stage::Storing;
                self.content = bytes;
                Step::WriteCache(self.content.clone())
            },
            (Stage::Fetching, Event::Downloaded(None)) => {
                self.stage = Stage::DownloadFailed;
                Step::Done(Err(FetchError::Http))
            },
            (Stage::Storing, Event::CacheWritten(true)) => {
                self.stage = Stage::Delivered;
                Step::Done(Ok(self.content.clone()))
            },
            (Stage::Storing, Event::CacheWritten(false)) => {
                self.stage = Stage::CacheFailed;
                Step::Done(Err(FetchError::Io(self.content.clone())))
            },
            _ => self.current(),
        }
    }
}

/// The content that an answered request makes available: the content on
/// success, and also where only caching it failed; none where the download
/// failed.
pub fn deliverable(result: Result<Vec<u8>, FetchError>) -> (r: Option<Vec<u8>>)
    ensures
        match result {
            Ok(b) => r == Some(b),
            Err(FetchError::Io(b)) => r == Some(b),
            Err(FetchError::Http) => r is None,
        },
{
    match result {
        Ok(b) => Some(b),
        Err(FetchError::Io(b)) => Some(b),
        Err(FetchError::Http) => None,
    }
}

} // verus!
