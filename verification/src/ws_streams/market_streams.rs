//! The market streams and their names.

use vstd::prelude::*;
use vstd::string::*;

verus! {

/// The text with every character in lower case.
///
/// The mapping is that of the standard library, which follows Unicode and
/// depends on the text alone.
pub uninterp spec fn lowercase(text: Seq<char>) -> Seq<char>;

/// The text with every character in upper case.
///
/// The mapping is that of the standard library, which follows Unicode and
/// depends on the text alone.
pub uninterp spec fn uppercase(text: Seq<char>) -> Seq<char>;

/// Trusted: `str::to_lowercase` of the standard library.
#[verifier::external_body]
fn to_lowercase(text: &str) -> (r: String)
    ensures
        r@ == lowercase(text@),
{
    text.to_lowercase()
}

/// Trusted: `str::to_uppercase` of the standard library.
#[verifier::external_body]
fn to_uppercase(text: &str) -> (r: String)
    ensures
        r@ == uppercase(text@),
{
    text.to_uppercase()
}

/// How many levels a partial book stream carries.
#[derive(Debug, Clone, Copy, PartialEq, Eq, Structural)]
pub enum PartialBookDepthLevel {
    Five,
    Ten,
    Twenty,
}

impl PartialBookDepthLevel {
    /// The number of levels, in decimal digits.
    pub open spec fn spec_text(self) -> Seq<char> {
        match self {
            PartialBookDepthLevel::Five => "5"@,
            PartialBookDepthLevel::Ten => "10"@,
            PartialBookDepthLevel::Twenty => "20"@,
        }
    }

    pub fn as_str(&self) -> (text: &'static str)
        ensures
            text@ == self.spec_text(),
    {
        match self {
            PartialBookDepthLevel::Five => "5",
            PartialBookDepthLevel::Ten => "10",
            PartialBookDepthLevel::Twenty => "20",
        }
    }

    /// The number of levels, in decimal digits.
    pub fn to_string(&self) -> (text: String)
        ensures
            text@ == self.spec_text(),
    {
        String::from_str(self.as_str())
    }
}

/// A market stream of one symbol.
#[derive(Debug)]
pub enum MarketStreams {
    /// The changes of the order book, once a second.
    DiffDepth1s(String),
    /// The changes of the order book, every 100 ms.
    DiffDepth100ms(String),
    /// The best levels of the order book, once a second.
    PartialBookDepth1s(String, PartialBookDepthLevel),
    /// The best levels of the order book, every 100 ms.
    PartialBookDepth100ms(String, PartialBookDepthLevel),
    /// The trades.
    TradeStream(String),
}

impl MarketStreams {
    /// The name of the stream. The depth streams spell the symbol in lower
    /// case, the trade stream in upper case.
    pub open spec fn spec_name(&self) -> Seq<char> {
        match self {
            MarketStreams::DiffDepth1s(s) => lowercase(s@) + "@depth"@,
            MarketStreams::DiffDepth100ms(s) => lowercase(s@) + "@depth@100ms"@,
            MarketStreams::PartialBookDepth1s(s, l) => lowercase(s@) + "@depth"@ + l.spec_text(),
            MarketStreams::PartialBookDepth100ms(s, l) => lowercase(s@) + "@depth"@
                + l.spec_text() + "@100ms"@,
            MarketStreams::TradeStream(s) => uppercase(s@) + "@trade"@,
        }
    }

    /// The name of the stream.
    pub fn name(&self) -> (name: String)
        ensures
            name@ == self.spec_name(),
    {
        match self {
            MarketStreams::DiffDepth1s(s) => to_lowercase(s.as_str()).concat("@depth"),
            MarketStreams::DiffDepth100ms(s) => to_lowercase(s.as_str()).concat("@depth@100ms"),
            MarketStreams::PartialBookDepth1s(s, l) => to_lowercase(s.as_str()).concat(
                "@depth",
            ).concat(l.as_str()),
            MarketStreams::PartialBookDepth100ms(s, l) => to_lowercase(s.as_str()).concat(
                "@depth",
            ).concat(l.as_str()).concat("@100ms"),
            MarketStreams::TradeStream(s) => to_uppercase(s.as_str()).concat("@trade"),
        }
    }
}

/// The names of the streams from index `from` on, with `/` between them.
pub open spec fn joined_names(streams: Seq<MarketStreams>, from: int) -> Seq<char>
    decreases streams.len() - from,
{
    if from < 0 || from >= streams.len() {
        Seq::empty()
    } else if from + 1 == streams.len() {
        streams[from].spec_name()
    } else {
        streams[from].spec_name() + seq!['/'] + joined_names(streams, from + 1)
    }
}

/// Writing the next name brings the written part one stream further.
proof fn lemma_joined_names_step(streams: Seq<MarketStreams>, from: int, written: Seq<char>)
    requires
        0 <= from < streams.len(),
        written + joined_names(streams, from) == joined_names(streams, 0),
    ensures
        from + 1 < streams.len() ==> written + streams[from].spec_name() + seq!['/']
            + joined_names(streams, from + 1) == joined_names(streams, 0),
        from + 1 == streams.len() ==> written + streams[from].spec_name() == joined_names(
            streams,
            0,
        ),
{
    if from + 1 < streams.len() {
        assert(written + streams[from].spec_name() + seq!['/'] + joined_names(streams, from + 1)
            =~= written + joined_names(streams, from));
    } else {
        assert(written + streams[from].spec_name() =~= written + joined_names(streams, from));
    }
}

/// The names of the streams with `/` between them.
pub fn join_names(streams: &Vec<MarketStreams>) -> (names: String)
    ensures
        names@ == joined_names(streams@, 0),
{
    let mut names = String::new();
    let n: usize = streams.len();
    let mut i: usize = 0;
    assert(names@ + joined_names(streams@, 0) =~= joined_names(streams@, 0));
    while i < n
        invariant
            n == streams@.len(),
            i <= n,
            i < n ==> names@ + joined_names(streams@, i as int) == joined_names(streams@, 0),
            i == n ==> names@ == joined_names(streams@, 0),
        decreases n - i,
    {
        let ghost written = names@;
        proof {
            lemma_joined_names_step(streams@, i as int, written);
        }
        let name = streams[i].name();
        names.append(name.as_str());
        if i + 1 < n {
            names.append("/");
            proof {
                reveal_strlit("/");
                assert(names@ =~= written + streams@[i as int].spec_name() + seq!['/']);
            }
        }
        i = i + 1;
    }
    names
}

} // verus!
