//! Configuration records submitted through the device's web interface.
//!
//! Each record is self-contained, knows the fixed key it is persisted
//! under, and turns into the command that carries it to the dispatch loop.
//! The HTTP handling itself lives outside the library; it only hands these
//! plain values in.

use vstd::prelude::*;
use crate::codec::{decode1, decode2, encode1, encode2, spec_enc1, spec_enc2, spec_fields1,
    spec_fields2, lemma_fields1_round, lemma_fields2_round, str_fits, Persist};
use crate::command::Command;

verus! {

/// A configuration record: persistable, keyed, and convertible into the
/// command that saves it.
pub trait ConfigData: Persist {
    /// The fixed key this record is persisted under.
    spec fn spec_key() -> Seq<char>;

    /// The command that carries this record to the dispatch loop.
    spec fn spec_command(self) -> Command;

    fn key() -> (r: &'static str)
        ensures
            r@ == Self::spec_key(),
    ;

    fn to_command(self) -> (r: Command)
        ensures
            r == self.spec_command(),
    ;
}

/// The user's name and the location weather is fetched for.
#[derive(Debug)]
pub struct PersonalData {
    pub name: String,
    pub location: String,
}

/// Credentials of the network the device joins in normal mode.
#[derive(Debug)]
pub struct WifiData {
    pub ssid: String,
    pub pass: String,
}

/// The address of the news feed.
#[derive(Debug)]
pub struct RssData {
    pub url: String,
}

/// The ticker symbol of the stock quote.
#[derive(Debug)]
pub struct StockData {
    pub symbol: String,
}

impl Persist for PersonalData {
    open spec fn spec_encoded(&self) -> Seq<u8> {
        spec_enc2(self.name@, self.location@)
    }

    open spec fn spec_fits(&self) -> bool {
        str_fits(self.name@) && str_fits(self.location@)
    }

    open spec fn spec_decodable(bytes: Seq<u8>) -> bool {
        spec_fields2(bytes) is Some
    }

    open spec fn spec_matches(bytes: Seq<u8>, v: &Self) -> bool {
        spec_fields2(bytes) == Some((v.name@, v.location@))
    }

    open spec fn spec_same(&self, other: &Self) -> bool {
        self.name@ == other.name@ && self.location@ == other.location@
    }

    fn encoded(&self) -> (r: Vec<u8>) {
        encode2(self.name.as_str(), self.location.as_str())
    }

    fn decoded(bytes: &Vec<u8>) -> (r: Option<Self>) {
        match decode2(bytes) {
            Some((name, location)) => Some(PersonalData { name, location }),
            None => None,
        }
    }

    proof fn lemma_round_trip(&self) {
        lemma_fields2_round(self.name@, self.location@);
    }
}

impl ConfigData for PersonalData {
    open spec fn spec_key() -> Seq<char> {
        "personal"@
    }

    open spec fn spec_command(self) -> Command {
        Command::SavePersonalConfig(self)
    }

    fn key() -> (r: &'static str) {
        "personal"
    }

    fn to_command(self) -> (r: Command) {
        Command::SavePersonalConfig(self)
    }
}

impl Persist for WifiData {
    open spec fn spec_encoded(&self) -> Seq<u8> {
        spec_enc2(self.ssid@, self.pass@)
    }

    open spec fn spec_fits(&self) -> bool {
        str_fits(self.ssid@) && str_fits(self.pass@)
    }

    open spec fn spec_decodable(bytes: Seq<u8>) -> bool {
        spec_fields2(bytes) is Some
    }

    open spec fn spec_matches(bytes: Seq<u8>, v: &Self) -> bool {
        spec_fields2(bytes) == Some((v.ssid@, v.pass@))
    }

    open spec fn spec_same(&self, other: &Self) -> bool {
        self.ssid@ == other.ssid@ && self.pass@ == other.pass@
    }

    fn encoded(&self) -> (r: Vec<u8>) {
        encode2(self.ssid.as_str(), self.pass.as_str())
    }

    fn decoded(bytes: &Vec<u8>) -> (r: Option<Self>) {
        match decode2(bytes) {
            Some((ssid, pass)) => Some(WifiData { ssid, pass }),
            None => None,
        }
    }

    proof fn lemma_round_trip(&self) {
        lemma_fields2_round(self.ssid@, self.pass@);
    }
}

impl ConfigData for WifiData {
    open spec fn spec_key() -> Seq<char> {
        "wifi"@
    }

    open spec fn spec_command(self) -> Command {
        Command::SaveWifiConfig(self)
    }

    fn key() -> (r: &'static str) {
        "wifi"
    }

    fn to_command(self) -> (r: Command) {
        Command::SaveWifiConfig(self)
    }
}

impl Persist for RssData {
    open spec fn spec_encoded(&self) -> Seq<u8> {
        spec_enc1(self.url@)
    }

    open spec fn spec_fits(&self) -> bool {
        str_fits(self.url@)
    }

    open spec fn spec_decodable(bytes: Seq<u8>) -> bool {
        spec_fields1(bytes) is Some
    }

    open spec fn spec_matches(bytes: Seq<u8>, v: &Self) -> bool {
        spec_fields1(bytes) == Some(v.url@)
    }

    open spec fn spec_same(&self, other: &Self) -> bool {
        self.url@ == other.url@
    }

    fn encoded(&self) -> (r: Vec<u8>) {
        encode1(self.url.as_str())
    }

    fn decoded(bytes: &Vec<u8>) -> (r: Option<Self>) {
        match decode1(bytes) {
            Some(url) => Some(RssData { url }),
            None => None,
        }
    }

    proof fn lemma_round_trip(&self) {
        lemma_fields1_round(self.url@);
    }
}

impl ConfigData for RssData {
    open spec fn spec_key() -> Seq<char> {
        "rss"@
    }

    open spec fn spec_command(self) -> Command {
        Command::SaveRssConfig(self)
    }

    fn key() -> (r: &'static str) {
        "rss"
    }

    fn to_command(self) -> (r: Command) {
        Command::SaveRssConfig(self)
    }
}

impl Persist for StockData {
    open spec fn spec_encoded(&self) -> Seq<u8> {
        spec_enc1(self.symbol@)
    }

    open spec fn spec_fits(&self) -> bool {
        str_fits(self.symbol@)
    }

    open spec fn spec_decodable(bytes: Seq<u8>) -> bool {
        spec_fields1(bytes) is Some
    }

    open spec fn spec_matches(bytes: Seq<u8>, v: &Self) -> bool {
        spec_fields1(bytes) == Some(v.symbol@)
    }

    open spec fn spec_same(&self, other: &Self) -> bool {
        self.symbol@ == other.symbol@
    }

    fn encoded(&self) -> (r: Vec<u8>) {
        encode1(self.symbol.as_str())
    }

    fn decoded(bytes: &Vec<u8>) -> (r: Option<Self>) {
        match decode1(bytes) {
            Some(symbol) => Some(StockData { symbol }),
            None => None,
        }
    }

    proof fn lemma_round_trip(&self) {
        lemma_fields1_round(self.symbol@);
    }
}

impl ConfigData for StockData {
    open spec fn spec_key() -> Seq<char> {
        "stock"@
    }

    open spec fn spec_command(self) -> Command {
        Command::SaveStockConfig(self)
    }

    fn key() -> (r: &'static str) {
        "stock"
    }

    fn to_command(self) -> (r: Command) {
        Command::SaveStockConfig(self)
    }
}

} // verus!
