//! Network credentials and the pure decisions of the connect sequence.
//!
//! Joining a network, scanning, and the access point itself are hardware
//! work done outside the library.  What is decided here: which credentials
//! to use, and which channel a scan result suggests for them.

use vstd::prelude::*;
use crate::server::WifiData;

verus! {

/// Name of the access point the device raises in setup mode.
pub const AP_SSID: &'static str = "ESP-Feed";

/// Password of the setup-mode access point, also shown on the
/// configuration page.
pub const AP_PASSWORD: &'static str = "38294446";

/// Credentials of the network the device joins in normal mode.
#[derive(Debug)]
pub struct WifiConfig {
    pub ssid: String,
    pub pass: String,
}

impl Clone for WifiConfig {
    fn clone(&self) -> (r: Self)
        ensures
            r.ssid@ == self.ssid@,
            r.pass@ == self.pass@,
    {
        WifiConfig { ssid: self.ssid.clone(), pass: self.pass.clone() }
    }
}

impl From<WifiData> for WifiConfig {
    fn from(data: WifiData) -> (r: Self) {
        WifiConfig { ssid: data.ssid, pass: data.pass }
    }
}

impl vstd::std_specs::convert::FromSpecImpl<WifiData> for WifiConfig {
    open spec fn obeys_from_spec() -> bool {
        true
    }

    open spec fn from_spec(t: WifiData) -> Self {
        WifiConfig { ssid: t.ssid, pass: t.pass }
    }
}

/// The saved credentials when there are any, else the built-in fallback.
pub fn config_or_default(cfg: Option<WifiConfig>, fallback: WifiConfig) -> (r: WifiConfig)
    ensures
        cfg matches Some(c) ==> r == c,
        cfg is None ==> r == fallback,
{
    match cfg {
        Some(c) => c,
        None => fallback,
    }
}

/// The channel of the first scanned access point carrying `target`, if any.
pub open spec fn spec_find_channel(aps: Seq<(String, u8)>, target: Seq<char>) -> Option<u8>
    decreases aps.len(),
{
    if aps.len() == 0 {
        None
    } else if aps[0].0@ == target {
        Some(aps[0].1)
    } else {
        spec_find_channel(aps.drop_first(), target)
    }
}

/// Picks the channel to connect on: that of the first scan entry whose name
/// equals the configured network, or none when the network was not seen.
pub fn pick_channel(aps: &Vec<(String, u8)>, ssid: &String) -> (r: Option<u8>)
    ensures
        r == spec_find_channel(aps@, ssid@),
{
    proof {
        assert(aps@.subrange(0, aps@.len() as int) =~= aps@);
    }
    let mut i: usize = 0;
    while i < aps.len()
        invariant
            i <= aps@.len(),
            spec_find_channel(aps@, ssid@) == spec_find_channel(
                aps@.subrange(i as int, aps@.len() as int),
                ssid@,
            ),
        decreases aps@.len() - i,
    {
        let ghost rest = aps@.subrange(i as int, aps@.len() as int);
        let pair = &aps[i];
        if pair.0 == *ssid {
            proof {
                assert(rest[0] == aps@[i as int]);
            }
            return Some(pair.1);
        }
        proof {
            assert(rest[0] == aps@[i as int]);
            assert(rest.drop_first() =~= aps@.subrange(i + 1, aps@.len() as int));
        }
        i = i + 1;
    }
    proof {
        assert(aps@.subrange(aps@.len() as int, aps@.len() as int).len() == 0);
    }
    None
}

} // verus!
