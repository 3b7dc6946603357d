//! The calls that leave this crate. Verus takes the contracts in this file
//! on trust: each one restates what the called crate's source shows.

use linear_map::LinearMap;
use vstd::prelude::*;

use crate::chain::SoftFork;
use crate::stats::{linear_insert, Rows, Stat};

verus! {

/// `linear_map::LinearMap`: a map kept as a vector of pairs.
#[verifier::external_type_specification]
#[verifier::external_body]
#[verifier::reject_recursive_types(K)]
#[verifier::reject_recursive_types(V)]
pub struct ExLinearMap<K, V>(LinearMap<K, V>);

/// `LinearMap::clone`: nothing is claimed of the copy.
pub assume_specification<K: Clone, V: Clone>[ <LinearMap<K, V> as Clone>::clone ](
    m: &LinearMap<K, V>,
) -> (copy: LinearMap<K, V>)
;

/// The pairs that a map of entries stores, in storage order.
pub uninterp spec fn stat_entries(m: LinearMap<String, Stat>) -> Rows;

/// `LinearMap::new`: the new map stores nothing.
#[verifier::external_body]
pub(crate) fn stat_map_new() -> (m: LinearMap<String, Stat>)
    ensures
        stat_entries(m) == Rows::empty(),
{
    LinearMap::new()
}

/// `LinearMap::insert`: the first stored pair whose key equals `label`
/// keeps its place and gets the new value; with no such pair, the new pair
/// is stored last.
#[verifier::external_body]
pub(crate) fn stat_map_insert(m: &mut LinearMap<String, Stat>, label: String, stat: Stat)
    ensures
        stat_entries(*final(m)) == linear_insert(stat_entries(*old(m)), label@, stat@),
{
    m.insert(label, stat);
}

/// `LinearMap::iter`: yields the stored pairs in storage order; each is
/// cloned into the result.
#[verifier::external_body]
pub(crate) fn stat_map_rows(m: &LinearMap<String, Stat>) -> (rows: Vec<(String, Stat)>)
    ensures
        rows@.len() == stat_entries(*m).len(),
        forall|i: int|
            0 <= i < rows@.len() ==> (#[trigger] rows@[i]).0@ == stat_entries(*m)[i].0
                && rows@[i].1@ == stat_entries(*m)[i].1,
{
    m.iter().map(|(label, stat)| (label.clone(), stat.clone())).collect()
}

/// The pairs that a map of deployments stores, in storage order.
pub uninterp spec fn softfork_entries(m: LinearMap<String, SoftFork>) -> Seq<(Seq<char>, SoftFork)>;

/// `LinearMap::iter`: yields the stored pairs in storage order; each is
/// cloned into the result.
#[verifier::external_body]
pub(crate) fn softfork_map_rows(m: &LinearMap<String, SoftFork>) -> (rows: Vec<(String, SoftFork)>)
    ensures
        rows@.len() == softfork_entries(*m).len(),
        forall|i: int|
            0 <= i < rows@.len() ==> (#[trigger] rows@[i]).0@ == softfork_entries(*m)[i].0
                && rows@[i].1 == softfork_entries(*m)[i].1,
{
    m.iter().map(|(name, fork)| (name.clone(), fork.clone())).collect()
}

/// The last second that `chrono` can represent: the end of the year 262142.
pub const MAX_TIMESTAMP: u64 = 8_210_266_876_799;

/// The UTC date and time of the instant `unix_time` seconds after the
/// epoch, written as `MM/DD/YYYY @ HH:MM:SS`.
pub uninterp spec fn utc_date_time(unix_time: u64) -> Seq<char>;

/// `chrono::DateTime::<Utc>::from` a system time, then `format` and
/// `to_string`: the text depends on the instant alone. The conversion
/// panics on an instant after `MAX_TIMESTAMP`, so such an instant is left
/// out; up to there the system time of a Unix platform, which counts
/// seconds in 64 bits, holds the instant.
#[verifier::external_body]
pub(crate) fn human_readable_timestamp(unix_time: u64) -> (text: String)
    requires
        unix_time <= MAX_TIMESTAMP,
    ensures
        text@ == utc_date_time(unix_time),
{
    chrono::DateTime::<chrono::Utc>::from(
        std::time::UNIX_EPOCH + std::time::Duration::from_secs(unix_time),
    ).format("%m/%d/%Y @ %H:%M:%S").to_string()
}

/// A name in title case: its words capitalised and separated by single
/// spaces.
pub uninterp spec fn title_case(name: Seq<char>) -> Seq<char>;

/// `heck::TitleCase::to_title_case` on a string slice: the result depends
/// on the characters of `name` alone.
#[verifier::external_body]
pub(crate) fn to_title_case(name: &str) -> (pretty: String)
    ensures
        pretty@ == title_case(name@),
{
    heck::TitleCase::to_title_case(name)
}

/// `nix::sys::signal::Signal::try_from` a signal number, then `to_string`:
/// the name of the signal, or nothing for a number that is no signal here.
/// Signal numbers differ between platforms, so nothing is claimed of the
/// name.
#[verifier::external_body]
pub(crate) fn signal_name(signal: i32) -> (name: Option<String>) {
    match nix::sys::signal::Signal::try_from(signal) {
        Ok(known) => Some(known.to_string()),
        Err(_) => None,
    }
}

} // verus!
