//! What the daemon reports about its chain, its consensus deployments and
//! its peers.

use linear_map::LinearMap;
use vstd::prelude::*;

use crate::outside::{
    human_readable_timestamp, softfork_entries, softfork_map_rows, utc_date_time, MAX_TIMESTAMP,
};

verus! {

/// How many blocks past its activation height a deployment is still shown:
/// about twelve weeks of ten-minute blocks.
pub const ACTIVE_DISPLAY_BLOCKS: usize = 12096;

/// The scale of `ChainInfo::verification_progress`: the value that stands
/// for a fully verified chain.
pub const PROGRESS_SCALE: u64 = 1_000_000_000;

/// Live signalling figures of a deployment in its `Started` state.
#[derive(Clone, Debug, PartialEq, Eq)]
pub struct Bip9Stats {
    pub period: usize,
    pub threshold: usize,
    pub elapsed: usize,
    pub count: usize,
    pub possible: bool,
}

/// The state of a version-bits deployment. The daemon drives the
/// transitions; this library only reads the state it is handed.
#[derive(Clone, Debug, PartialEq, Eq)]
pub enum Bip9 {
    Defined { start_time: u64, timeout: u64, since: usize },
    Started { bit: usize, start_time: u64, timeout: u64, since: usize, statistics: Bip9Stats },
    LockedIn { start_time: u64, timeout: u64, since: usize },
    Active { start_time: u64, timeout: u64, since: usize },
    Failed { start_time: u64, timeout: u64, since: usize },
}

/// A consensus-rule change known to the daemon.
#[derive(Clone, Debug, PartialEq, Eq)]
pub enum SoftFork {
    Buried { active: bool, height: usize },
    Bip9 { active: bool, bip9: Bip9 },
}

/// Peer connection counts.
#[derive(Clone, Debug, PartialEq, Eq)]
pub struct NetworkInfo {
    pub connections: usize,
    pub connections_in: usize,
    pub connections_out: usize,
}

/// The daemon's view of the chain at one poll.
#[derive(Clone, Debug)]
pub struct ChainInfo {
    /// Height of the last validated block.
    pub blocks: usize,
    /// Height of the best known header.
    pub headers: usize,
    /// Verified share of the chain, in units of `1 / PROGRESS_SCALE`.
    pub verification_progress: u64,
    /// Bytes that the chain data takes on disk.
    pub size_on_disk: u64,
    /// Lowest block still on disk; zero when nothing was pruned.
    pub pruneheight: usize,
    /// The deployments by name.
    pub softforks: LinearMap<String, SoftFork>,
}

/// The UTC date and time of an instant, as `MM/DD/YYYY @ HH:MM:SS`, or
/// nothing for an instant after `MAX_TIMESTAMP`, which the calendar in use
/// cannot express.
pub fn date_time(unix_time: u64) -> (text: Option<String>)
    ensures
        match text {
            Some(text) => unix_time <= MAX_TIMESTAMP && text@ == utc_date_time(unix_time),
            None => unix_time > MAX_TIMESTAMP,
        },
{
    if unix_time <= MAX_TIMESTAMP {
        Some(human_readable_timestamp(unix_time))
    } else {
        None
    }
}

impl Bip9 {
    /// When signalling for the deployment begins, in seconds since the epoch.
    pub open spec fn start(self) -> u64 {
        match self {
            Bip9::Defined { start_time, .. } => start_time,
            Bip9::Started { start_time, .. } => start_time,
            Bip9::LockedIn { start_time, .. } => start_time,
            Bip9::Active { start_time, .. } => start_time,
            Bip9::Failed { start_time, .. } => start_time,
        }
    }

    /// When the deployment attempt ends, in seconds since the epoch.
    pub open spec fn end(self) -> u64 {
        match self {
            Bip9::Defined { timeout, .. } => timeout,
            Bip9::Started { timeout, .. } => timeout,
            Bip9::LockedIn { timeout, .. } => timeout,
            Bip9::Active { timeout, .. } => timeout,
            Bip9::Failed { timeout, .. } => timeout,
        }
    }

    /// The height from which the current state applies.
    pub open spec fn since_height(self) -> usize {
        match self {
            Bip9::Defined { since, .. } => since,
            Bip9::Started { since, .. } => since,
            Bip9::LockedIn { since, .. } => since,
            Bip9::Active { since, .. } => since,
            Bip9::Failed { since, .. } => since,
        }
    }

    /// The status shown for the state. A failed deployment is shown as
    /// `"Active"`, which is what readers of the document have always seen.
    pub open spec fn label(self) -> Seq<char> {
        match self {
            Bip9::Defined { .. } => "Defined"@,
            Bip9::Started { .. } => "Started"@,
            Bip9::LockedIn { .. } => "Locked In"@,
            Bip9::Active { .. } => "Active"@,
            Bip9::Failed { .. } => "Active"@,
        }
    }

    /// Whether the deployment is left out of the document at height
    /// `blocks`: it is active and has been for `ACTIVE_DISPLAY_BLOCKS`
    /// blocks or more.
    pub open spec fn hidden_at(self, blocks: usize) -> bool {
        self is Active && blocks >= self.since_height() + ACTIVE_DISPLAY_BLOCKS
    }

    /// Whether both instants of the deployment can be written as dates.
    pub open spec fn datable(self) -> bool {
        self.start() <= MAX_TIMESTAMP && self.end() <= MAX_TIMESTAMP
    }

    /// See [`Bip9::start`].
    pub fn start_time(&self) -> (t: u64)
        ensures
            t == self.start(),
    {
        match self {
            Bip9::Defined { start_time, .. } => *start_time,
            Bip9::Started { start_time, .. } => *start_time,
            Bip9::LockedIn { start_time, .. } => *start_time,
            Bip9::Active { start_time, .. } => *start_time,
            Bip9::Failed { start_time, .. } => *start_time,
        }
    }

    /// See [`Bip9::end`].
    pub fn timeout(&self) -> (t: u64)
        ensures
            t == self.end(),
    {
        match self {
            Bip9::Defined { timeout, .. } => *timeout,
            Bip9::Started { timeout, .. } => *timeout,
            Bip9::LockedIn { timeout, .. } => *timeout,
            Bip9::Active { timeout, .. } => *timeout,
            Bip9::Failed { timeout, .. } => *timeout,
        }
    }

    /// See [`Bip9::since_height`].
    pub fn since(&self) -> (h: usize)
        ensures
            h == self.since_height(),
    {
        match self {
            Bip9::Defined { since, .. } => *since,
            Bip9::Started { since, .. } => *since,
            Bip9::LockedIn { since, .. } => *since,
            Bip9::Active { since, .. } => *since,
            Bip9::Failed { since, .. } => *since,
        }
    }

    /// See [`Bip9::label`].
    pub fn status_label(&self) -> (text: &'static str)
        ensures
            text@ == self.label(),
    {
        match self {
            Bip9::Defined { .. } => "Defined",
            Bip9::Started { .. } => "Started",
            Bip9::LockedIn { .. } => "Locked In",
            Bip9::Active { .. } => "Active",
            Bip9::Failed { .. } => "Active",
        }
    }

    /// See [`Bip9::hidden_at`].
    pub fn is_hidden_at(&self, blocks: usize) -> (hidden: bool)
        ensures
            hidden == self.hidden_at(blocks),
    {
        match self {
            Bip9::Active { since, .. } => {
                *since <= usize::MAX - ACTIVE_DISPLAY_BLOCKS && blocks >= *since
                    + ACTIVE_DISPLAY_BLOCKS
            },
            _ => false,
        }
    }

    /// See [`Bip9::datable`].
    pub fn is_datable(&self) -> (ok: bool)
        ensures
            ok == self.datable(),
    {
        self.start_time() <= MAX_TIMESTAMP && self.timeout() <= MAX_TIMESTAMP
    }
}

impl SoftFork {
    /// Whether the entries of this deployment can be written at height
    /// `blocks`: nothing is written for a buried or hidden deployment, and
    /// any other needs instants that can be written as dates.
    pub open spec fn renderable_at(self, blocks: usize) -> bool {
        match self {
            SoftFork::Buried { .. } => true,
            SoftFork::Bip9 { bip9, .. } => bip9.hidden_at(blocks) || bip9.datable(),
        }
    }

    /// See [`SoftFork::renderable_at`].
    pub fn is_renderable_at(&self, blocks: usize) -> (ok: bool)
        ensures
            ok == self.renderable_at(blocks),
    {
        match self {
            SoftFork::Buried { .. } => true,
            SoftFork::Bip9 { bip9, .. } => bip9.is_hidden_at(blocks) || bip9.is_datable(),
        }
    }
}

impl ChainInfo {
    /// The deployments in the order in which the daemon listed them.
    pub open spec fn forks(self) -> Seq<(Seq<char>, SoftFork)> {
        softfork_entries(self.softforks)
    }

    /// Whether every deployment can be written at the current height.
    pub open spec fn renderable(self) -> bool {
        forall|i: int|
            0 <= i < self.forks().len() ==> (#[trigger] self.forks()[i]).1.renderable_at(
                self.blocks,
            )
    }

    /// Puts a snapshot together from its parts.
    pub fn new(
        blocks: usize,
        headers: usize,
        verification_progress: u64,
        size_on_disk: u64,
        pruneheight: usize,
        softforks: LinearMap<String, SoftFork>,
    ) -> (info: ChainInfo)
        ensures
            info.blocks == blocks,
            info.headers == headers,
            info.verification_progress == verification_progress,
            info.size_on_disk == size_on_disk,
            info.pruneheight == pruneheight,
            info.forks() == softfork_entries(softforks),
    {
        ChainInfo { blocks, headers, verification_progress, size_on_disk, pruneheight, softforks }
    }

    /// The deployments in the order in which the daemon listed them.
    pub fn softfork_list(&self) -> (list: Vec<(String, SoftFork)>)
        ensures
            list@.len() == self.forks().len(),
            forall|i: int|
                0 <= i < list@.len() ==> (#[trigger] list@[i]).0@ == self.forks()[i].0
                    && list@[i].1 == self.forks()[i].1,
    {
        softfork_map_rows(&self.softforks)
    }

    /// See [`ChainInfo::renderable`].
    pub fn is_renderable(&self) -> (ok: bool)
        ensures
            ok == self.renderable(),
    {
        let list = self.softfork_list();
        let mut i: usize = 0;
        while i < list.len()
            invariant
                i <= list@.len(),
                list@.len() == self.forks().len(),
                forall|k: int|
                    0 <= k < list@.len() ==> (#[trigger] list@[k]).1 == self.forks()[k].1,
                forall|k: int|
                    0 <= k < i ==> (#[trigger] self.forks()[k]).1.renderable_at(self.blocks),
            decreases list@.len() - i,
        {
            if !list[i].1.is_renderable_at(self.blocks) {
                return false;
            }
            i = i + 1;
        }
        true
    }
}

} // verus!
