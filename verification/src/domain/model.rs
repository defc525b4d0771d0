//! The plan of one download, the phases of an attempt and the measure of its
//! progress.

use vstd::prelude::*;

verus! {

/// What one successful handshake yields. A plan serves one attempt: the link
/// in it is signed for a single use.
#[derive(Debug, Clone, PartialEq, Eq)]
pub struct DownloadPlan {
    pub title: String,
    pub download_url: String,
    pub suggested_filename: String,
}

impl DownloadPlan {
    /// A second copy of the plan.
    pub fn duplicate(&self) -> (copy: DownloadPlan)
        ensures
            copy == *self,
    {
        DownloadPlan {
            title: self.title.clone(),
            download_url: self.download_url.clone(),
            suggested_filename: self.suggested_filename.clone(),
        }
    }
}

/// Where an attempt stands.
#[derive(Debug, Clone, Copy, PartialEq, Eq, Structural)]
pub enum DownloadPhase {
    Idle,
    Preparing,
    AwaitingSavePath,
    Downloading,
    Completed,
    Failed,
}

impl DownloadPhase {
    /// An attempt is under way: a new request is not accepted.
    pub open spec fn busy(self) -> bool {
        self == DownloadPhase::Preparing || self == DownloadPhase::AwaitingSavePath || self
            == DownloadPhase::Downloading
    }

    /// Whether an attempt is under way.
    pub fn is_busy(&self) -> (busy: bool)
        ensures
            busy == self.busy(),
    {
        match self {
            DownloadPhase::Preparing | DownloadPhase::AwaitingSavePath | DownloadPhase::Downloading => true,
            _ => false,
        }
    }
}

/// The fraction of a transfer that is done: `numerator / denominator`.
#[derive(Debug, Clone, Copy, PartialEq, Eq, Structural)]
pub struct Progress {
    pub numerator: u64,
    pub denominator: u64,
}

impl Progress {
    /// The denominator is not zero.
    pub open spec fn wf(self) -> bool {
        self.denominator > 0
    }

    /// The fraction is zero.
    pub open spec fn is_zero(self) -> bool {
        self.numerator == 0
    }

    /// The fraction is at least one.
    pub open spec fn is_full(self) -> bool {
        self.numerator >= self.denominator
    }

    /// The fraction is at most `other`.
    pub open spec fn at_most(self, other: Progress) -> bool {
        self.numerator * other.denominator <= other.numerator * self.denominator
    }

    /// The fraction reported for `downloaded` bytes of `total`: their
    /// quotient where the total is known and positive, zero otherwise.
    pub open spec fn of(downloaded: u64, total: Option<u64>) -> Progress {
        match total {
            Some(t) => if t > 0 {
                Progress { numerator: downloaded, denominator: t }
            } else {
                Progress { numerator: 0, denominator: 1 }
            },
            None => Progress { numerator: 0, denominator: 1 },
        }
    }

    /// No progress.
    pub fn zero() -> (p: Progress)
        ensures
            p == (Progress { numerator: 0, denominator: 1 }),
    {
        Progress { numerator: 0, denominator: 1 }
    }

    /// The fraction reported for `downloaded` bytes of `total`.
    pub fn new(downloaded: u64, total: Option<u64>) -> (p: Progress)
        ensures
            p == Progress::of(downloaded, total),
            p.wf(),
    {
        match total {
            Some(t) => if t > 0 {
                Progress { numerator: downloaded, denominator: t }
            } else {
                Progress::zero()
            },
            None => Progress::zero(),
        }
    }

    /// Whether the fraction is at least one.
    pub fn is_complete(&self) -> (full: bool)
        ensures
            full == self.is_full(),
    {
        self.numerator >= self.denominator
    }
}

} // verus!
