use vstd::prelude::*;
use vstd::string::StringExecFns;
use crate::version::{parse_semver, parse_version};

verus! {

/// One dependency as the report source hands it over: a package name and
/// its current and latest version strings. Supplied externally, never
/// mutated here.
#[derive(Clone, Debug)]
pub struct PackageRecord {
    pub name: String,
    pub current_version: String,
    pub latest_version: String,
}

/// The three mutually exclusive outdated-severity classes.
#[derive(Clone, Copy, Debug, PartialEq, Eq, Structural)]
pub enum Bucket {
    Major,
    Minor,
    Patch,
}

/// Why a record produced a notice instead of (or besides) a bucket entry.
#[derive(Clone, Copy, Debug, PartialEq, Eq, Structural)]
pub enum NoticeKind {
    UpToDate,
    BadCurrentVersion,
    BadLatestVersion,
}

/// A side-effect notice about one record: the record was up to date, or one
/// of its version strings failed to parse. `detail` carries the parse
/// error's text and is empty for an up-to-date notice.
#[derive(Clone, Debug)]
pub struct Notice {
    pub kind: NoticeKind,
    pub name: String,
    pub detail: String,
}

/// The line of text the output sink prints for a notice.
pub open spec fn spec_notice_line(n: Notice) -> Seq<char> {
    match n.kind {
        NoticeKind::UpToDate => "Package "@ + n.name@ + " is up-to-date. Skipping..."@,
        NoticeKind::BadCurrentVersion => "Error parsing current version for package "@ + n.name@
            + ": "@ + n.detail@,
        NoticeKind::BadLatestVersion => "Error parsing latest version for package "@ + n.name@
            + ": "@ + n.detail@,
    }
}

impl Notice {
    /// Renders the notice as the exact line of text the sink prints.
    pub fn to_line(&self) -> (r: String)
        ensures
            r@ == spec_notice_line(*self),
    {
        match self.kind {
            NoticeKind::UpToDate => {
                let mut r = "Package ".to_owned();
                r.append(self.name.as_str());
                r.append(" is up-to-date. Skipping...");
                r
            },
            NoticeKind::BadCurrentVersion => {
                let mut r = "Error parsing current version for package ".to_owned();
                r.append(self.name.as_str());
                r.append(": ");
                r.append(self.detail.as_str());
                r
            },
            NoticeKind::BadLatestVersion => {
                let mut r = "Error parsing latest version for package ".to_owned();
                r.append(self.name.as_str());
                r.append(": ");
                r.append(self.detail.as_str());
                r
            },
        }
    }
}

/// The classifier's output: the names in each outdated bucket, in input
/// order, and the total number of input records (up-to-date and
/// unparseable ones included).
#[derive(Clone, Debug)]
pub struct ClassificationResult {
    pub outdated_major: Vec<String>,
    pub outdated_minor: Vec<String>,
    pub outdated_patch: Vec<String>,
    pub total_count: usize,
}

impl ClassificationResult {
    /// Every bucketed package is one of the counted records, so the bucket
    /// sizes sum to at most the total.
    pub open spec fn wf(self) -> bool {
        self.outdated_major@.len() + self.outdated_minor@.len() + self.outdated_patch@.len()
            <= self.total_count
    }
}

/// The bucket one record falls into: none when the two strings are
/// textually equal, none when either fails to parse, otherwise the most
/// significant differing component — and none again when all three
/// components agree (a semantically equal but textually different pair).
pub open spec fn spec_classification(cur: Seq<char>, latest: Seq<char>) -> Option<Bucket> {
    if cur == latest {
        None
    } else {
        match (parse_semver(cur), parse_semver(latest)) {
            (Some(c), Some(l)) => if c.0 != l.0 {
                Some(Bucket::Major)
            } else if c.1 != l.1 {
                Some(Bucket::Minor)
            } else if c.2 != l.2 {
                Some(Bucket::Patch)
            } else {
                None
            },
            _ => None,
        }
    }
}

/// The names of the records that fall into bucket `b`, in input order.
pub open spec fn spec_bucket_names(records: Seq<PackageRecord>, b: Bucket) -> Seq<Seq<char>>
    decreases records.len(),
{
    if records.len() == 0 {
        Seq::empty()
    } else {
        let prefix = spec_bucket_names(records.drop_last(), b);
        let r = records.last();
        if spec_classification(r.current_version@, r.latest_version@) == Some(b) {
            prefix.push(r.name@)
        } else {
            prefix
        }
    }
}

/// The notice one record produces, if any: an up-to-date notice for a
/// textually equal pair (checked before any parse), else a parse-failure
/// notice for the first version string that is not a valid semantic
/// version.
pub open spec fn spec_notice_kind(cur: Seq<char>, latest: Seq<char>) -> Option<NoticeKind> {
    if cur == latest {
        Some(NoticeKind::UpToDate)
    } else if parse_semver(cur) is None {
        Some(NoticeKind::BadCurrentVersion)
    } else if parse_semver(latest) is None {
        Some(NoticeKind::BadLatestVersion)
    } else {
        None
    }
}

/// The notices of a run, in input order, as (kind, package name) pairs.
pub open spec fn spec_notice_list(records: Seq<PackageRecord>) -> Seq<(NoticeKind, Seq<char>)>
    decreases records.len(),
{
    if records.len() == 0 {
        Seq::empty()
    } else {
        let prefix = spec_notice_list(records.drop_last());
        let r = records.last();
        match spec_notice_kind(r.current_version@, r.latest_version@) {
            Some(k) => prefix.push((k, r.name@)),
            None => prefix,
        }
    }
}

/// Classifies each record independently, in input order: textually equal
/// pairs are reported up to date; records whose version strings parse are
/// bucketed by the most significant differing component; parse failures
/// are reported and skipped. Nothing aborts the run, and `total_count` is
/// the record count whatever the per-record outcomes.
pub fn classify(records: &Vec<PackageRecord>) -> (r: (ClassificationResult, Vec<Notice>))
    ensures
        r.0.total_count == records@.len(),
        r.0.outdated_major.deep_view() == spec_bucket_names(records@, Bucket::Major),
        r.0.outdated_minor.deep_view() == spec_bucket_names(records@, Bucket::Minor),
        r.0.outdated_patch.deep_view() == spec_bucket_names(records@, Bucket::Patch),
        r.0.wf(),
        r.1@.len() == spec_notice_list(records@).len(),
        forall|j: int|
            0 <= j < r.1@.len() ==> (#[trigger] r.1@[j]).kind == spec_notice_list(records@)[j].0
                && r.1@[j].name@ == spec_notice_list(records@)[j].1 && (r.1@[j].kind
                == NoticeKind::UpToDate ==> r.1@[j].detail@ == Seq::<char>::empty()),
{
    let ghost rs = records@;
    let mut outdated_major: Vec<String> = Vec::new();
    let mut outdated_minor: Vec<String> = Vec::new();
    let mut outdated_patch: Vec<String> = Vec::new();
    let mut notices: Vec<Notice> = Vec::new();
    let n = records.len();
    let mut i: usize = 0;
    while i < n
        invariant
            i <= n,
            n == rs.len(),
            records@ == rs,
            outdated_major.deep_view() == spec_bucket_names(rs.take(i as int), Bucket::Major),
            outdated_minor.deep_view() == spec_bucket_names(rs.take(i as int), Bucket::Minor),
            outdated_patch.deep_view() == spec_bucket_names(rs.take(i as int), Bucket::Patch),
            outdated_major@.len() + outdated_minor@.len() + outdated_patch@.len() <= i,
            notices@.len() == spec_notice_list(rs.take(i as int)).len(),
            forall|j: int|
                0 <= j < notices@.len() ==> (#[trigger] notices@[j]).kind == spec_notice_list(
                    rs.take(i as int),
                )[j].0 && notices@[j].name@ == spec_notice_list(rs.take(i as int))[j].1 && (
                notices@[j].kind == NoticeKind::UpToDate ==> notices@[j].detail@
                    == Seq::<char>::empty()),
        decreases n - i,
    {
        proof {
            assert(rs.take(i + 1).drop_last() =~= rs.take(i as int));
            assert(rs.take(i + 1).last() == rs[i as int]);
        }
        let record = &records[i];
        if record.current_version == record.latest_version {
            notices.push(
                Notice {
                    kind: NoticeKind::UpToDate,
                    name: record.name.clone(),
                    detail: String::new(),
                },
            );
        } else {
            match parse_version(record.current_version.as_str()) {
                Err(message) => {
                    notices.push(
                        Notice {
                            kind: NoticeKind::BadCurrentVersion,
                            name: record.name.clone(),
                            detail: message,
                        },
                    );
                },
                Ok(current) => {
                    match parse_version(record.latest_version.as_str()) {
                        Err(message) => {
                            notices.push(
                                Notice {
                                    kind: NoticeKind::BadLatestVersion,
                                    name: record.name.clone(),
                                    detail: message,
                                },
                            );
                        },
                        Ok(latest) => {
                            if current.major != latest.major {
                                outdated_major.push(record.name.clone());
                            } else if current.minor != latest.minor {
                                outdated_minor.push(record.name.clone());
                            } else if current.patch != latest.patch {
                                outdated_patch.push(record.name.clone());
                            }
                        },
                    }
                },
            }
        }
        proof {
            assert(outdated_major.deep_view() =~= spec_bucket_names(
                rs.take(i + 1),
                Bucket::Major,
            ));
            assert(outdated_minor.deep_view() =~= spec_bucket_names(
                rs.take(i + 1),
                Bucket::Minor,
            ));
            assert(outdated_patch.deep_view() =~= spec_bucket_names(
                rs.take(i + 1),
                Bucket::Patch,
            ));
        }
        i = i + 1;
    }
    proof {
        assert(rs.take(n as int) =~= rs);
    }
    let result = ClassificationResult {
        outdated_major,
        outdated_minor,
        outdated_patch,
        total_count: n,
    };
    (result, notices)
}

} // verus!
