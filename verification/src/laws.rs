use vstd::prelude::*;
use vstd::arithmetic::div_mod::{lemma_fundamental_div_mod, lemma_mod_division_less_than_divisor};
use crate::classify::{
    spec_bucket_names, spec_classification, spec_notice_kind, Bucket, ClassificationResult,
    NoticeKind, PackageRecord,
};
use crate::report::{spec_pct, spec_render};
use crate::version::parse_semver;

verus! {

/// A textually equal version pair is decided before any parse: it is never
/// bucketed, and it yields the up-to-date notice.
pub proof fn lemma_up_to_date(cur: Seq<char>, latest: Seq<char>)
    requires
        cur == latest,
    ensures
        spec_classification(cur, latest) is None,
        spec_notice_kind(cur, latest) == Some(NoticeKind::UpToDate),
{
}

/// An unparseable version string keeps its record out of every bucket.
pub proof fn lemma_unparseable_unbucketed(cur: Seq<char>, latest: Seq<char>)
    requires
        parse_semver(cur) is None || parse_semver(latest) is None,
    ensures
        spec_classification(cur, latest) is None,
{
}

/// For a parseable, textually unequal pair the bucket is the most
/// significant differing component, and a pair with all three components
/// equal is left unbucketed. The classification is a single
/// `Option<Bucket>`, so no pair ever names more than one bucket.
pub proof fn lemma_bucket_choice(cur: Seq<char>, latest: Seq<char>)
    requires
        cur != latest,
        parse_semver(cur) is Some,
        parse_semver(latest) is Some,
    ensures
        ({
            let c = parse_semver(cur)->Some_0;
            let l = parse_semver(latest)->Some_0;
            &&& c.0 != l.0 ==> spec_classification(cur, latest) == Some(Bucket::Major)
            &&& c.0 == l.0 && c.1 != l.1 ==> spec_classification(cur, latest) == Some(
                Bucket::Minor,
            )
            &&& c.0 == l.0 && c.1 == l.1 && c.2 != l.2 ==> spec_classification(cur, latest)
                == Some(Bucket::Patch)
            &&& c == l ==> spec_classification(cur, latest) is None
        }),
{
}

/// Bucket contents are computed record by record, in order: the bucket
/// names of a concatenation are the concatenation of the bucket names.
pub proof fn lemma_bucket_names_concat(a: Seq<PackageRecord>, b: Seq<PackageRecord>, bucket: Bucket)
    ensures
        spec_bucket_names(a + b, bucket) == spec_bucket_names(a, bucket) + spec_bucket_names(
            b,
            bucket,
        ),
    decreases b.len(),
{
    if b.len() == 0 {
        assert(a + b =~= a);
        assert(spec_bucket_names(a, bucket) + spec_bucket_names(b, bucket) =~= spec_bucket_names(
            a,
            bucket,
        ));
    } else {
        lemma_bucket_names_concat(a, b.drop_last(), bucket);
        assert((a + b).drop_last() =~= a + b.drop_last());
        assert((a + b).last() == b.last());
        assert(spec_bucket_names(a + b, bucket) =~= spec_bucket_names(a, bucket)
            + spec_bucket_names(b, bucket));
    }
}

/// A record appears in exactly the bucket its classification names, at the
/// place input order gives it, and in no other bucket: around it each
/// bucket sequence splits into the contributions of the records before and
/// after, with the record's own contribution in between — one name where
/// the classification names this bucket, nothing otherwise.
pub proof fn lemma_record_in_one_bucket(records: Seq<PackageRecord>, i: int, bucket: Bucket)
    requires
        0 <= i < records.len(),
    ensures
        spec_bucket_names(records, bucket) == spec_bucket_names(records.subrange(0, i), bucket) + (
        if spec_classification(records[i].current_version@, records[i].latest_version@) == Some(
            bucket,
        ) {
            seq![records[i].name@]
        } else {
            Seq::<Seq<char>>::empty()
        }) + spec_bucket_names(records.subrange(i + 1, records.len() as int), bucket),
{
    let before = records.subrange(0, i);
    let mid = seq![records[i]];
    let after = records.subrange(i + 1, records.len() as int);
    assert(records =~= before + mid + after);
    lemma_bucket_names_concat(before + mid, after, bucket);
    lemma_bucket_names_concat(before, mid, bucket);
    assert(mid.drop_last() =~= Seq::<PackageRecord>::empty());
    assert(mid.last() == records[i]);
    assert(spec_bucket_names(Seq::<PackageRecord>::empty(), bucket) == Seq::<Seq<char>>::empty());
    if spec_classification(records[i].current_version@, records[i].latest_version@) == Some(
        bucket,
    ) {
        assert(spec_bucket_names(mid, bucket) =~= seq![records[i].name@]);
    } else {
        assert(spec_bucket_names(mid, bucket) =~= Seq::<Seq<char>>::empty());
    }
}

/// The rounded percentage is within half a point of the exact ratio
/// `100 * count / total`: rounding goes to the nearest whole number,
/// halves up.
pub proof fn lemma_pct_nearest(c: nat, t: nat)
    requires
        0 < t,
    ensures
        200 * (c as int) - (t as int) < 2 * (t as int) * (spec_pct(c, t) as int) <= 200 * (
        c as int) + (t as int),
{
    let x = (200 * c + t) as int;
    let d = (2 * t) as int;
    lemma_fundamental_div_mod(x, d);
    lemma_mod_division_less_than_divisor(x, d);
}

/// The three rounded bucket percentages sum to within one point of the
/// rounded overall percentage.
pub proof fn lemma_percentages_add_up(ma: nat, mi: nat, pa: nat, t: nat)
    requires
        0 < t,
    ensures
        spec_pct(ma, t) + spec_pct(mi, t) + spec_pct(pa, t) <= spec_pct((ma + mi + pa) as nat, t)
            + 1,
        spec_pct((ma + mi + pa) as nat, t) <= spec_pct(ma, t) + spec_pct(mi, t) + spec_pct(pa, t)
            + 1,
{
    lemma_pct_nearest(ma, t);
    lemma_pct_nearest(mi, t);
    lemma_pct_nearest(pa, t);
    lemma_pct_nearest((ma + mi + pa) as nat, t);
    let ti = t as int;
    let a = spec_pct(ma, t) as int;
    let b = spec_pct(mi, t) as int;
    let c = spec_pct(pa, t) as int;
    let o = spec_pct((ma + mi + pa) as nat, t) as int;
    assert((a + b + c <= o + 1) && (o <= a + b + c + 1)) by (nonlinear_arith)
        requires
            0 < ti,
            200 * (ma as int) - ti < 2 * ti * a <= 200 * (ma as int) + ti,
            200 * (mi as int) - ti < 2 * ti * b <= 200 * (mi as int) + ti,
            200 * (pa as int) - ti < 2 * ti * c <= 200 * (pa as int) + ti,
            200 * ((ma + mi + pa) as int) - ti < 2 * ti * o <= 200 * ((ma + mi + pa) as int) + ti,
    ;
}

/// One input, one report: any two classification results that meet the
/// classifier's contract for the same records render to identical text, so
/// classifying and rendering twice gives byte-identical output.
pub proof fn lemma_report_idempotent(
    records: Seq<PackageRecord>,
    a: ClassificationResult,
    b: ClassificationResult,
)
    requires
        a.total_count == records.len(),
        a.outdated_major.deep_view() == spec_bucket_names(records, Bucket::Major),
        a.outdated_minor.deep_view() == spec_bucket_names(records, Bucket::Minor),
        a.outdated_patch.deep_view() == spec_bucket_names(records, Bucket::Patch),
        b.total_count == records.len(),
        b.outdated_major.deep_view() == spec_bucket_names(records, Bucket::Major),
        b.outdated_minor.deep_view() == spec_bucket_names(records, Bucket::Minor),
        b.outdated_patch.deep_view() == spec_bucket_names(records, Bucket::Patch),
    ensures
        spec_render(a) == spec_render(b),
{
    assert(a.outdated_major.deep_view().len() == a.outdated_major@.len());
    assert(a.outdated_minor.deep_view().len() == a.outdated_minor@.len());
    assert(a.outdated_patch.deep_view().len() == a.outdated_patch@.len());
    assert(b.outdated_major.deep_view().len() == b.outdated_major@.len());
    assert(b.outdated_minor.deep_view().len() == b.outdated_minor@.len());
    assert(b.outdated_patch.deep_view().len() == b.outdated_patch@.len());
    assert(a.outdated_major@.len() == b.outdated_major@.len());
    assert(a.outdated_minor@.len() == b.outdated_minor@.len());
    assert(a.outdated_patch@.len() == b.outdated_patch@.len());
}

} // verus!
