//! Choosing the best-matching stream representation from a candidate
//! list, by media kind, quality tier and codec preference.
//!
//! Policy: candidates of the requested media kind are searched tier by
//! tier, starting at the requested tier and moving outward, one tier
//! lower in quality before one tier higher. At each tier, a candidate
//! carrying the requested codec is preferred; failing that, a candidate
//! tagged `Any`. If no tier holds a codec-compatible candidate, the
//! search repeats ignoring codecs, so the selector comes back empty
//! only when no candidate of the requested kind exists at all.

use vstd::prelude::*;

use crate::formats::{Codec, MediaKind, QualityTier, StreamFormat, VideoCodec, VideoQuality,
    AudioCodec, AudioQuality};

verus! {

/// Whether a candidate at one list position satisfies media kind,
/// quality tier, and codec filter. `None` as the filter accepts every
/// codec; `Some(c)` demands exactly `c`.
pub open spec fn seg_match(f: StreamFormat, kind: MediaKind, t: int, c: Option<Codec>) -> bool {
    &&& f.kind == kind
    &&& f.quality.rank_spec() == t
    &&& match c {
        Some(cc) => f.codec == cc,
        None => true,
    }
}

/// Index of the first candidate at or after position `i` that passes
/// the filter, if any.
pub open spec fn first_match_from(
    s: Seq<StreamFormat>,
    i: int,
    kind: MediaKind,
    t: int,
    c: Option<Codec>,
) -> Option<int>
    decreases s.len() - i,
{
    if i >= s.len() {
        None
    } else if seg_match(s[i], kind, t, c) {
        Some(i)
    } else {
        first_match_from(s, i + 1, kind, t, c)
    }
}

/// The candidate chosen at one quality tier: the first with the
/// requested codec, else the first tagged `Any`. A preference of `Any`
/// accepts every codec outright.
pub open spec fn pick_at_tier(s: Seq<StreamFormat>, kind: MediaKind, t: int, c: Codec) -> Option<
    int,
> {
    if c == Codec::Any {
        first_match_from(s, 0, kind, t, None)
    } else {
        match first_match_from(s, 0, kind, t, Some(c)) {
            Some(i) => Some(i),
            None => first_match_from(s, 0, kind, t, Some(Codec::Any)),
        }
    }
}

/// The quality tiers in preference order for a requested rank: the
/// requested tier first, then outward, one tier lower in quality
/// before one tier higher.
pub open spec fn tier_order(r: int) -> Seq<u8> {
    if r == 0 {
        seq![0u8, 1u8, 2u8, 3u8, 4u8]
    } else if r == 1 {
        seq![1u8, 2u8, 0u8, 3u8, 4u8]
    } else if r == 2 {
        seq![2u8, 3u8, 1u8, 4u8, 0u8]
    } else if r == 3 {
        seq![3u8, 4u8, 2u8, 1u8, 0u8]
    } else {
        seq![4u8, 3u8, 2u8, 1u8, 0u8]
    }
}

/// First pick over the remaining tiers of the preference order,
/// starting at position `k`.
pub open spec fn scan_tiers_from(
    s: Seq<StreamFormat>,
    kind: MediaKind,
    order: Seq<u8>,
    k: int,
    c: Codec,
) -> Option<int>
    decreases order.len() - k,
{
    if k >= order.len() {
        None
    } else {
        match pick_at_tier(s, kind, order[k] as int, c) {
            Some(i) => Some(i),
            None => scan_tiers_from(s, kind, order, k + 1, c),
        }
    }
}

/// Index of the selected candidate: a codec-respecting scan over the
/// tier preference order, then, if that found nothing, the same scan
/// ignoring codecs.
pub open spec fn select_idx(
    s: Seq<StreamFormat>,
    kind: MediaKind,
    q: QualityTier,
    c: Codec,
) -> Option<int> {
    let order = tier_order(q.rank_spec());
    match scan_tiers_from(s, kind, order, 0, c) {
        Some(i) => Some(i),
        None => scan_tiers_from(s, kind, order, 0, Codec::Any),
    }
}

/// The selected candidate itself.
pub open spec fn select_spec(
    s: Seq<StreamFormat>,
    kind: MediaKind,
    q: QualityTier,
    c: Codec,
) -> Option<StreamFormat> {
    match select_idx(s, kind, q, c) {
        Some(i) => Some(s[i]),
        None => None,
    }
}

/// Whether a stream codec satisfies a codec preference.
pub open spec fn compat(c: Codec, fc: Codec) -> bool {
    c == Codec::Any || fc == c || fc == Codec::Any
}

/// Whether some candidate of the kind at tier `t` satisfies the codec
/// preference.
pub open spec fn has_candidate_at(s: Seq<StreamFormat>, kind: MediaKind, t: int, c: Codec) -> bool {
    exists|i: int|
        0 <= i < s.len() && #[trigger] seg_match(s[i], kind, t, None) && compat(c, s[i].codec)
}

/// Whether some candidate of the kind at tier `t` carries exactly
/// codec `c`.
pub open spec fn has_exact_at(s: Seq<StreamFormat>, kind: MediaKind, t: int, c: Codec) -> bool {
    exists|i: int| 0 <= i < s.len() && #[trigger] seg_match(s[i], kind, t, Some(c))
}

proof fn lemma_first_match_from_props(
    s: Seq<StreamFormat>,
    i: int,
    kind: MediaKind,
    t: int,
    c: Option<Codec>,
)
    requires
        0 <= i,
    ensures
        match first_match_from(s, i, kind, t, c) {
            Some(j) => i <= j < s.len() && seg_match(s[j], kind, t, c) && (forall|m: int|
                i <= m < j ==> !#[trigger] seg_match(s[m], kind, t, c)),
            None => forall|m: int| i <= m < s.len() ==> !#[trigger] seg_match(s[m], kind, t, c),
        },
    decreases s.len() - i,
{
    if i < s.len() && !seg_match(s[i], kind, t, c) {
        lemma_first_match_from_props(s, i + 1, kind, t, c);
    }
}

proof fn lemma_pick_at_tier_props(s: Seq<StreamFormat>, kind: MediaKind, t: int, c: Codec)
    ensures
        pick_at_tier(s, kind, t, c) is Some <==> has_candidate_at(s, kind, t, c),
        match pick_at_tier(s, kind, t, c) {
            Some(i) => 0 <= i < s.len() && seg_match(s[i], kind, t, None) && compat(
                c,
                s[i].codec,
            ),
            None => true,
        },
        c != Codec::Any && has_exact_at(s, kind, t, c) ==> match pick_at_tier(s, kind, t, c) {
            Some(i) => 0 <= i < s.len() && s[i].codec == c,
            None => false,
        },
        c != Codec::Any && !has_exact_at(s, kind, t, c) ==> match pick_at_tier(s, kind, t, c) {
            Some(i) => 0 <= i < s.len() && s[i].codec == Codec::Any,
            None => true,
        },
{
    lemma_first_match_from_props(s, 0, kind, t, None);
    if c != Codec::Any {
        lemma_first_match_from_props(s, 0, kind, t, Some(c));
        lemma_first_match_from_props(s, 0, kind, t, Some(Codec::Any));
    }
    match pick_at_tier(s, kind, t, c) {
        Some(j) => {
            assert(seg_match(s[j], kind, t, None));
            assert(has_candidate_at(s, kind, t, c));
        },
        None => {
            if has_candidate_at(s, kind, t, c) {
                let i = choose|i: int|
                    0 <= i < s.len() && #[trigger] seg_match(s[i], kind, t, None) && compat(
                        c,
                        s[i].codec,
                    );
                if c == Codec::Any {
                    assert(seg_match(s[i], kind, t, None));
                } else if s[i].codec == c {
                    assert(seg_match(s[i], kind, t, Some(c)));
                } else {
                    assert(s[i].codec == Codec::Any);
                    assert(seg_match(s[i], kind, t, Some(Codec::Any)));
                }
                assert(false);
            }
        },
    }
}

proof fn lemma_scan_tiers_from_props(
    s: Seq<StreamFormat>,
    kind: MediaKind,
    order: Seq<u8>,
    k: int,
    c: Codec,
)
    requires
        0 <= k,
    ensures
        match scan_tiers_from(s, kind, order, k, c) {
            Some(i) => exists|kk: int|
                k <= kk < order.len() && #[trigger] pick_at_tier(s, kind, order[kk] as int, c)
                    == Some(i) && (forall|m: int|
                    k <= m < kk ==> #[trigger] pick_at_tier(s, kind, order[m] as int, c) is None),
            None => forall|m: int|
                k <= m < order.len() ==> #[trigger] pick_at_tier(
                    s,
                    kind,
                    order[m] as int,
                    c,
                ) is None,
        },
    decreases order.len() - k,
{
    if k < order.len() {
        if pick_at_tier(s, kind, order[k] as int, c) is Some {
        } else {
            lemma_scan_tiers_from_props(s, kind, order, k + 1, c);
            match scan_tiers_from(s, kind, order, k + 1, c) {
                Some(i) => {
                    let kk = choose|kk: int|
                        k + 1 <= kk < order.len() && #[trigger] pick_at_tier(
                            s,
                            kind,
                            order[kk] as int,
                            c,
                        ) == Some(i) && (forall|m: int|
                            k + 1 <= m < kk ==> #[trigger] pick_at_tier(
                                s,
                                kind,
                                order[m] as int,
                                c,
                            ) is None);
                    assert(k <= kk < order.len() && pick_at_tier(s, kind, order[kk] as int, c)
                        == Some(i) && (forall|m: int|
                        k <= m < kk ==> #[trigger] pick_at_tier(
                            s,
                            kind,
                            order[m] as int,
                            c,
                        ) is None));
                },
                None => {},
            }
        }
    }
}

proof fn lemma_tier_order_table(r: int)
    requires
        0 <= r < 5,
    ensures
        tier_order(r).len() == 5,
        tier_order(r)[0] as int == r,
        r < 4 ==> tier_order(r)[1] as int == r + 1,
        forall|k: int| 0 <= k < 5 ==> (#[trigger] tier_order(r)[k]) < 5,
{
}

proof fn lemma_tier_order_covers(r: int, t: int)
    requires
        0 <= r < 5,
        0 <= t < 5,
    ensures
        exists|k: int| 0 <= k < 5 && (#[trigger] tier_order(r)[k]) as int == t,
{
    let ord = tier_order(r);
    if ord[0] as int == t {
        assert(0 <= 0 < 5 && tier_order(r)[0] as int == t);
    } else if ord[1] as int == t {
        assert(0 <= 1 < 5 && tier_order(r)[1] as int == t);
    } else if ord[2] as int == t {
        assert(0 <= 2 < 5 && tier_order(r)[2] as int == t);
    } else if ord[3] as int == t {
        assert(0 <= 3 < 5 && tier_order(r)[3] as int == t);
    } else {
        assert(tier_order(r)[4] as int == t);
    }
}

/// The selection never invents a candidate: a selected format sits in
/// the list, is of the requested media kind, and is returned whole.
pub proof fn lemma_select_sound(s: Seq<StreamFormat>, kind: MediaKind, q: QualityTier, c: Codec)
    ensures
        match select_spec(s, kind, q, c) {
            Some(f) => exists|i: int| 0 <= i < s.len() && s[i] == f && f.kind == kind,
            None => true,
        },
{
    let order = tier_order(q.rank_spec());
    lemma_scan_tiers_from_props(s, kind, order, 0, c);
    lemma_scan_tiers_from_props(s, kind, order, 0, Codec::Any);
    match select_idx(s, kind, q, c) {
        Some(i) => {
            let scan1 = scan_tiers_from(s, kind, order, 0, c);
            if scan1 is Some {
                let kk = choose|kk: int|
                    0 <= kk < order.len() && #[trigger] pick_at_tier(s, kind, order[kk] as int, c)
                        == Some(i);
                lemma_pick_at_tier_props(s, kind, order[kk] as int, c);
            } else {
                let kk = choose|kk: int|
                    0 <= kk < order.len() && #[trigger] pick_at_tier(
                        s,
                        kind,
                        order[kk] as int,
                        Codec::Any,
                    ) == Some(i);
                lemma_pick_at_tier_props(s, kind, order[kk] as int, Codec::Any);
            }
        },
        None => {},
    }
}

/// Exhaustion: the selector comes back empty exactly when the list
/// holds no candidate of the requested media kind.
pub proof fn lemma_select_exhaustion(
    s: Seq<StreamFormat>,
    kind: MediaKind,
    q: QualityTier,
    c: Codec,
)
    ensures
        select_spec(s, kind, q, c) is None <==> (forall|i: int|
            0 <= i < s.len() ==> (#[trigger] s[i]).kind != kind),
{
    let order = tier_order(q.rank_spec());
    lemma_tier_order_table(q.rank_spec());
    lemma_scan_tiers_from_props(s, kind, order, 0, c);
    lemma_scan_tiers_from_props(s, kind, order, 0, Codec::Any);
    if select_spec(s, kind, q, c) is None {
        assert forall|i: int| 0 <= i < s.len() implies (#[trigger] s[i]).kind != kind by {
            if s[i].kind == kind {
                let t = s[i].quality.rank_spec();
                assert(0 <= t < 5);
                lemma_tier_order_covers(q.rank_spec(), t);
                let kt = choose|k: int| 0 <= k < 5 && (#[trigger] tier_order(q.rank_spec())[k]) as int == t;
                assert(order[kt] as int == t);
                assert(seg_match(s[i], kind, t, None));
                assert(compat(Codec::Any, s[i].codec));
                assert(has_candidate_at(s, kind, t, Codec::Any));
                lemma_pick_at_tier_props(s, kind, t, Codec::Any);
                assert(pick_at_tier(s, kind, order[kt] as int, Codec::Any) is Some);
                assert(false);
            }
        }
    } else {
        lemma_select_sound(s, kind, q, c);
    }
}

/// Graceful degradation: when some tier holds a codec-compatible
/// candidate, the selector returns one, and it sits at the first such
/// tier of the preference order — the requested tier, else outward
/// from it, lower quality before higher.
pub proof fn lemma_select_tier_order(s: Seq<StreamFormat>, kind: MediaKind, q: QualityTier, c: Codec)
    requires
        exists|t: int| 0 <= t < 5 && #[trigger] has_candidate_at(s, kind, t, c),
    ensures
        select_spec(s, kind, q, c) is Some,
        ({
            let f = select_spec(s, kind, q, c).unwrap();
            let order = tier_order(q.rank_spec());
            &&& f.kind == kind
            &&& compat(c, f.codec)
            &&& exists|k: int|
                0 <= k < 5 && (#[trigger] order[k]) as int == f.quality.rank_spec() && (forall|
                    m: int,
                |
                    0 <= m < k ==> !has_candidate_at(s, kind, order[m] as int, c))
        }),
{
    let r = q.rank_spec();
    let order = tier_order(r);
    lemma_tier_order_table(r);
    lemma_scan_tiers_from_props(s, kind, order, 0, c);
    let t0 = choose|t: int| 0 <= t < 5 && #[trigger] has_candidate_at(s, kind, t, c);
    lemma_tier_order_covers(r, t0);
    let k0 = choose|k: int| 0 <= k < 5 && (#[trigger] tier_order(r)[k]) as int == t0;
    lemma_pick_at_tier_props(s, kind, t0, c);
    match scan_tiers_from(s, kind, order, 0, c) {
        Some(i) => {
            let kk = choose|kk: int|
                0 <= kk < order.len() && #[trigger] pick_at_tier(s, kind, order[kk] as int, c)
                    == Some(i) && (forall|m: int|
                    0 <= m < kk ==> #[trigger] pick_at_tier(s, kind, order[m] as int, c) is None);
            lemma_pick_at_tier_props(s, kind, order[kk] as int, c);
            let f = select_spec(s, kind, q, c).unwrap();
            assert(f == s[i]);
            assert(f.quality.rank_spec() == order[kk] as int);
            assert forall|m: int| 0 <= m < kk implies !has_candidate_at(
                s,
                kind,
                order[m] as int,
                c,
            ) by {
                lemma_pick_at_tier_props(s, kind, order[m] as int, c);
            }
            assert(0 <= kk < 5 && order[kk] as int == f.quality.rank_spec() && (forall|m: int|
                0 <= m < kk ==> !has_candidate_at(s, kind, order[m] as int, c)));
        },
        None => {
            assert(pick_at_tier(s, kind, order[k0] as int, c) is None);
            assert(false);
        },
    }
}

/// Codec fallback: under a definite codec preference, when a
/// codec-compatible candidate exists somewhere, the chosen candidate
/// carries the requested codec whenever its tier offers one, and an
/// `Any`-tagged candidate of that same tier otherwise.
pub proof fn lemma_select_codec_fallback(
    s: Seq<StreamFormat>,
    kind: MediaKind,
    q: QualityTier,
    c: Codec,
)
    requires
        c != Codec::Any,
        exists|t: int| 0 <= t < 5 && #[trigger] has_candidate_at(s, kind, t, c),
    ensures
        select_spec(s, kind, q, c) is Some,
        ({
            let f = select_spec(s, kind, q, c).unwrap();
            &&& has_exact_at(s, kind, f.quality.rank_spec(), c) ==> f.codec == c
            &&& !has_exact_at(s, kind, f.quality.rank_spec(), c) ==> f.codec == Codec::Any
        }),
{
    let r = q.rank_spec();
    let order = tier_order(r);
    lemma_tier_order_table(r);
    lemma_scan_tiers_from_props(s, kind, order, 0, c);
    let t0 = choose|t: int| 0 <= t < 5 && #[trigger] has_candidate_at(s, kind, t, c);
    lemma_tier_order_covers(r, t0);
    let k0 = choose|k: int| 0 <= k < 5 && (#[trigger] tier_order(r)[k]) as int == t0;
    lemma_pick_at_tier_props(s, kind, t0, c);
    match scan_tiers_from(s, kind, order, 0, c) {
        Some(i) => {
            let kk = choose|kk: int|
                0 <= kk < order.len() && #[trigger] pick_at_tier(s, kind, order[kk] as int, c)
                    == Some(i);
            lemma_pick_at_tier_props(s, kind, order[kk] as int, c);
            let f = select_spec(s, kind, q, c).unwrap();
            assert(f == s[i]);
            assert(f.quality.rank_spec() == order[kk] as int);
        },
        None => {
            assert(pick_at_tier(s, kind, order[k0] as int, c) is None);
            assert(false);
        },
    }
}

/// Determinism: the selection is a function of the candidate list and
/// the preferences alone, so two results over the same inputs agree.
pub proof fn lemma_select_deterministic(
    s: Seq<StreamFormat>,
    kind: MediaKind,
    q: QualityTier,
    c: Codec,
    r1: Option<StreamFormat>,
    r2: Option<StreamFormat>,
)
    requires
        r1 == select_spec(s, kind, q, c),
        r2 == select_spec(s, kind, q, c),
    ensures
        r1 == r2,
{
}

/// First candidate at or after position `i` that passes the filter.
fn find_match_from(
    formats: &Vec<StreamFormat>,
    kind: MediaKind,
    t: u8,
    c: Option<Codec>,
) -> (r: Option<usize>)
    ensures
        match r {
            Some(i) => i < formats@.len() && first_match_from(formats@, 0, kind, t as int, c)
                == Some(i as int),
            None => first_match_from(formats@, 0, kind, t as int, c) is None,
        },
{
    let mut i: usize = 0;
    while i < formats.len()
        invariant
            0 <= i <= formats@.len(),
            first_match_from(formats@, 0, kind, t as int, c) == first_match_from(
                formats@,
                i as int,
                kind,
                t as int,
                c,
            ),
        decreases formats@.len() - i,
    {
        let f = &formats[i];
        let codec_ok = match c {
            Some(cc) => f.codec == cc,
            None => true,
        };
        if f.kind == kind && f.quality.rank() == t && codec_ok {
            assert(seg_match(formats@[i as int], kind, t as int, c));
            return Some(i);
        }
        assert(!seg_match(formats@[i as int], kind, t as int, c));
        i = i + 1;
    }
    None
}

/// The candidate chosen at one quality tier, respecting the codec
/// preference with its `Any` fallback.
fn pick_at_tier_exec(formats: &Vec<StreamFormat>, kind: MediaKind, t: u8, c: Codec) -> (r: Option<
    usize,
>)
    ensures
        match r {
            Some(i) => i < formats@.len() && pick_at_tier(formats@, kind, t as int, c) == Some(
                i as int,
            ),
            None => pick_at_tier(formats@, kind, t as int, c) is None,
        },
{
    if c == Codec::Any {
        find_match_from(formats, kind, t, None)
    } else {
        match find_match_from(formats, kind, t, Some(c)) {
            Some(i) => Some(i),
            None => find_match_from(formats, kind, t, Some(Codec::Any)),
        }
    }
}

/// The tier preference order for a requested rank.
fn tier_preference_order(r: u8) -> (ord: Vec<u8>)
    requires
        r < 5,
    ensures
        ord@ == tier_order(r as int),
{
    let ord: Vec<u8> = match r {
        0 => vec![0, 1, 2, 3, 4],
        1 => vec![1, 2, 0, 3, 4],
        2 => vec![2, 3, 1, 4, 0],
        3 => vec![3, 4, 2, 1, 0],
        _ => vec![4, 3, 2, 1, 0],
    };
    proof {
        assert(ord@ =~= tier_order(r as int));
    }
    ord
}

/// Scan the tier preference order for the first tier yielding a pick.
fn scan_tiers_exec(
    formats: &Vec<StreamFormat>,
    kind: MediaKind,
    order: &Vec<u8>,
    c: Codec,
) -> (r: Option<usize>)
    ensures
        match r {
            Some(i) => i < formats@.len() && scan_tiers_from(formats@, kind, order@, 0, c) == Some(
                i as int,
            ),
            None => scan_tiers_from(formats@, kind, order@, 0, c) is None,
        },
{
    let mut k: usize = 0;
    while k < order.len()
        invariant
            0 <= k <= order@.len(),
            scan_tiers_from(formats@, kind, order@, 0, c) == scan_tiers_from(
                formats@,
                kind,
                order@,
                k as int,
                c,
            ),
        decreases order@.len() - k,
    {
        match pick_at_tier_exec(formats, kind, order[k], c) {
            Some(i) => {
                return Some(i);
            },
            None => {},
        }
        k = k + 1;
    }
    None
}

/// Select the best-matching representation of the requested media kind
/// from the candidate list, degrading outward from the requested
/// quality tier and falling back from the requested codec to
/// `Any`-tagged candidates, then to any codec. Returns `None` exactly
/// when no candidate of the kind exists.
pub fn select(
    formats: &Vec<StreamFormat>,
    kind: MediaKind,
    quality: QualityTier,
    codec: Codec,
) -> (r: Option<StreamFormat>)
    ensures
        r == select_spec(formats@, kind, quality, codec),
        r is None <==> (forall|i: int|
            0 <= i < formats@.len() ==> (#[trigger] formats@[i]).kind != kind),
{
    proof {
        lemma_select_exhaustion(formats@, kind, quality, codec);
    }
    let rank = quality.rank();
    let order = tier_preference_order(rank);
    match scan_tiers_exec(formats, kind, &order, codec) {
        Some(i) => Some(formats[i].clone()),
        None => {
            match scan_tiers_exec(formats, kind, &order, Codec::Any) {
                Some(i) => Some(formats[i].clone()),
                None => None,
            }
        },
    }
}

/// Select a video representation for the given user preferences.
pub fn select_video_format(formats: &Vec<StreamFormat>, quality: VideoQuality, codec: VideoCodec)
    -> (r: Option<StreamFormat>)
    ensures
        r == select_spec(formats@, MediaKind::Video, quality.tier_spec(), codec.codec_spec()),
{
    select(formats, MediaKind::Video, quality.tier(), codec.codec())
}

/// Select an audio representation for the given user preferences.
pub fn select_audio_format(formats: &Vec<StreamFormat>, quality: AudioQuality, codec: AudioCodec)
    -> (r: Option<StreamFormat>)
    ensures
        r == select_spec(formats@, MediaKind::Audio, quality.tier_spec(), codec.codec_spec()),
{
    select(formats, MediaKind::Audio, quality.tier(), codec.codec())
}

} // verus!
