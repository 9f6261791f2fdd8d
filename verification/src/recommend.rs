//! Recommendation generation: score every catalog product for a user,
//! drop the ones at or below the 0.6 cutoff, sort the survivors by
//! descending overall score (ties keep catalog order out of the sort's
//! choice), and keep the top ten.

use vstd::prelude::*;
use vstd::string::StringExecFns;
use vstd::multiset::Multiset;
use crate::matching::{
    spec_personality_match, spec_budget_compatibility, spec_occasion_match,
    spec_seasonal_relevance, spec_lifestyle_fit, spec_overall_score_x4,
    calculate_personality_match, calculate_budget_compatibility, calculate_occasion_match,
    calculate_seasonal_relevance, calculate_lifestyle_fit, lemma_overall_score_bounds,
};
use crate::types::{AIRecommendation, FragranceIdentity, Product};

verus! {

/// The cutoff: products with overall score at or below 0.6 (2400 in
/// quarter-mille units) are dropped.
pub const SCORE_CUTOFF_X4: u32 = 2400;

/// Fixed trend factor reported with every recommendation, permille.
pub const TREND_FACTOR: u32 = 800;

/// `r` is exactly the recommendation of product `p` for user `uid` with
/// identity `ident`, generated at `now`.
pub open spec fn spec_rec_for(
    r: AIRecommendation,
    uid: Seq<char>,
    ident: FragranceIdentity,
    p: Product,
    now: u64,
) -> bool {
    &&& r.recommendation_id@ == "rec_"@ + uid + "_"@ + p.id@
    &&& r.user_id@ == uid
    &&& r.product_id == p.id
    &&& r.match_score == spec_overall_score_x4(ident, p)
    &&& r.personality_alignment == spec_personality_match(ident, p)
    &&& r.lifestyle_fit == spec_lifestyle_fit(ident.lifestyle@, p)
    &&& r.occasion_match == spec_occasion_match(ident.occasion_preferences@, p.occasion@)
    &&& r.budget_compatibility == spec_budget_compatibility(ident.budget_range, p.price_idr)
    &&& r.reasoning@ == "Based on your "@ + ident.personality_type@ + " personality and "@
        + ident.lifestyle@ + " lifestyle"@
    &&& r.confidence_level == spec_overall_score_x4(ident, p) * 9 / 40
    &&& r.seasonal_relevance == spec_seasonal_relevance(ident.season_preferences@, p.season@)
    &&& r.trend_factor == TREND_FACTOR
    &&& r.generated_at == now
    &&& r.user_feedback is None
}

/// `r` is the recommendation of some product of the catalog.
pub open spec fn spec_rec_from_catalog(
    r: AIRecommendation,
    uid: Seq<char>,
    ident: FragranceIdentity,
    products: Seq<Product>,
    now: u64,
) -> bool {
    exists|j: int| 0 <= j < products.len() && spec_rec_for(r, uid, ident, products[j], now)
}

/// Number of catalog products above the cutoff.
pub open spec fn spec_survivor_count(ident: FragranceIdentity, products: Seq<Product>) -> int
    decreases products.len(),
{
    if products.len() == 0 {
        0
    } else {
        spec_survivor_count(ident, products.drop_last()) + if spec_overall_score_x4(
            ident,
            products.last(),
        ) > SCORE_CUTOFF_X4 {
            1int
        } else {
            0int
        }
    }
}

/// Descending order by overall score.
pub open spec fn spec_sorted_desc(s: Seq<AIRecommendation>) -> bool {
    forall|i: int, j: int| 0 <= i < j < s.len() ==> s[i].match_score >= s[j].match_score
}

/// Score `p` for the user and wrap the result in a recommendation record.
pub fn build_recommendation(
    user_id: &String,
    ident: &FragranceIdentity,
    p: &Product,
    now: u64,
) -> (r: AIRecommendation)
    ensures
        spec_rec_for(r, user_id@, *ident, *p, now),
        r.match_score <= 4000,
{
    let personality = calculate_personality_match(ident, p);
    let budget = calculate_budget_compatibility(&ident.budget_range, p.price_idr);
    let occasion = calculate_occasion_match(&ident.occasion_preferences, &p.occasion);
    let seasonal = calculate_seasonal_relevance(&ident.season_preferences, &p.season);
    let lifestyle = calculate_lifestyle_fit(&ident.lifestyle, p);
    proof {
        lemma_overall_score_bounds(*ident, *p);
    }
    let overall: u32 = personality + budget + occasion + seasonal;
    let confidence: u32 = overall * 9 / 40;
    let mut rid = String::from_str("rec_");
    rid.append(user_id.as_str());
    rid.append("_");
    rid.append(p.id.as_str());
    let mut reasoning = String::from_str("Based on your ");
    reasoning.append(ident.personality_type.as_str());
    reasoning.append(" personality and ");
    reasoning.append(ident.lifestyle.as_str());
    reasoning.append(" lifestyle");
    AIRecommendation {
        recommendation_id: rid,
        user_id: user_id.clone(),
        product_id: p.id.clone(),
        match_score: overall,
        personality_alignment: personality,
        lifestyle_fit: lifestyle,
        occasion_match: occasion,
        budget_compatibility: budget,
        reasoning,
        confidence_level: confidence,
        seasonal_relevance: seasonal,
        trend_factor: TREND_FACTOR,
        generated_at: now,
        user_feedback: Option::None,
    }
}

/// Sort recommendations by descending overall score.  The result is a
/// permutation of the input.
fn sort_recs_desc(input: Vec<AIRecommendation>) -> (r: Vec<AIRecommendation>)
    ensures
        r@.to_multiset() == input@.to_multiset(),
        r@.len() == input@.len(),
        spec_sorted_desc(r@),
{
    broadcast use vstd::seq_lib::to_multiset_build, vstd::seq_lib::to_multiset_remove,
        vstd::seq_lib::to_multiset_len, vstd::seq_lib::to_multiset_contains,
        vstd::multiset::group_multiset_axioms;

    let ghost orig = input@;
    let mut rest = input;
    let mut out: Vec<AIRecommendation> = Vec::new();
    proof {
        assert(out@.to_multiset().add(rest@.to_multiset()) =~= orig.to_multiset());
    }
    while rest.len() > 0
        invariant
            out@.to_multiset().add(rest@.to_multiset()) == orig.to_multiset(),
            out@.len() + rest@.len() == orig.len(),
            spec_sorted_desc(out@),
            forall|i: int, j: int|
                0 <= i < out@.len() && 0 <= j < rest@.len() ==> out@[i].match_score
                    >= rest@[j].match_score,
        decreases rest@.len(),
    {
        let mut m: usize = 0;
        let mut i: usize = 1;
        while i < rest.len()
            invariant
                rest@.len() > 0,
                m < i,
                i <= rest@.len(),
                forall|k: int| 0 <= k < i ==> rest@[m as int].match_score >= rest@[k].match_score,
            decreases rest@.len() - i,
        {
            if rest[i].match_score > rest[m].match_score {
                m = i;
            }
            i += 1;
        }
        let ghost rest_before = rest@;
        let x = rest.remove(m);
        let ghost out_before = out@;
        out.push(x);
        proof {
            vstd::seq_lib::to_multiset_remove(rest_before, m as int);
            vstd::seq_lib::to_multiset_build(out_before, x);
            assert(rest@ == rest_before.remove(m as int));
            assert(rest_before.remove(m as int).to_multiset() =~= rest_before.to_multiset()
                .remove(rest_before[m as int]));
            assert(out@ == out_before.push(x));
            assert(out_before.push(x).to_multiset() =~= out_before.to_multiset().insert(x));
            vstd::seq_lib::to_multiset_contains(rest_before, x);
            assert(rest_before.contains(x));
            assert(rest_before.to_multiset().count(x) > 0);
            assert(out@.to_multiset().add(rest@.to_multiset()) =~= orig.to_multiset());
            assert forall|i2: int, j2: int|
                0 <= i2 < out@.len() && 0 <= j2 < rest@.len() implies out@[i2].match_score
                >= rest@[j2].match_score by {
                assert(rest@[j2] == rest_before[if j2 < m as int {
                    j2
                } else {
                    j2 + 1
                }]);
            }
        }
    }
    proof {
        assert(rest@.to_multiset() =~= Multiset::empty());
        assert(out@.to_multiset() =~= orig.to_multiset());
    }
    out
}

/// Generate the ranked recommendation list for a user over the catalog:
/// one scored record per product above the cutoff, sorted by descending
/// overall score and truncated to the ten best.
pub fn generate_recommendations_for(
    user_id: &String,
    ident: &FragranceIdentity,
    products: &Vec<Product>,
    now: u64,
) -> (r: Vec<AIRecommendation>)
    requires
        forall|i: int, j: int|
            0 <= i < j < products@.len() ==> products@[i].id@ != products@[j].id@,
    ensures
        r@.len() == if spec_survivor_count(*ident, products@) > 10 {
            10int
        } else {
            spec_survivor_count(*ident, products@)
        },
        spec_sorted_desc(r@),
        forall|i: int|
            0 <= i < r@.len() ==> #[trigger] r@[i].match_score > SCORE_CUTOFF_X4,
        forall|i: int|
            0 <= i < r@.len() ==> spec_rec_from_catalog(
                #[trigger] r@[i],
                user_id@,
                *ident,
                products@,
                now,
            ),
        forall|i1: int, i2: int|
            0 <= i1 < i2 < r@.len() ==> r@[i1].product_id@ != r@[i2].product_id@,
        forall|j: int|
            0 <= j < products@.len() && #[trigger] spec_overall_score_x4(*ident, products@[j])
                > SCORE_CUTOFF_X4 ==> (exists|i: int|
                0 <= i < r@.len() && r@[i].product_id == products@[j].id) || (r@.len() == 10
                && r@[9].match_score >= spec_overall_score_x4(*ident, products@[j])),
{
    broadcast use vstd::seq_lib::to_multiset_len, vstd::seq_lib::to_multiset_contains,
        vstd::multiset::group_multiset_axioms;

    let mut survivors: Vec<AIRecommendation> = Vec::new();
    let ghost mut idxs: Seq<int> = Seq::empty();
    let mut j: usize = 0;
    while j < products.len()
        invariant
            forall|a: int, b: int|
                0 <= a < b < products@.len() ==> products@[a].id@ != products@[b].id@,
            j <= products@.len(),
            idxs.len() == survivors@.len(),
            survivors@.len() == spec_survivor_count(*ident, products@.take(j as int)),
            forall|i: int|
                0 <= i < idxs.len() ==> 0 <= #[trigger] idxs[i] < j,
            forall|a: int, b: int| 0 <= a < b < idxs.len() ==> idxs[a] < idxs[b],
            forall|i: int|
                0 <= i < survivors@.len() ==> spec_rec_for(
                    #[trigger] survivors@[i],
                    user_id@,
                    *ident,
                    products@[idxs[i]],
                    now,
                ),
            forall|i: int|
                0 <= i < survivors@.len() ==> #[trigger] survivors@[i].match_score
                    > SCORE_CUTOFF_X4,
            forall|jj: int|
                0 <= jj < j && #[trigger] spec_overall_score_x4(*ident, products@[jj])
                    > SCORE_CUTOFF_X4 ==> exists|i: int| 0 <= i < idxs.len() && idxs[i] == jj,
        decreases products@.len() - j,
    {
        proof {
            assert(products@.take(j + 1).drop_last() =~= products@.take(j as int));
            assert(products@.take(j + 1).last() == products@[j as int]);
        }
        let ghost idxs_before = idxs;
        let rec = build_recommendation(user_id, ident, &products[j], now);
        let ghost rec_score = rec.match_score;
        if rec.match_score > SCORE_CUTOFF_X4 {
            survivors.push(rec);
            proof {
                idxs = idxs.push(j as int);
            }
        }
        proof {
            assert(rec_score == spec_overall_score_x4(*ident, products@[j as int]));
            assert forall|jj: int|
                0 <= jj < j + 1 && #[trigger] spec_overall_score_x4(*ident, products@[jj])
                    > SCORE_CUTOFF_X4 implies exists|i: int|
                0 <= i < idxs.len() && idxs[i] == jj by {
                if jj == j as int {
                    assert(idxs[idxs.len() - 1] == jj);
                } else {
                    let i0 = choose|i: int| 0 <= i < idxs_before.len() && idxs_before[i] == jj;
                    assert(idxs[i0] == jj);
                }
            }
        }
        j += 1;
    }
    proof {
        assert(products@.take(products@.len() as int) =~= products@);
    }
    let ghost survivors_seq = survivors@;
    let mut ranked = sort_recs_desc(survivors);
    let ghost sorted_seq = ranked@;
    ranked.truncate(10);
    proof {
        // Distinct product ids among the survivors, hence among the sorted
        // permutation, hence among the kept prefix.
        assert forall|a: int, b: int|
            0 <= a < b < survivors_seq.len() implies survivors_seq[a].product_id@
            != survivors_seq[b].product_id@ by {
            assert(spec_rec_for(survivors_seq[a], user_id@, *ident, products@[idxs[a]], now));
            assert(spec_rec_for(survivors_seq[b], user_id@, *ident, products@[idxs[b]], now));
        }
        assert(survivors_seq.no_duplicates()) by {
            assert forall|a: int, b: int|
                0 <= a < b < survivors_seq.len() implies survivors_seq[a] != survivors_seq[b] by {
                assert(survivors_seq[a].product_id@ != survivors_seq[b].product_id@);
            }
        }
        survivors_seq.lemma_multiset_has_no_duplicates();
        sorted_seq.lemma_multiset_has_no_duplicates_conv();
        assert(sorted_seq.no_duplicates());
        // Every sorted element is a survivor element.
        assert forall|i: int| 0 <= i < sorted_seq.len() implies survivors_seq.contains(
            #[trigger] sorted_seq[i],
        ) by {
            assert(sorted_seq.to_multiset().count(sorted_seq[i]) > 0);
            assert(survivors_seq.to_multiset().count(sorted_seq[i]) > 0);
        }
        // Distinct ids in the sorted sequence.
        assert forall|i1: int, i2: int|
            0 <= i1 < i2 < sorted_seq.len() implies sorted_seq[i1].product_id@
            != sorted_seq[i2].product_id@ by {
            let a1 = choose|a: int|
                0 <= a < survivors_seq.len() && survivors_seq[a] == sorted_seq[i1];
            let a2 = choose|a: int|
                0 <= a < survivors_seq.len() && survivors_seq[a] == sorted_seq[i2];
            assert(sorted_seq[i1] != sorted_seq[i2]);
            assert(a1 != a2);
            if a1 < a2 {
                assert(survivors_seq[a1].product_id@ != survivors_seq[a2].product_id@);
            } else {
                assert(survivors_seq[a2].product_id@ != survivors_seq[a1].product_id@);
            }
        }
        // Completeness: a surviving product is kept or outscored by the
        // tenth entry.
        assert forall|jj: int|
            0 <= jj < products@.len() && #[trigger] spec_overall_score_x4(*ident, products@[jj])
                > SCORE_CUTOFF_X4 implies (exists|i: int|
            0 <= i < ranked@.len() && ranked@[i].product_id == products@[jj].id) || (ranked@.len()
            == 10 && ranked@[9].match_score >= spec_overall_score_x4(*ident, products@[jj])) by {
            let i0 = choose|i: int| 0 <= i < idxs.len() && idxs[i] == jj;
            let x = survivors_seq[i0];
            assert(spec_rec_for(x, user_id@, *ident, products@[jj], now));
            assert(survivors_seq.to_multiset().count(x) > 0);
            assert(sorted_seq.to_multiset().count(x) > 0);
            assert(sorted_seq.contains(x));
            let i1 = choose|i: int| 0 <= i < sorted_seq.len() && sorted_seq[i] == x;
            if i1 < ranked@.len() {
                assert(ranked@[i1] == sorted_seq[i1]);
                assert(ranked@[i1].product_id == products@[jj].id);
            } else {
                assert(ranked@.len() == 10);
                assert(ranked@[9] == sorted_seq[9]);
                assert(sorted_seq[9].match_score >= sorted_seq[i1].match_score);
            }
        }
        // Element properties carry into the kept prefix.
        assert forall|i: int| 0 <= i < ranked@.len() implies spec_rec_from_catalog(
            #[trigger] ranked@[i],
            user_id@,
            *ident,
            products@,
            now,
        ) && ranked@[i].match_score > SCORE_CUTOFF_X4 by {
            let x = ranked@[i];
            assert(x == sorted_seq[i]);
            let a = choose|a: int| 0 <= a < survivors_seq.len() && survivors_seq[a] == x;
            assert(spec_rec_for(x, user_id@, *ident, products@[idxs[a]], now));
        }
    }
    ranked
}

} // verus!
