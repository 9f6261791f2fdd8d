//! The multi-factor match scorer: four normalized sub-scores between a
//! user's taste profile and a product, plus the lifestyle rule table.
//!
//! Scores are permille of 1.0 (1000 = 1.0).  The overall score of a
//! product is the unweighted mean of the personality, budget, occasion and
//! season sub-scores; it is carried as the plain sum of the four, in
//! quarter-mille units, so that no rounding is introduced by the mean.

use vstd::prelude::*;
use vstd::arithmetic::div_mod::{lemma_div_is_ordered, lemma_div_by_multiple};
use crate::text::{
    spec_contains_ci, spec_contains_cs, spec_contains_string, spec_eq_ci, contains_ci,
    contains_cs, contains_string, eq_ci,
};
use crate::types::{BudgetRange, FragranceIdentity, Product};

verus! {

/// Number of fragrance families in `families` whose name occurs
/// case-insensitively in the product family string.
pub open spec fn spec_family_matches(families: Seq<String>, product_family: Seq<char>) -> int
    decreases families.len(),
{
    if families.len() == 0 {
        0
    } else {
        spec_family_matches(families.drop_last(), product_family) + if spec_contains_ci(
            product_family,
            families.last()@,
        ) {
            1int
        } else {
            0int
        }
    }
}

pub proof fn lemma_family_matches_bounds(families: Seq<String>, product_family: Seq<char>)
    ensures
        0 <= spec_family_matches(families, product_family) <= families.len(),
    decreases families.len(),
{
    if families.len() > 0 {
        lemma_family_matches_bounds(families.drop_last(), product_family);
    }
}

/// Personality sub-score: matched preferred families plus one extra point
/// for a matching personality tag, divided by the factors considered;
/// neutral 0.5 when no factor applies.
pub open spec fn spec_personality_match(ident: FragranceIdentity, p: Product) -> int {
    let fam = spec_family_matches(ident.preferred_families@, p.fragrance_family@);
    let tag = spec_contains_string(p.personality_matches@, ident.personality_type@);
    let score = fam + if tag {
        1int
    } else {
        0int
    };
    let factors = ident.preferred_families@.len() + if tag {
        1int
    } else {
        0int
    };
    if factors > 0 {
        1000 * score / factors
    } else {
        500
    }
}

/// Budget sub-score: the bracket table on the user's range and the price.
pub open spec fn spec_budget_compatibility(range: BudgetRange, price: u64) -> u32 {
    match range {
        BudgetRange::Budget => if price < 50_000 {
            1000
        } else if price < 100_000 {
            700
        } else {
            300
        },
        BudgetRange::Moderate => if 50_000 <= price && price < 200_000 {
            1000
        } else if price < 50_000 || (200_000 <= price && price < 300_000) {
            700
        } else {
            300
        },
        BudgetRange::Premium => if 200_000 <= price && price < 500_000 {
            1000
        } else if (100_000 <= price && price < 200_000) || (500_000 <= price && price
            < 700_000) {
            700
        } else {
            300
        },
        BudgetRange::Luxury => if price >= 500_000 {
            1000
        } else if price >= 300_000 {
            700
        } else {
            300
        },
    }
}

/// A user occasion matches when some product occasion contains it or it
/// contains that product occasion, ignoring case.
pub open spec fn spec_occasion_matches_one(uo: String, pos: Seq<String>) -> bool {
    exists|j: int|
        0 <= j < pos.len() && (spec_contains_ci(pos[j]@, uo@) || spec_contains_ci(uo@, pos[j]@))
}

/// Number of user occasions matched by the product.
pub open spec fn spec_occasion_count(uos: Seq<String>, pos: Seq<String>) -> int
    decreases uos.len(),
{
    if uos.len() == 0 {
        0
    } else {
        spec_occasion_count(uos.drop_last(), pos) + if spec_occasion_matches_one(
            uos.last(),
            pos,
        ) {
            1int
        } else {
            0int
        }
    }
}

pub proof fn lemma_occasion_count_bounds(uos: Seq<String>, pos: Seq<String>)
    ensures
        0 <= spec_occasion_count(uos, pos) <= uos.len(),
    decreases uos.len(),
{
    if uos.len() > 0 {
        lemma_occasion_count_bounds(uos.drop_last(), pos);
    }
}

/// Occasion sub-score: fraction of the user's occasions matched; neutral
/// 0.5 when either list is empty.
pub open spec fn spec_occasion_match(uos: Seq<String>, pos: Seq<String>) -> int {
    if uos.len() == 0 || pos.len() == 0 {
        500
    } else {
        1000 * spec_occasion_count(uos, pos) / uos.len() as int
    }
}

/// A user season matches when some product season contains it, ignoring
/// case.
pub open spec fn spec_season_matches_one(us: String, pss: Seq<String>) -> bool {
    exists|j: int| 0 <= j < pss.len() && spec_contains_ci(pss[j]@, us@)
}

/// Number of user seasons matched by the product.
pub open spec fn spec_season_count(uss: Seq<String>, pss: Seq<String>) -> int
    decreases uss.len(),
{
    if uss.len() == 0 {
        0
    } else {
        spec_season_count(uss.drop_last(), pss) + if spec_season_matches_one(uss.last(), pss) {
            1int
        } else {
            0int
        }
    }
}

pub proof fn lemma_season_count_bounds(uss: Seq<String>, pss: Seq<String>)
    ensures
        0 <= spec_season_count(uss, pss) <= uss.len(),
    decreases uss.len(),
{
    if uss.len() > 0 {
        lemma_season_count_bounds(uss.drop_last(), pss);
    }
}

/// Season sub-score: fraction of the user's seasons matched; neutral 0.5
/// when either list is empty.
pub open spec fn spec_seasonal_relevance(uss: Seq<String>, pss: Seq<String>) -> int {
    if uss.len() == 0 || pss.len() == 0 {
        500
    } else {
        1000 * spec_season_count(uss, pss) / uss.len() as int
    }
}

/// Some tag in `v` contains `needle`, case-sensitively.
pub open spec fn spec_any_contains_cs(v: Seq<String>, needle: Seq<char>) -> bool {
    exists|i: int| 0 <= i < v.len() && spec_contains_cs(v[i]@, needle)
}

/// Lifestyle rule table, keyed by the lifestyle string ignoring case.
pub open spec fn spec_lifestyle_fit(lifestyle: Seq<char>, p: Product) -> u32 {
    if spec_eq_ci(lifestyle, "professional"@) {
        if spec_any_contains_cs(p.occasion@, "office"@) || spec_any_contains_cs(
            p.occasion@,
            "formal"@,
        ) {
            900
        } else if p.versatility_score > 700 {
            800
        } else {
            500
        }
    } else if spec_eq_ci(lifestyle, "casual"@) {
        if spec_any_contains_cs(p.occasion@, "daily"@) || spec_any_contains_cs(
            p.occasion@,
            "casual"@,
        ) {
            900
        } else {
            600
        }
    } else if spec_eq_ci(lifestyle, "evening"@) {
        if spec_any_contains_cs(p.occasion@, "night"@) || spec_any_contains_cs(
            p.occasion@,
            "date"@,
        ) {
            900
        } else {
            500
        }
    } else {
        700
    }
}

/// The overall score of a product for an identity, as the sum of the four
/// averaged sub-scores (quarter-mille units; 4000 = 1.0).
pub open spec fn spec_overall_score_x4(ident: FragranceIdentity, p: Product) -> int {
    spec_personality_match(ident, p) + spec_budget_compatibility(ident.budget_range, p.price_idr)
        + spec_occasion_match(ident.occasion_preferences@, p.occasion@)
        + spec_seasonal_relevance(ident.season_preferences@, p.season@)
}

/// A permille ratio `1000 * num / den` never exceeds 1000 when
/// `num <= den`.
proof fn lemma_ratio_bounds(num: int, den: int)
    requires
        0 <= num <= den,
        0 < den,
    ensures
        0 <= 1000 * num / den <= 1000,
{
    assert(1000 * num <= 1000 * den) by (nonlinear_arith)
        requires num <= den;
    assert(0 <= 1000 * num) by (nonlinear_arith)
        requires 0 <= num;
    lemma_div_is_ordered(0, 1000 * num, den);
    lemma_div_is_ordered(1000 * num, 1000 * den, den);
    lemma_div_by_multiple(1000, den);
}

/// Divide a small scaled count: `1000 * num / den` as a permille score.
fn permille_ratio(num: u128, den: u128) -> (r: u32)
    requires
        num <= den,
        0 < den,
        num <= u64::MAX as u128 + 1,
    ensures
        r as int == 1000 * (num as int) / (den as int),
        r <= 1000,
{
    proof {
        lemma_ratio_bounds(num as int, den as int);
    }
    let wide: u128 = 1000u128 * num / den;
    wide as u32
}

/// Personality sub-score of `product` for `ident`.
pub fn calculate_personality_match(ident: &FragranceIdentity, product: &Product) -> (r: u32)
    ensures
        r as int == spec_personality_match(*ident, *product),
        r <= 1000,
{
    let families = &ident.preferred_families;
    let mut cnt: usize = 0;
    let mut i: usize = 0;
    while i < families.len()
        invariant
            i <= families@.len(),
            cnt <= i,
            cnt == spec_family_matches(families@.take(i as int), product.fragrance_family@),
        decreases families@.len() - i,
    {
        proof {
            assert(families@.take(i + 1).drop_last() =~= families@.take(i as int));
            assert(families@.take(i + 1).last() == families@[i as int]);
        }
        if contains_ci(product.fragrance_family.as_str(), families[i].as_str()) {
            cnt += 1;
        }
        i += 1;
    }
    proof {
        assert(families@.take(families@.len() as int) =~= families@);
    }
    let tag = contains_string(&product.personality_matches, &ident.personality_type);
    let score: u128 = if tag {
        cnt as u128 + 1
    } else {
        cnt as u128
    };
    let factors: u128 = if tag {
        families.len() as u128 + 1
    } else {
        families.len() as u128
    };
    proof {
        lemma_family_matches_bounds(families@, product.fragrance_family@);
    }
    if factors > 0 {
        permille_ratio(score, factors)
    } else {
        500
    }
}

/// Budget sub-score for a price in the user's range.
pub fn calculate_budget_compatibility(range: &BudgetRange, price: u64) -> (r: u32)
    ensures
        r == spec_budget_compatibility(*range, price),
        r <= 1000,
{
    match range {
        BudgetRange::Budget => {
            if price < 50_000 {
                1000
            } else if price < 100_000 {
                700
            } else {
                300
            }
        },
        BudgetRange::Moderate => {
            if 50_000 <= price && price < 200_000 {
                1000
            } else if price < 50_000 || (200_000 <= price && price < 300_000) {
                700
            } else {
                300
            }
        },
        BudgetRange::Premium => {
            if 200_000 <= price && price < 500_000 {
                1000
            } else if (100_000 <= price && price < 200_000) || (500_000 <= price && price
                < 700_000) {
                700
            } else {
                300
            }
        },
        BudgetRange::Luxury => {
            if price >= 500_000 {
                1000
            } else if price >= 300_000 {
                700
            } else {
                300
            }
        },
    }
}

/// Whether some product occasion matches `uo` in either direction.
fn occasion_matches_one(uo: &String, pos: &Vec<String>) -> (r: bool)
    ensures
        r == spec_occasion_matches_one(*uo, pos@),
{
    let mut j: usize = 0;
    while j < pos.len()
        invariant
            j <= pos@.len(),
            forall|k: int|
                0 <= k < j ==> !(spec_contains_ci(pos@[k]@, uo@) || spec_contains_ci(
                    uo@,
                    pos@[k]@,
                )),
        decreases pos@.len() - j,
    {
        if contains_ci(pos[j].as_str(), uo.as_str()) || contains_ci(
            uo.as_str(),
            pos[j].as_str(),
        ) {
            return true;
        }
        j += 1;
    }
    false
}

/// Occasion sub-score: fraction of the user's occasion tags matched by the
/// product's tags, in either containment direction, ignoring case.
pub fn calculate_occasion_match(user_occasions: &Vec<String>, product_occasions: &Vec<String>)
    -> (r: u32)
    ensures
        r as int == spec_occasion_match(user_occasions@, product_occasions@),
        r <= 1000,
{
    if user_occasions.len() == 0 || product_occasions.len() == 0 {
        return 500;
    }
    let mut cnt: usize = 0;
    let mut i: usize = 0;
    while i < user_occasions.len()
        invariant
            i <= user_occasions@.len(),
            cnt <= i,
            cnt == spec_occasion_count(user_occasions@.take(i as int), product_occasions@),
        decreases user_occasions@.len() - i,
    {
        proof {
            assert(user_occasions@.take(i + 1).drop_last() =~= user_occasions@.take(i as int));
            assert(user_occasions@.take(i + 1).last() == user_occasions@[i as int]);
        }
        if occasion_matches_one(&user_occasions[i], product_occasions) {
            cnt += 1;
        }
        i += 1;
    }
    proof {
        assert(user_occasions@.take(user_occasions@.len() as int) =~= user_occasions@);
    }
    permille_ratio(cnt as u128, user_occasions.len() as u128)
}

/// Whether some product season contains `us`, ignoring case.
fn season_matches_one(us: &String, pss: &Vec<String>) -> (r: bool)
    ensures
        r == spec_season_matches_one(*us, pss@),
{
    let mut j: usize = 0;
    while j < pss.len()
        invariant
            j <= pss@.len(),
            forall|k: int| 0 <= k < j ==> !spec_contains_ci(pss@[k]@, us@),
        decreases pss@.len() - j,
    {
        if contains_ci(pss[j].as_str(), us.as_str()) {
            return true;
        }
        j += 1;
    }
    false
}

/// Season sub-score: fraction of the user's season tags contained in some
/// product season tag, ignoring case.
pub fn calculate_seasonal_relevance(user_seasons: &Vec<String>, product_seasons: &Vec<String>)
    -> (r: u32)
    ensures
        r as int == spec_seasonal_relevance(user_seasons@, product_seasons@),
        r <= 1000,
{
    if user_seasons.len() == 0 || product_seasons.len() == 0 {
        return 500;
    }
    let mut cnt: usize = 0;
    let mut i: usize = 0;
    while i < user_seasons.len()
        invariant
            i <= user_seasons@.len(),
            cnt <= i,
            cnt == spec_season_count(user_seasons@.take(i as int), product_seasons@),
        decreases user_seasons@.len() - i,
    {
        proof {
            assert(user_seasons@.take(i + 1).drop_last() =~= user_seasons@.take(i as int));
            assert(user_seasons@.take(i + 1).last() == user_seasons@[i as int]);
        }
        if season_matches_one(&user_seasons[i], product_seasons) {
            cnt += 1;
        }
        i += 1;
    }
    proof {
        assert(user_seasons@.take(user_seasons@.len() as int) =~= user_seasons@);
    }
    permille_ratio(cnt as u128, user_seasons.len() as u128)
}

/// Some tag in `v` contains `needle`, ignoring case.
pub open spec fn spec_any_contains_ci(v: Seq<String>, needle: Seq<char>) -> bool {
    exists|i: int| 0 <= i < v.len() && spec_contains_ci(v[i]@, needle)
}

/// Whether some tag in `v` contains `needle`, ignoring case.
pub fn any_contains_ci(v: &Vec<String>, needle: &str) -> (r: bool)
    ensures
        r == spec_any_contains_ci(v@, needle@),
{
    let mut j: usize = 0;
    while j < v.len()
        invariant
            j <= v@.len(),
            forall|k: int| 0 <= k < j ==> !spec_contains_ci(v@[k]@, needle@),
        decreases v@.len() - j,
    {
        if contains_ci(v[j].as_str(), needle) {
            return true;
        }
        j += 1;
    }
    false
}

/// Whether some tag in `v` contains `needle`, case-sensitively.
fn any_contains_cs(v: &Vec<String>, needle: &str) -> (r: bool)
    ensures
        r == spec_any_contains_cs(v@, needle@),
{
    let mut j: usize = 0;
    while j < v.len()
        invariant
            j <= v@.len(),
            forall|k: int| 0 <= k < j ==> !spec_contains_cs(v@[k]@, needle@),
        decreases v@.len() - j,
    {
        if contains_cs(v[j].as_str(), needle) {
            return true;
        }
        j += 1;
    }
    false
}

/// Lifestyle sub-score from the rule table.  Reported separately from the
/// overall score: it flavors the reasoning text but is excluded from the
/// average.
pub fn calculate_lifestyle_fit(lifestyle: &String, product: &Product) -> (r: u32)
    ensures
        r == spec_lifestyle_fit(lifestyle@, *product),
        r <= 1000,
{
    if eq_ci(lifestyle.as_str(), "professional") {
        if any_contains_cs(&product.occasion, "office") || any_contains_cs(
            &product.occasion,
            "formal",
        ) {
            900
        } else if product.versatility_score > 700 {
            800
        } else {
            500
        }
    } else if eq_ci(lifestyle.as_str(), "casual") {
        if any_contains_cs(&product.occasion, "daily") || any_contains_cs(
            &product.occasion,
            "casual",
        ) {
            900
        } else {
            600
        }
    } else if eq_ci(lifestyle.as_str(), "evening") {
        if any_contains_cs(&product.occasion, "night") || any_contains_cs(
            &product.occasion,
            "date",
        ) {
            900
        } else {
            500
        }
    } else {
        700
    }
}

/// The overall score is bounded by 4000 and never negative.
pub proof fn lemma_overall_score_bounds(ident: FragranceIdentity, p: Product)
    ensures
        0 <= spec_overall_score_x4(ident, p) <= 4000,
{
    lemma_family_matches_bounds(ident.preferred_families@, p.fragrance_family@);
    let fam = spec_family_matches(ident.preferred_families@, p.fragrance_family@);
    let tag = spec_contains_string(p.personality_matches@, ident.personality_type@);
    let score = fam + if tag { 1int } else { 0int };
    let factors = ident.preferred_families@.len() + if tag { 1int } else { 0int };
    if factors > 0 {
        lemma_ratio_bounds(score, factors);
    }
    if !(ident.occasion_preferences@.len() == 0 || p.occasion@.len() == 0) {
        lemma_occasion_count_bounds(ident.occasion_preferences@, p.occasion@);
        lemma_ratio_bounds(
            spec_occasion_count(ident.occasion_preferences@, p.occasion@),
            ident.occasion_preferences@.len() as int,
        );
    }
    if !(ident.season_preferences@.len() == 0 || p.season@.len() == 0) {
        lemma_season_count_bounds(ident.season_preferences@, p.season@);
        lemma_ratio_bounds(
            spec_season_count(ident.season_preferences@, p.season@),
            ident.season_preferences@.len() as int,
        );
    }
}

} // verus!
