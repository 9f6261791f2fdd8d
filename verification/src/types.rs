//! The data model: user profiles, decentralized identities, stakes,
//! products, reviews, recommendations, transactions, analytics,
//! advertisements and treasury investments.
//!
//! Fractional quantities of the records are fixed-point integers:
//! rates are permille of the principal per year, scores and the
//! reputation are permille of 1.0, and a recommendation's overall
//! `match_score` is in quarter-mille units (4000 = 1.0) so that the mean of
//! four permille sub-scores stays exact.
//!
//! `Clone` is implemented by hand throughout, with the contract that the
//! copy equals the original, so that callers can reason about cloned
//! records.

use vstd::prelude::*;
use crate::tiers::{VerificationTier, VerificationStatus};
use crate::commission::TransactionTier;

verus! {

/// Permission granted on one data category of an identity.
#[derive(Clone, Copy, PartialEq, Eq, Structural, Debug)]
pub enum PermissionLevel {
    NoAccess,
    ReadOnly,
    Limited,
    Full,
}

/// Price bracket a user shops in.
#[derive(Clone, Copy, PartialEq, Eq, Structural, Debug)]
pub enum BudgetRange {
    Budget,
    Moderate,
    Premium,
    Luxury,
}

/// One recorded change of taste in a user's scent journey.
/// `confidence_score` is permille of 1.0.
pub struct ScentEvolution {
    pub date: u64,
    pub preference_change: String,
    pub trigger_event: String,
    pub confidence_score: u32,
}

/// A verified claim attached to a decentralized identity.
pub struct VerifiedClaim {
    pub claim_type: String,
    pub issuer: String,
    pub claim_data: String,
    pub verified_at: u64,
    pub expiry: u64,
}

/// A user's taste profile: read-only input to the matching engine.
pub struct FragranceIdentity {
    pub personality_type: String,
    pub lifestyle: String,
    pub preferred_families: Vec<String>,
    pub occasion_preferences: Vec<String>,
    pub season_preferences: Vec<String>,
    pub sensitivity_level: String,
    pub budget_range: BudgetRange,
    pub scent_journey: Vec<ScentEvolution>,
}

/// A decentralized identity record.
pub struct DecentralizedIdentity {
    pub did: String,
    pub public_key: String,
    pub private_key_hash: String,
    pub verified_claims: Vec<VerifiedClaim>,
    pub data_permissions: Vec<(String, PermissionLevel)>,
    pub fragrance_identity: FragranceIdentity,
    pub created_at: u64,
}

/// An active stake: the economic bond behind a verification status.
/// `annual_return_rate` is permille of the stake per year.
#[derive(Clone, Copy, PartialEq, Eq, Structural, Debug)]
pub struct StakeInfo {
    pub amount_idr: u64,
    pub tier: VerificationTier,
    pub locked_until: u64,
    pub penalty_count: u32,
    pub reward_earned: u64,
    pub annual_return_rate: u64,
}

/// A marketplace participant.  `reputation_score` is permille of 1.0.
pub struct UserProfile {
    pub user_id: String,
    pub wallet_address: Option<String>,
    pub did: Option<String>,
    pub verification_status: VerificationStatus,
    pub stake_info: Option<StakeInfo>,
    pub preferences: Vec<(String, String)>,
    pub consultation_completed: bool,
    pub ai_consent: bool,
    pub data_monetization_consent: bool,
    pub reputation_score: u32,
    pub total_transactions: u32,
    pub created_at: u64,
    pub last_active: u64,
}

/// How long a fragrance lasts on skin.
#[derive(Clone, Copy, PartialEq, Eq, Structural, Debug)]
pub enum LongevityRating {
    VeryWeak,
    Weak,
    Moderate,
    Good,
    VeryGood,
    Excellent,
}

/// How far a fragrance radiates.
#[derive(Clone, Copy, PartialEq, Eq, Structural, Debug)]
pub enum SillageRating {
    Intimate,
    Moderate,
    Heavy,
    Enormous,
}

/// How strongly a fragrance projects.
#[derive(Clone, Copy, PartialEq, Eq, Structural, Debug)]
pub enum ProjectionRating {
    Skin,
    Light,
    Moderate,
    Strong,
}

/// A catalog entry.  `versatility_score` is permille of 1.0.
pub struct Product {
    pub id: String,
    pub seller_id: String,
    pub seller_verification: VerificationStatus,
    pub name: String,
    pub brand: String,
    pub price_idr: u64,
    pub fragrance_family: String,
    pub top_notes: Vec<String>,
    pub middle_notes: Vec<String>,
    pub base_notes: Vec<String>,
    pub occasion: Vec<String>,
    pub season: Vec<String>,
    pub longevity: LongevityRating,
    pub sillage: SillageRating,
    pub projection: ProjectionRating,
    pub versatility_score: u32,
    pub description: String,
    pub ingredients: Vec<String>,
    pub halal_certified: bool,
    pub image_urls: Vec<String>,
    pub stock: u32,
    pub verified: bool,
    pub ai_analyzed: bool,
    pub personality_matches: Vec<String>,
    pub created_at: u64,
    pub updated_at: u64,
}

/// A stake-verified product review.
pub struct VerifiedReview {
    pub review_id: String,
    pub reviewer_id: String,
    pub reviewer_stake: u64,
    pub reviewer_tier: VerificationTier,
    pub product_id: String,
    pub overall_rating: u8,
    pub longevity_rating: u8,
    pub sillage_rating: u8,
    pub projection_rating: u8,
    pub versatility_rating: u8,
    pub value_rating: u8,
    pub detailed_review: String,
    pub verified_purchase: bool,
    pub skin_type: String,
    pub age_group: String,
    pub wear_occasion: String,
    pub season_tested: String,
    pub helpful_votes: u32,
    pub reported_count: u32,
    pub ai_validated: bool,
    pub review_date: u64,
    pub last_updated: u64,
}

/// One scored recommendation.  Sub-scores (`personality_alignment`,
/// `lifestyle_fit`, `occasion_match`, `budget_compatibility`,
/// `seasonal_relevance`, `confidence_level`, `trend_factor`,
/// `user_feedback`) are permille of 1.0; `match_score` is the sum of the
/// four averaged sub-scores, in quarter-mille units (4000 = 1.0).
pub struct AIRecommendation {
    pub recommendation_id: String,
    pub user_id: String,
    pub product_id: String,
    pub match_score: u32,
    pub personality_alignment: u32,
    pub lifestyle_fit: u32,
    pub occasion_match: u32,
    pub budget_compatibility: u32,
    pub reasoning: String,
    pub confidence_level: u32,
    pub seasonal_relevance: u32,
    pub trend_factor: u32,
    pub generated_at: u64,
    pub user_feedback: Option<u32>,
}

/// Progress of a purchase.
#[derive(Clone, Copy, PartialEq, Eq, Structural, Debug)]
pub enum TransactionStatus {
    Pending,
    Processing,
    Confirmed,
    Shipped,
    Delivered,
    Completed,
    Disputed,
    Cancelled,
    Refunded,
}

/// A purchase.  `commission_rate` is permille of the amount.
pub struct Transaction {
    pub transaction_id: String,
    pub buyer_id: String,
    pub seller_id: String,
    pub product_id: String,
    pub quantity: u32,
    pub unit_price_idr: u64,
    pub total_amount_idr: u64,
    pub commission_rate: u64,
    pub commission_amount: u64,
    pub transaction_tier: TransactionTier,
    pub status: TransactionStatus,
    pub escrow_locked: bool,
    pub payment_method: String,
    pub shipping_address: String,
    pub created_at: u64,
    pub completed_at: Option<u64>,
}

/// Subscription level for seller analytics.
#[derive(Clone, Copy, PartialEq, Eq, Structural, Debug)]
pub enum AnalyticsTier {
    Basic,
    Premium,
    Enterprise,
}

/// A seller's analytics subscription.
pub struct AnalyticsSubscription {
    pub subscription_id: String,
    pub seller_id: String,
    pub tier: AnalyticsTier,
    pub monthly_fee: u64,
    pub features_included: Vec<String>,
    pub data_retention_days: u32,
    pub api_calls_limit: u32,
    pub started_at: u64,
    pub expires_at: u64,
    pub auto_renew: bool,
}

/// One day of sales in a trend series.
pub struct SalesTrend {
    pub date: u64,
    pub sales_volume: u32,
    pub revenue_idr: u64,
    pub avg_order_value: u64,
    pub top_category: String,
}

/// Competitor landscape in an analytics report.
pub struct CompetitorData {
    pub competitor_prices: Vec<(String, u64)>,
    pub market_position: String,
    pub competitive_advantage: Vec<String>,
    pub threat_level: String,
}

/// Forward-looking guidance in an analytics report.
/// `predicted_demand` values are permille of 1.0.
pub struct PredictiveInsight {
    pub predicted_demand: Vec<(String, u32)>,
    pub optimal_pricing: Vec<(String, u64)>,
    pub inventory_recommendations: Vec<String>,
    pub seasonal_adjustments: Vec<String>,
}

/// A generated analytics report.  `conversion_rate` is tenths of a percent.
pub struct AnalyticsData {
    pub analytics_id: String,
    pub seller_id: String,
    pub period_start: u64,
    pub period_end: u64,
    pub total_views: u32,
    pub unique_visitors: u32,
    pub conversion_rate: u32,
    pub top_performing_products: Vec<String>,
    pub customer_demographics: Vec<(String, u32)>,
    pub sales_trends: Vec<SalesTrend>,
    pub competitor_analysis: Option<CompetitorData>,
    pub predictive_insights: Option<PredictiveInsight>,
    pub generated_at: u64,
}

/// Placement format of an advertisement.
#[derive(Clone, Copy, PartialEq, Eq, Structural, Debug)]
pub enum AdType {
    Banner,
    Featured,
    Sponsored,
}

/// Where an advertisement is shown.
#[derive(Clone, Copy, PartialEq, Eq, Structural, Debug)]
pub enum AdPlacement {
    Homepage,
    CategoryPage,
    SearchResults,
    ProductPage,
}

/// A paid advertisement.  `ctr` and `conversion_rate` are permille.
pub struct Advertisement {
    pub ad_id: String,
    pub advertiser_id: String,
    pub product_id: String,
    pub ad_type: AdType,
    pub placement: AdPlacement,
    pub annual_fee: u64,
    pub impressions: u32,
    pub clicks: u32,
    pub conversions: u32,
    pub ctr: u32,
    pub conversion_rate: u32,
    pub active: bool,
    pub started_at: u64,
    pub expires_at: u64,
}

/// Treasury funds placed in one instrument.
/// `annual_return_rate` is permille of the principal per year.
pub struct TreasuryInvestment {
    pub investment_id: String,
    pub principal_amount: u64,
    pub investment_type: InvestmentType,
    pub annual_return_rate: u64,
    pub maturity_date: u64,
    pub current_value: u64,
    pub created_at: u64,
}

/// Instrument class of a treasury investment.
#[derive(Clone, Copy, PartialEq, Eq, Structural, Debug)]
pub enum InvestmentType {
    FixedIncome,
    MoneyMarket,
    EmergencyFund,
}

/// Platform-wide counters reported to callers.
#[derive(Clone, Copy, PartialEq, Eq, Structural, Debug)]
pub struct PlatformStatistics {
    pub total_users: u64,
    pub verified_users: u64,
    pub total_products: u64,
    pub verified_products: u64,
    pub total_transactions: u64,
    pub total_gmv_idr: u64,
    pub total_reviews: u64,
    pub total_staked_idr: u64,
}

/// Copy of a list of strings, preserving the values.
pub fn clone_strings(v: &Vec<String>) -> (r: Vec<String>)
    ensures
        r@ == v@,
{
    let mut out: Vec<String> = Vec::new();
    let mut i: usize = 0;
    while i < v.len()
        invariant
            i <= v@.len(),
            out@.len() == i,
            forall|k: int| 0 <= k < i ==> out@[k] == v@[k],
        decreases v@.len() - i,
    {
        out.push(v[i].clone());
        i += 1;
    }
    proof {
        assert(out@ =~= v@);
    }
    out
}

/// Copy of an optional string, preserving the value.
pub fn clone_opt_string(v: &Option<String>) -> (r: Option<String>)
    ensures
        r == *v,
{
    match v {
        Option::Some(s) => Option::Some(s.clone()),
        Option::None => Option::None,
    }
}

/// Copy of a string-keyed association list of strings.
pub fn clone_string_pairs(v: &Vec<(String, String)>) -> (r: Vec<(String, String)>)
    ensures
        r@ == v@,
{
    let mut out: Vec<(String, String)> = Vec::new();
    let mut i: usize = 0;
    while i < v.len()
        invariant
            i <= v@.len(),
            out@.len() == i,
            forall|k: int| 0 <= k < i ==> out@[k] == v@[k],
        decreases v@.len() - i,
    {
        let pair = (v[i].0.clone(), v[i].1.clone());
        out.push(pair);
        i += 1;
    }
    proof {
        assert(out@ =~= v@);
    }
    out
}

impl Clone for ScentEvolution {
    fn clone(&self) -> (r: Self)
        ensures
            r == *self,
    {
        ScentEvolution {
            date: self.date,
            preference_change: self.preference_change.clone(),
            trigger_event: self.trigger_event.clone(),
            confidence_score: self.confidence_score,
        }
    }
}

impl Clone for VerifiedClaim {
    fn clone(&self) -> (r: Self)
        ensures
            r == *self,
    {
        VerifiedClaim {
            claim_type: self.claim_type.clone(),
            issuer: self.issuer.clone(),
            claim_data: self.claim_data.clone(),
            verified_at: self.verified_at,
            expiry: self.expiry,
        }
    }
}

/// Copy of a scent journey, preserving the values.
pub fn clone_evolutions(v: &Vec<ScentEvolution>) -> (r: Vec<ScentEvolution>)
    ensures
        r@ == v@,
{
    let mut out: Vec<ScentEvolution> = Vec::new();
    let mut i: usize = 0;
    while i < v.len()
        invariant
            i <= v@.len(),
            out@.len() == i,
            forall|k: int| 0 <= k < i ==> out@[k] == v@[k],
        decreases v@.len() - i,
    {
        out.push(v[i].clone());
        i += 1;
    }
    proof {
        assert(out@ =~= v@);
    }
    out
}

/// Copy of a claim list, preserving the values.
pub fn clone_claims(v: &Vec<VerifiedClaim>) -> (r: Vec<VerifiedClaim>)
    ensures
        r@ == v@,
{
    let mut out: Vec<VerifiedClaim> = Vec::new();
    let mut i: usize = 0;
    while i < v.len()
        invariant
            i <= v@.len(),
            out@.len() == i,
            forall|k: int| 0 <= k < i ==> out@[k] == v@[k],
        decreases v@.len() - i,
    {
        out.push(v[i].clone());
        i += 1;
    }
    proof {
        assert(out@ =~= v@);
    }
    out
}

/// Copy of a permission map, preserving the values.
pub fn clone_permissions(v: &Vec<(String, PermissionLevel)>) -> (r: Vec<(String, PermissionLevel)>)
    ensures
        r@ == v@,
{
    let mut out: Vec<(String, PermissionLevel)> = Vec::new();
    let mut i: usize = 0;
    while i < v.len()
        invariant
            i <= v@.len(),
            out@.len() == i,
            forall|k: int| 0 <= k < i ==> out@[k] == v@[k],
        decreases v@.len() - i,
    {
        let pair = (v[i].0.clone(), v[i].1);
        out.push(pair);
        i += 1;
    }
    proof {
        assert(out@ =~= v@);
    }
    out
}

impl FragranceIdentity {
    /// Value equivalence: equal fields, with list fields compared by
    /// contents.
    pub open spec fn eqv(self, other: Self) -> bool {
        &&& self.personality_type == other.personality_type
        &&& self.lifestyle == other.lifestyle
        &&& self.preferred_families@ == other.preferred_families@
        &&& self.occasion_preferences@ == other.occasion_preferences@
        &&& self.season_preferences@ == other.season_preferences@
        &&& self.sensitivity_level == other.sensitivity_level
        &&& self.budget_range == other.budget_range
        &&& self.scent_journey@ == other.scent_journey@
    }
}

impl UserProfile {
    /// Value equivalence: equal fields, with the preference list compared
    /// by contents.
    pub open spec fn eqv(self, other: Self) -> bool {
        &&& self.base_eq(other)
        &&& self.verification_status == other.verification_status
        &&& self.stake_info == other.stake_info
        &&& self.reputation_score == other.reputation_score
    }

    /// Equal in every field except possibly the identity link.
    pub open spec fn eq_except_did(self, other: Self) -> bool {
        &&& self.user_id == other.user_id
        &&& self.wallet_address == other.wallet_address
        &&& self.verification_status == other.verification_status
        &&& self.stake_info == other.stake_info
        &&& self.preferences@ == other.preferences@
        &&& self.consultation_completed == other.consultation_completed
        &&& self.ai_consent == other.ai_consent
        &&& self.data_monetization_consent == other.data_monetization_consent
        &&& self.reputation_score == other.reputation_score
        &&& self.total_transactions == other.total_transactions
        &&& self.created_at == other.created_at
        &&& self.last_active == other.last_active
    }

    /// The fields of a profile that staking, penalties and accrual never
    /// touch are equal.
    pub open spec fn base_eq(self, other: Self) -> bool {
        &&& self.user_id == other.user_id
        &&& self.wallet_address == other.wallet_address
        &&& self.did == other.did
        &&& self.preferences@ == other.preferences@
        &&& self.consultation_completed == other.consultation_completed
        &&& self.ai_consent == other.ai_consent
        &&& self.data_monetization_consent == other.data_monetization_consent
        &&& self.total_transactions == other.total_transactions
        &&& self.created_at == other.created_at
        &&& self.last_active == other.last_active
    }
}

impl Product {
    /// Value equivalence: equal fields, with list fields compared by
    /// contents.
    pub open spec fn eqv(self, other: Self) -> bool {
        &&& self.id == other.id
        &&& self.seller_id == other.seller_id
        &&& self.seller_verification == other.seller_verification
        &&& self.name == other.name
        &&& self.brand == other.brand
        &&& self.price_idr == other.price_idr
        &&& self.fragrance_family == other.fragrance_family
        &&& self.top_notes@ == other.top_notes@
        &&& self.middle_notes@ == other.middle_notes@
        &&& self.base_notes@ == other.base_notes@
        &&& self.occasion@ == other.occasion@
        &&& self.season@ == other.season@
        &&& self.longevity == other.longevity
        &&& self.sillage == other.sillage
        &&& self.projection == other.projection
        &&& self.versatility_score == other.versatility_score
        &&& self.description == other.description
        &&& self.ingredients@ == other.ingredients@
        &&& self.halal_certified == other.halal_certified
        &&& self.image_urls@ == other.image_urls@
        &&& self.stock == other.stock
        &&& self.verified == other.verified
        &&& self.ai_analyzed == other.ai_analyzed
        &&& self.personality_matches@ == other.personality_matches@
        &&& self.created_at == other.created_at
        &&& self.updated_at == other.updated_at
    }
}

impl Product {
    /// The fields that certification and analysis updates never touch are
    /// equal.
    pub open spec fn eq_immutable_base(self, other: Self) -> bool {
        &&& self.id == other.id
        &&& self.seller_id == other.seller_id
        &&& self.seller_verification == other.seller_verification
        &&& self.name == other.name
        &&& self.brand == other.brand
        &&& self.price_idr == other.price_idr
        &&& self.fragrance_family == other.fragrance_family
        &&& self.top_notes@ == other.top_notes@
        &&& self.middle_notes@ == other.middle_notes@
        &&& self.base_notes@ == other.base_notes@
        &&& self.occasion@ == other.occasion@
        &&& self.season@ == other.season@
        &&& self.longevity == other.longevity
        &&& self.sillage == other.sillage
        &&& self.projection == other.projection
        &&& self.versatility_score == other.versatility_score
        &&& self.description == other.description
        &&& self.ingredients@ == other.ingredients@
        &&& self.image_urls@ == other.image_urls@
        &&& self.stock == other.stock
        &&& self.verified == other.verified
        &&& self.created_at == other.created_at
    }
}

impl DecentralizedIdentity {
    /// Value equivalence: equal fields, with list fields compared by
    /// contents.
    pub open spec fn eqv(self, other: Self) -> bool {
        &&& self.did == other.did
        &&& self.public_key == other.public_key
        &&& self.private_key_hash == other.private_key_hash
        &&& self.verified_claims@ == other.verified_claims@
        &&& self.data_permissions@ == other.data_permissions@
        &&& self.fragrance_identity.eqv(other.fragrance_identity)
        &&& self.created_at == other.created_at
    }
}

impl CompetitorData {
    /// Value equivalence: equal fields, with list fields compared by
    /// contents.
    pub open spec fn eqv(self, other: Self) -> bool {
        &&& self.competitor_prices@ == other.competitor_prices@
        &&& self.market_position == other.market_position
        &&& self.competitive_advantage@ == other.competitive_advantage@
        &&& self.threat_level == other.threat_level
    }
}

impl PredictiveInsight {
    /// Value equivalence: equal fields, with list fields compared by
    /// contents.
    pub open spec fn eqv(self, other: Self) -> bool {
        &&& self.predicted_demand@ == other.predicted_demand@
        &&& self.optimal_pricing@ == other.optimal_pricing@
        &&& self.inventory_recommendations@ == other.inventory_recommendations@
        &&& self.seasonal_adjustments@ == other.seasonal_adjustments@
    }
}

impl AnalyticsData {
    /// Value equivalence: equal fields, with list fields compared by
    /// contents and optional sections compared by their own equivalence.
    pub open spec fn eqv(self, other: Self) -> bool {
        &&& self.analytics_id == other.analytics_id
        &&& self.seller_id == other.seller_id
        &&& self.period_start == other.period_start
        &&& self.period_end == other.period_end
        &&& self.total_views == other.total_views
        &&& self.unique_visitors == other.unique_visitors
        &&& self.conversion_rate == other.conversion_rate
        &&& self.top_performing_products@ == other.top_performing_products@
        &&& self.customer_demographics@ == other.customer_demographics@
        &&& self.sales_trends@ == other.sales_trends@
        &&& match (self.competitor_analysis, other.competitor_analysis) {
            (Option::Some(a), Option::Some(b)) => a.eqv(b),
            (Option::None, Option::None) => true,
            _ => false,
        }
        &&& match (self.predictive_insights, other.predictive_insights) {
            (Option::Some(a), Option::Some(b)) => a.eqv(b),
            (Option::None, Option::None) => true,
            _ => false,
        }
        &&& self.generated_at == other.generated_at
    }
}

impl Clone for FragranceIdentity {
    fn clone(&self) -> (r: Self)
        ensures
            r.eqv(*self),
    {
        FragranceIdentity {
            personality_type: self.personality_type.clone(),
            lifestyle: self.lifestyle.clone(),
            preferred_families: clone_strings(&self.preferred_families),
            occasion_preferences: clone_strings(&self.occasion_preferences),
            season_preferences: clone_strings(&self.season_preferences),
            sensitivity_level: self.sensitivity_level.clone(),
            budget_range: self.budget_range,
            scent_journey: clone_evolutions(&self.scent_journey),
        }
    }
}

impl Clone for DecentralizedIdentity {
    fn clone(&self) -> (r: Self)
        ensures
            r.eqv(*self),
    {
        DecentralizedIdentity {
            did: self.did.clone(),
            public_key: self.public_key.clone(),
            private_key_hash: self.private_key_hash.clone(),
            verified_claims: clone_claims(&self.verified_claims),
            data_permissions: clone_permissions(&self.data_permissions),
            fragrance_identity: self.fragrance_identity.clone(),
            created_at: self.created_at,
        }
    }
}

impl Clone for UserProfile {
    fn clone(&self) -> (r: Self)
        ensures
            r.eqv(*self),
    {
        UserProfile {
            user_id: self.user_id.clone(),
            wallet_address: clone_opt_string(&self.wallet_address),
            did: clone_opt_string(&self.did),
            verification_status: self.verification_status,
            stake_info: self.stake_info,
            preferences: clone_string_pairs(&self.preferences),
            consultation_completed: self.consultation_completed,
            ai_consent: self.ai_consent,
            data_monetization_consent: self.data_monetization_consent,
            reputation_score: self.reputation_score,
            total_transactions: self.total_transactions,
            created_at: self.created_at,
            last_active: self.last_active,
        }
    }
}

impl Clone for Product {
    fn clone(&self) -> (r: Self)
        ensures
            r.eqv(*self),
    {
        Product {
            id: self.id.clone(),
            seller_id: self.seller_id.clone(),
            seller_verification: self.seller_verification,
            name: self.name.clone(),
            brand: self.brand.clone(),
            price_idr: self.price_idr,
            fragrance_family: self.fragrance_family.clone(),
            top_notes: clone_strings(&self.top_notes),
            middle_notes: clone_strings(&self.middle_notes),
            base_notes: clone_strings(&self.base_notes),
            occasion: clone_strings(&self.occasion),
            season: clone_strings(&self.season),
            longevity: self.longevity,
            sillage: self.sillage,
            projection: self.projection,
            versatility_score: self.versatility_score,
            description: self.description.clone(),
            ingredients: clone_strings(&self.ingredients),
            halal_certified: self.halal_certified,
            image_urls: clone_strings(&self.image_urls),
            stock: self.stock,
            verified: self.verified,
            ai_analyzed: self.ai_analyzed,
            personality_matches: clone_strings(&self.personality_matches),
            created_at: self.created_at,
            updated_at: self.updated_at,
        }
    }
}

impl Clone for VerifiedReview {
    fn clone(&self) -> (r: Self)
        ensures
            r == *self,
    {
        VerifiedReview {
            review_id: self.review_id.clone(),
            reviewer_id: self.reviewer_id.clone(),
            reviewer_stake: self.reviewer_stake,
            reviewer_tier: self.reviewer_tier,
            product_id: self.product_id.clone(),
            overall_rating: self.overall_rating,
            longevity_rating: self.longevity_rating,
            sillage_rating: self.sillage_rating,
            projection_rating: self.projection_rating,
            versatility_rating: self.versatility_rating,
            value_rating: self.value_rating,
            detailed_review: self.detailed_review.clone(),
            verified_purchase: self.verified_purchase,
            skin_type: self.skin_type.clone(),
            age_group: self.age_group.clone(),
            wear_occasion: self.wear_occasion.clone(),
            season_tested: self.season_tested.clone(),
            helpful_votes: self.helpful_votes,
            reported_count: self.reported_count,
            ai_validated: self.ai_validated,
            review_date: self.review_date,
            last_updated: self.last_updated,
        }
    }
}

impl Clone for AIRecommendation {
    fn clone(&self) -> (r: Self)
        ensures
            r == *self,
    {
        AIRecommendation {
            recommendation_id: self.recommendation_id.clone(),
            user_id: self.user_id.clone(),
            product_id: self.product_id.clone(),
            match_score: self.match_score,
            personality_alignment: self.personality_alignment,
            lifestyle_fit: self.lifestyle_fit,
            occasion_match: self.occasion_match,
            budget_compatibility: self.budget_compatibility,
            reasoning: self.reasoning.clone(),
            confidence_level: self.confidence_level,
            seasonal_relevance: self.seasonal_relevance,
            trend_factor: self.trend_factor,
            generated_at: self.generated_at,
            user_feedback: self.user_feedback,
        }
    }
}

/// Copy of a recommendation list, preserving the values.
pub fn clone_recommendations(v: &Vec<AIRecommendation>) -> (r: Vec<AIRecommendation>)
    ensures
        r@ == v@,
{
    let mut out: Vec<AIRecommendation> = Vec::new();
    let mut i: usize = 0;
    while i < v.len()
        invariant
            i <= v@.len(),
            out@.len() == i,
            forall|k: int| 0 <= k < i ==> out@[k] == v@[k],
        decreases v@.len() - i,
    {
        out.push(v[i].clone());
        i += 1;
    }
    proof {
        assert(out@ =~= v@);
    }
    out
}

impl Clone for Transaction {
    fn clone(&self) -> (r: Self)
        ensures
            r == *self,
    {
        Transaction {
            transaction_id: self.transaction_id.clone(),
            buyer_id: self.buyer_id.clone(),
            seller_id: self.seller_id.clone(),
            product_id: self.product_id.clone(),
            quantity: self.quantity,
            unit_price_idr: self.unit_price_idr,
            total_amount_idr: self.total_amount_idr,
            commission_rate: self.commission_rate,
            commission_amount: self.commission_amount,
            transaction_tier: self.transaction_tier,
            status: self.status,
            escrow_locked: self.escrow_locked,
            payment_method: self.payment_method.clone(),
            shipping_address: self.shipping_address.clone(),
            created_at: self.created_at,
            completed_at: self.completed_at,
        }
    }
}

impl Clone for SalesTrend {
    fn clone(&self) -> (r: Self)
        ensures
            r == *self,
    {
        SalesTrend {
            date: self.date,
            sales_volume: self.sales_volume,
            revenue_idr: self.revenue_idr,
            avg_order_value: self.avg_order_value,
            top_category: self.top_category.clone(),
        }
    }
}

/// Copy of a trend series, preserving the values.
pub fn clone_trends(v: &Vec<SalesTrend>) -> (r: Vec<SalesTrend>)
    ensures
        r@ == v@,
{
    let mut out: Vec<SalesTrend> = Vec::new();
    let mut i: usize = 0;
    while i < v.len()
        invariant
            i <= v@.len(),
            out@.len() == i,
            forall|k: int| 0 <= k < i ==> out@[k] == v@[k],
        decreases v@.len() - i,
    {
        out.push(v[i].clone());
        i += 1;
    }
    proof {
        assert(out@ =~= v@);
    }
    out
}

/// Copy of a string-keyed association list of amounts.
pub fn clone_u64_pairs(v: &Vec<(String, u64)>) -> (r: Vec<(String, u64)>)
    ensures
        r@ == v@,
{
    let mut out: Vec<(String, u64)> = Vec::new();
    let mut i: usize = 0;
    while i < v.len()
        invariant
            i <= v@.len(),
            out@.len() == i,
            forall|k: int| 0 <= k < i ==> out@[k] == v@[k],
        decreases v@.len() - i,
    {
        let pair = (v[i].0.clone(), v[i].1);
        out.push(pair);
        i += 1;
    }
    proof {
        assert(out@ =~= v@);
    }
    out
}

/// Copy of a string-keyed association list of counters.
pub fn clone_u32_pairs(v: &Vec<(String, u32)>) -> (r: Vec<(String, u32)>)
    ensures
        r@ == v@,
{
    let mut out: Vec<(String, u32)> = Vec::new();
    let mut i: usize = 0;
    while i < v.len()
        invariant
            i <= v@.len(),
            out@.len() == i,
            forall|k: int| 0 <= k < i ==> out@[k] == v@[k],
        decreases v@.len() - i,
    {
        let pair = (v[i].0.clone(), v[i].1);
        out.push(pair);
        i += 1;
    }
    proof {
        assert(out@ =~= v@);
    }
    out
}

impl Clone for CompetitorData {
    fn clone(&self) -> (r: Self)
        ensures
            r.eqv(*self),
    {
        CompetitorData {
            competitor_prices: clone_u64_pairs(&self.competitor_prices),
            market_position: self.market_position.clone(),
            competitive_advantage: clone_strings(&self.competitive_advantage),
            threat_level: self.threat_level.clone(),
        }
    }
}

impl Clone for PredictiveInsight {
    fn clone(&self) -> (r: Self)
        ensures
            r.eqv(*self),
    {
        PredictiveInsight {
            predicted_demand: clone_u32_pairs(&self.predicted_demand),
            optimal_pricing: clone_u64_pairs(&self.optimal_pricing),
            inventory_recommendations: clone_strings(&self.inventory_recommendations),
            seasonal_adjustments: clone_strings(&self.seasonal_adjustments),
        }
    }
}

impl Clone for AnalyticsData {
    fn clone(&self) -> (r: Self)
        ensures
            r.eqv(*self),
    {
        let competitor_analysis = match &self.competitor_analysis {
            Option::Some(c) => Option::Some(c.clone()),
            Option::None => Option::None,
        };
        let predictive_insights = match &self.predictive_insights {
            Option::Some(p) => Option::Some(p.clone()),
            Option::None => Option::None,
        };
        AnalyticsData {
            analytics_id: self.analytics_id.clone(),
            seller_id: self.seller_id.clone(),
            period_start: self.period_start,
            period_end: self.period_end,
            total_views: self.total_views,
            unique_visitors: self.unique_visitors,
            conversion_rate: self.conversion_rate,
            top_performing_products: clone_strings(&self.top_performing_products),
            customer_demographics: clone_u32_pairs(&self.customer_demographics),
            sales_trends: clone_trends(&self.sales_trends),
            competitor_analysis,
            predictive_insights,
            generated_at: self.generated_at,
        }
    }
}

/// Copy of a report list, preserving the values of each report.
pub fn clone_analytics(v: &Vec<AnalyticsData>) -> (r: Vec<AnalyticsData>)
    ensures
        r@.len() == v@.len(),
        forall|k: int| 0 <= k < v@.len() ==> #[trigger] r@[k].eqv(v@[k]),
{
    let mut out: Vec<AnalyticsData> = Vec::new();
    let mut i: usize = 0;
    while i < v.len()
        invariant
            i <= v@.len(),
            out@.len() == i,
            forall|k: int| 0 <= k < i ==> #[trigger] out@[k].eqv(v@[k]),
        decreases v@.len() - i,
    {
        out.push(v[i].clone());
        i += 1;
    }
    out
}

impl Clone for Advertisement {
    fn clone(&self) -> (r: Self)
        ensures
            r == *self,
    {
        Advertisement {
            ad_id: self.ad_id.clone(),
            advertiser_id: self.advertiser_id.clone(),
            product_id: self.product_id.clone(),
            ad_type: self.ad_type,
            placement: self.placement,
            annual_fee: self.annual_fee,
            impressions: self.impressions,
            clicks: self.clicks,
            conversions: self.conversions,
            ctr: self.ctr,
            conversion_rate: self.conversion_rate,
            active: self.active,
            started_at: self.started_at,
            expires_at: self.expires_at,
        }
    }
}

impl Clone for TreasuryInvestment {
    fn clone(&self) -> (r: Self)
        ensures
            r == *self,
    {
        TreasuryInvestment {
            investment_id: self.investment_id.clone(),
            principal_amount: self.principal_amount,
            investment_type: self.investment_type,
            annual_return_rate: self.annual_return_rate,
            maturity_date: self.maturity_date,
            current_value: self.current_value,
            created_at: self.created_at,
        }
    }
}

} // verus!
