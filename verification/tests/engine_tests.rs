use aromance_backend::commission::TransactionTier;
use aromance_backend::error::Error;
use aromance_backend::matching::{
    calculate_budget_compatibility, calculate_lifestyle_fit, calculate_occasion_match,
    calculate_personality_match, calculate_seasonal_relevance,
};
use aromance_backend::platform::{
    create_fragrance_family_trend, get_aromance_info, get_trending_fragrances, greet, Platform,
};
use aromance_backend::tiers::{VerificationStatus, VerificationTier};
use aromance_backend::accrual::ONE_YEAR;
use aromance_backend::types::{
    AdPlacement, AdType, Advertisement, AnalyticsSubscription, AnalyticsTier, BudgetRange,
    FragranceIdentity, InvestmentType, LongevityRating, PermissionLevel, Product,
    ProjectionRating, SillageRating, Transaction, TransactionStatus, UserProfile, VerifiedReview,
};

fn profile(user_id: &str) -> UserProfile {
    UserProfile {
        user_id: user_id.to_string(),
        wallet_address: None,
        did: None,
        verification_status: VerificationStatus::Unverified,
        stake_info: None,
        preferences: Vec::new(),
        consultation_completed: true,
        ai_consent: true,
        data_monetization_consent: false,
        reputation_score: 1000,
        total_transactions: 0,
        created_at: 0,
        last_active: 0,
    }
}

fn identity(budget: BudgetRange) -> FragranceIdentity {
    FragranceIdentity {
        personality_type: "romantic".to_string(),
        lifestyle: "professional".to_string(),
        preferred_families: vec!["floral".to_string()],
        occasion_preferences: vec!["office".to_string()],
        season_preferences: vec!["summer".to_string()],
        sensitivity_level: "moderate".to_string(),
        budget_range: budget,
        scent_journey: Vec::new(),
    }
}

fn product(id: &str, family: &str, price: u64) -> Product {
    Product {
        id: id.to_string(),
        seller_id: "seller1".to_string(),
        seller_verification: VerificationStatus::Basic,
        name: format!("{} perfume", id),
        brand: "House".to_string(),
        price_idr: price,
        fragrance_family: family.to_string(),
        top_notes: Vec::new(),
        middle_notes: Vec::new(),
        base_notes: Vec::new(),
        occasion: vec!["Office Party".to_string()],
        season: vec!["Summer".to_string()],
        longevity: LongevityRating::Good,
        sillage: SillageRating::Moderate,
        projection: ProjectionRating::Moderate,
        versatility_score: 800,
        description: "a scent".to_string(),
        ingredients: Vec::new(),
        halal_certified: false,
        image_urls: Vec::new(),
        stock: 10,
        verified: true,
        ai_analyzed: true,
        personality_matches: vec!["romantic".to_string()],
        created_at: 0,
        updated_at: 0,
    }
}

fn review(id: &str, reviewer: &str, product_id: &str) -> VerifiedReview {
    VerifiedReview {
        review_id: id.to_string(),
        reviewer_id: reviewer.to_string(),
        reviewer_stake: 300_000,
        reviewer_tier: VerificationTier::BasicReviewer { stake: 0 },
        product_id: product_id.to_string(),
        overall_rating: 5,
        longevity_rating: 4,
        sillage_rating: 4,
        projection_rating: 3,
        versatility_rating: 5,
        value_rating: 4,
        detailed_review: "lovely".to_string(),
        verified_purchase: true,
        skin_type: "dry".to_string(),
        age_group: "25-34".to_string(),
        wear_occasion: "office".to_string(),
        season_tested: "summer".to_string(),
        helpful_votes: 0,
        reported_count: 0,
        ai_validated: false,
        review_date: 0,
        last_updated: 0,
    }
}

fn transaction(id: &str, buyer: &str, seller: &str, amount: u64, tier: TransactionTier)
    -> Transaction {
    Transaction {
        transaction_id: id.to_string(),
        buyer_id: buyer.to_string(),
        seller_id: seller.to_string(),
        product_id: "p1".to_string(),
        quantity: 1,
        unit_price_idr: amount,
        total_amount_idr: amount,
        commission_rate: 0,
        commission_amount: 0,
        transaction_tier: tier,
        status: TransactionStatus::Pending,
        escrow_locked: false,
        payment_method: "card".to_string(),
        shipping_address: "street 1".to_string(),
        created_at: 100,
        completed_at: None,
    }
}

fn setup_identity(p: &mut Platform, user: &str, budget: BudgetRange) {
    p.create_user_profile(profile(user)).unwrap();
    p.create_decentralized_identity(user.to_string(), identity(budget), 42).unwrap();
}

#[test]
fn budget_compatibility_brackets() {
    assert_eq!(calculate_budget_compatibility(&BudgetRange::Budget, 49_999), 1000);
    assert_eq!(calculate_budget_compatibility(&BudgetRange::Budget, 99_999), 700);
    assert_eq!(calculate_budget_compatibility(&BudgetRange::Budget, 100_000), 300);
    assert_eq!(calculate_budget_compatibility(&BudgetRange::Moderate, 150_000), 1000);
    assert_eq!(calculate_budget_compatibility(&BudgetRange::Moderate, 20_000), 700);
    assert_eq!(calculate_budget_compatibility(&BudgetRange::Moderate, 250_000), 700);
    assert_eq!(calculate_budget_compatibility(&BudgetRange::Moderate, 400_000), 300);
    assert_eq!(calculate_budget_compatibility(&BudgetRange::Premium, 300_000), 1000);
    assert_eq!(calculate_budget_compatibility(&BudgetRange::Premium, 150_000), 700);
    assert_eq!(calculate_budget_compatibility(&BudgetRange::Premium, 600_000), 700);
    assert_eq!(calculate_budget_compatibility(&BudgetRange::Premium, 800_000), 300);
    assert_eq!(calculate_budget_compatibility(&BudgetRange::Luxury, 600_000), 1000);
    assert_eq!(calculate_budget_compatibility(&BudgetRange::Luxury, 400_000), 700);
    assert_eq!(calculate_budget_compatibility(&BudgetRange::Luxury, 100_000), 300);
}

#[test]
fn personality_match_counts_families_and_tag() {
    let ident = identity(BudgetRange::Luxury);
    let prod = product("p1", "Floral Oriental", 600_000);
    // One matching family plus the personality tag: (1 + 1) / (1 + 1).
    assert_eq!(calculate_personality_match(&ident, &prod), 1000);
    let other = product("p2", "Woody", 600_000);
    // No family match but the tag still counts: (0 + 1) / (1 + 1).
    assert_eq!(calculate_personality_match(&ident, &other), 500);
    let mut no_factors = identity(BudgetRange::Luxury);
    no_factors.preferred_families = Vec::new();
    no_factors.personality_type = "stoic".to_string();
    // No factor applies: neutral.
    assert_eq!(calculate_personality_match(&no_factors, &other), 500);
}

#[test]
fn occasion_and_season_matching_is_case_insensitive() {
    let user_occ = vec!["office".to_string()];
    let prod_occ = vec!["Office Party".to_string()];
    assert_eq!(calculate_occasion_match(&user_occ, &prod_occ), 1000);
    // Empty lists are neutral, not penalizing.
    assert_eq!(calculate_occasion_match(&Vec::new(), &prod_occ), 500);
    assert_eq!(calculate_occasion_match(&user_occ, &Vec::new()), 500);
    // A miss scores zero.
    assert_eq!(calculate_occasion_match(&vec!["hiking".to_string()], &prod_occ), 0);
    // Seasons match only product-contains-user.
    let user_seasons = vec!["summer".to_string()];
    assert_eq!(calculate_seasonal_relevance(&user_seasons, &vec!["Late Summer".to_string()]), 1000);
    assert_eq!(calculate_seasonal_relevance(&user_seasons, &vec!["Winter".to_string()]), 0);
    // Half the user's seasons matched.
    let two = vec!["summer".to_string(), "winter".to_string()];
    assert_eq!(calculate_seasonal_relevance(&two, &vec!["summer nights".to_string()]), 500);
}

#[test]
fn lifestyle_rule_table() {
    let mut prod = product("p1", "Floral", 100_000);
    prod.occasion = vec!["formal dinner".to_string()];
    assert_eq!(calculate_lifestyle_fit(&"Professional".to_string(), &prod), 900);
    prod.occasion = vec!["weekend".to_string()];
    // No office/formal mention, but versatility above 0.7.
    assert_eq!(calculate_lifestyle_fit(&"professional".to_string(), &prod), 800);
    prod.versatility_score = 500;
    assert_eq!(calculate_lifestyle_fit(&"professional".to_string(), &prod), 500);
    prod.occasion = vec!["daily wear".to_string()];
    assert_eq!(calculate_lifestyle_fit(&"casual".to_string(), &prod), 900);
    prod.occasion = vec!["gala".to_string()];
    assert_eq!(calculate_lifestyle_fit(&"casual".to_string(), &prod), 600);
    prod.occasion = vec!["date night".to_string()];
    assert_eq!(calculate_lifestyle_fit(&"evening".to_string(), &prod), 900);
    prod.occasion = vec!["gym".to_string()];
    assert_eq!(calculate_lifestyle_fit(&"evening".to_string(), &prod), 500);
    assert_eq!(calculate_lifestyle_fit(&"nomadic".to_string(), &prod), 700);
}

#[test]
fn recommendations_keep_good_products_and_drop_poor_ones() {
    let mut p = Platform::new();
    setup_identity(&mut p, "alice", BudgetRange::Luxury);
    // A luxury-priced product matching family, occasion, season and tag.
    p.add_product(product("good", "Floral Oriental", 600_000)).unwrap();
    // A product that matches almost nothing.
    let mut poor = product("poor", "Woody", 10_000);
    poor.occasion = vec!["hiking".to_string()];
    poor.season = vec!["Winter".to_string()];
    poor.personality_matches = Vec::new();
    p.add_product(poor).unwrap();
    let recs = p.generate_ai_recommendations("alice".to_string(), 1000).unwrap();
    assert_eq!(recs.len(), 1);
    let rec = &recs[0];
    assert_eq!(rec.product_id, "good");
    assert_eq!(rec.match_score, 4000);
    assert_eq!(rec.personality_alignment, 1000);
    assert_eq!(rec.budget_compatibility, 1000);
    assert_eq!(rec.occasion_match, 1000);
    assert_eq!(rec.seasonal_relevance, 1000);
    assert_eq!(rec.confidence_level, 900);
    assert_eq!(rec.trend_factor, 800);
    assert_eq!(rec.recommendation_id, "rec_alice_good");
    assert_eq!(rec.reasoning, "Based on your romantic personality and professional lifestyle");
    assert_eq!(rec.generated_at, 1000);
    // The stored list equals the returned one.
    let stored = p.get_recommendations_for_user("alice".to_string());
    assert_eq!(stored.len(), 1);
    assert_eq!(stored[0].product_id, "good");
}

#[test]
fn recommendations_truncate_to_ten_sorted() {
    let mut p = Platform::new();
    p.create_user_profile(profile("bob")).unwrap();
    let mut ident = identity(BudgetRange::Luxury);
    ident.preferred_families = Vec::new();
    ident.occasion_preferences = Vec::new();
    ident.season_preferences = Vec::new();
    ident.personality_type = "stoic".to_string();
    p.create_decentralized_identity("bob".to_string(), ident, 7).unwrap();
    // Twelve products above the cutoff: neutral sub-scores plus a full
    // budget score give 500 + 1000 + 500 + 500.
    for i in 0..12u32 {
        let mut prod = product(&format!("p{:02}", i), "Woody", 600_000);
        prod.personality_matches = Vec::new();
        prod.occasion = Vec::new();
        prod.season = Vec::new();
        p.add_product(prod).unwrap();
    }
    let recs = p.generate_ai_recommendations("bob".to_string(), 50).unwrap();
    assert_eq!(recs.len(), 10);
    for w in recs.windows(2) {
        assert!(w[0].match_score >= w[1].match_score);
    }
    for rec in &recs {
        assert_eq!(rec.match_score, 2500);
    }
    // Distinct products, never the same one twice.
    for i in 0..recs.len() {
        for j in (i + 1)..recs.len() {
            assert_ne!(recs[i].product_id, recs[j].product_id);
        }
    }
}

#[test]
fn recommendations_need_profile_and_identity() {
    let mut p = Platform::new();
    let r = p.generate_ai_recommendations("nobody".to_string(), 5);
    assert!(matches!(r, Err(Error::IdentityNotFound)));
    p.create_user_profile(profile("carla")).unwrap();
    let r2 = p.generate_ai_recommendations("carla".to_string(), 5);
    assert!(matches!(r2, Err(Error::IdentityNotFound)));
    assert_eq!(Error::IdentityNotFound.message(), "User profile or DID not found");
}

#[test]
fn identity_creation_links_profile() {
    let mut p = Platform::new();
    p.create_user_profile(profile("dina")).unwrap();
    let ident = p
        .create_decentralized_identity("dina".to_string(), identity(BudgetRange::Budget), 99)
        .unwrap();
    assert_eq!(ident.did, "did:icp:aromance:dina");
    assert_eq!(ident.public_key, "pub_key_99");
    assert_eq!(ident.private_key_hash, "priv_hash_99");
    assert!(ident.verified_claims.is_empty());
    assert_eq!(ident.created_at, 99);
    let stored = p.get_user_profile(&"dina".to_string()).unwrap();
    assert_eq!(stored.did.as_deref(), Some("did:icp:aromance:dina"));
}

#[test]
fn data_permissions_update() {
    let mut p = Platform::new();
    let r = p.update_user_data_permissions("nobody".to_string(), Vec::new());
    assert_eq!(r, Err(Error::IdentityNotFound));
    setup_identity(&mut p, "ed", BudgetRange::Budget);
    let perms = vec![("analytics".to_string(), PermissionLevel::ReadOnly)];
    let msg = p.update_user_data_permissions("ed".to_string(), perms).unwrap();
    assert_eq!(msg, "Data permissions updated for user: ed");
}

#[test]
fn reviews_require_verified_reviewer() {
    let mut p = Platform::new();
    let r = p.create_verified_review(review("r1", "nobody", "p1"));
    assert_eq!(r, Err(Error::UserNotFound));
    p.create_user_profile(profile("fred")).unwrap();
    let r2 = p.create_verified_review(review("r1", "fred", "p1"));
    assert_eq!(r2, Err(Error::ReviewerUnverified));
    assert_eq!(Error::ReviewerUnverified.message(), "User must be verified to create reviews");
    // Stake to become verified, then the review lands.
    p.stake_for_verification(
        "fred".to_string(),
        300_000,
        VerificationTier::BasicReviewer { stake: 0 },
        0,
    )
    .unwrap();
    let msg = p.create_verified_review(review("r1", "fred", "p1")).unwrap();
    assert_eq!(msg, "Verified review created: r1");
    p.create_verified_review(review("r2", "fred", "p2")).unwrap();
    let for_p1 = p.get_product_reviews("p1".to_string());
    assert_eq!(for_p1.len(), 1);
    assert_eq!(for_p1[0].review_id, "r1");
}

#[test]
fn product_search_filters() {
    let mut p = Platform::new();
    p.add_product(product("a", "Floral Oriental", 80_000)).unwrap();
    let mut b = product("b", "Woody", 600_000);
    b.verified = false;
    b.halal_certified = true;
    p.add_product(b).unwrap();
    let by_family = p.search_products_advanced(
        Some("floral".to_string()),
        None,
        None,
        None,
        None,
        None,
        None,
    );
    assert_eq!(by_family.len(), 1);
    assert_eq!(by_family[0].id, "a");
    let by_price = p.search_products_advanced(None, Some(100_000), Some(700_000), None, None,
        None, None);
    assert_eq!(by_price.len(), 1);
    assert_eq!(by_price[0].id, "b");
    let verified_only = p.search_products_advanced(None, None, None, None, None, None,
        Some(true));
    assert_eq!(verified_only.len(), 1);
    assert_eq!(verified_only[0].id, "a");
    let by_occasion = p.search_products_advanced(None, None, None, Some("office".to_string()),
        None, None, None);
    assert_eq!(by_occasion.len(), 2);
    let halal = p.get_halal_products();
    assert_eq!(halal.len(), 1);
    assert_eq!(halal[0].id, "b");
    let by_personality = p.search_products_by_personality("romantic".to_string());
    assert_eq!(by_personality.len(), 2);
    assert_eq!(p.get_products().len(), 2);
}

#[test]
fn product_updates() {
    let mut p = Platform::new();
    let r = p.update_product_ai_analysis("none".to_string(), Vec::new(), 5);
    assert_eq!(r, Err(Error::ProductNotFound));
    assert_eq!(Error::ProductNotFound.message(), "Product not found");
    p.add_product(product("x", "Citrus", 50_000)).unwrap();
    let msg = p
        .update_product_ai_analysis("x".to_string(), vec!["bold".to_string()], 5)
        .unwrap();
    assert_eq!(msg, "AI analysis updated for product: x");
    let msg2 = p.validate_halal_certification("x".to_string(), true, 6).unwrap();
    assert_eq!(msg2, "Halal certification updated for product: x");
    let prods = p.get_products();
    assert_eq!(prods[0].personality_matches, vec!["bold".to_string()]);
    assert!(prods[0].ai_analyzed);
    assert!(prods[0].halal_certified);
    assert_eq!(prods[0].updated_at, 6);
}

#[test]
fn transactions_carry_resolved_commission() {
    let mut p = Platform::new();
    let msg = p
        .create_transaction(transaction("t1", "buyer", "seller1", 99_999,
            TransactionTier::Budget))
        .unwrap();
    assert_eq!(msg, "Transaction created: t1");
    p.create_transaction(transaction("t2", "other", "seller1", 2_000_000,
        TransactionTier::Luxury))
        .unwrap();
    let for_buyer = p.get_user_transactions("buyer".to_string());
    assert_eq!(for_buyer.len(), 1);
    assert_eq!(for_buyer[0].commission_amount, 1_499);
    let for_seller = p.get_user_transactions("seller1".to_string());
    assert_eq!(for_seller.len(), 2);
    assert_eq!(for_seller[1].commission_amount, 60_000);
}

#[test]
fn analytics_subscription_sets_fee_and_features() {
    let mut p = Platform::new();
    let sub = AnalyticsSubscription {
        subscription_id: "s1".to_string(),
        seller_id: "seller1".to_string(),
        tier: AnalyticsTier::Premium,
        monthly_fee: 0,
        features_included: Vec::new(),
        data_retention_days: 90,
        api_calls_limit: 1000,
        started_at: 0,
        expires_at: 10_000,
        auto_renew: true,
    };
    let msg = p.subscribe_analytics(sub).unwrap();
    assert_eq!(msg, "Analytics subscription created: s1");
}

#[test]
fn analytics_report_needs_live_subscription() {
    let mut p = Platform::new();
    let r = p.generate_analytics_data("seller1".to_string(), 0, 1000, 50);
    assert!(matches!(r, Err(Error::SubscriptionRequired)));
    assert_eq!(Error::SubscriptionRequired.message(), "Valid analytics subscription required");
}

#[test]
fn analytics_report_shape() {
    let mut p = Platform::new();
    p.create_user_profile(profile("buyer")).unwrap();
    let sub = AnalyticsSubscription {
        subscription_id: "s1".to_string(),
        seller_id: "seller1".to_string(),
        tier: AnalyticsTier::Enterprise,
        monthly_fee: 0,
        features_included: Vec::new(),
        data_retention_days: 90,
        api_calls_limit: 1000,
        started_at: 0,
        expires_at: 10_000,
        auto_renew: true,
    };
    p.subscribe_analytics(sub).unwrap();
    p.create_transaction(transaction("t1", "buyer", "seller1", 200_000,
        TransactionTier::Standard))
        .unwrap();
    p.create_transaction(transaction("t2", "stranger", "seller1", 100_000,
        TransactionTier::Standard))
        .unwrap();
    let report = p.generate_analytics_data("seller1".to_string(), 0, 1000, 50).unwrap();
    assert_eq!(report.analytics_id, "analytics_seller1_50");
    assert_eq!(report.total_views, 6);
    assert_eq!(report.unique_visitors, 4);
    assert_eq!(report.conversion_rate, 155);
    assert_eq!(report.sales_trends.len(), 2);
    assert_eq!(report.sales_trends[0].revenue_idr, 200_000);
    assert_eq!(report.sales_trends[0].top_category, "Fragrance");
    // Only one buyer has a profile.
    assert_eq!(report.customer_demographics, vec![("active_users".to_string(), 1)]);
    assert!(report.competitor_analysis.is_some());
    assert!(report.predictive_insights.is_some());
    let history = p.get_seller_analytics("seller1".to_string());
    assert_eq!(history.len(), 1);
    assert_eq!(history[0].analytics_id, "analytics_seller1_50");
}

#[test]
fn advertisements_reset_counters_and_filter_by_placement() {
    let mut p = Platform::new();
    let ad = Advertisement {
        ad_id: "ad1".to_string(),
        advertiser_id: "seller1".to_string(),
        product_id: "p1".to_string(),
        ad_type: AdType::Banner,
        placement: AdPlacement::Homepage,
        annual_fee: 7,
        impressions: 9,
        clicks: 9,
        conversions: 9,
        ctr: 9,
        conversion_rate: 9,
        active: false,
        started_at: 0,
        expires_at: 500,
    };
    let msg = p.create_advertisement(ad).unwrap();
    assert_eq!(msg, "Advertisement created: ad1");
    let shown = p.get_active_advertisements(AdPlacement::Homepage, 100);
    assert_eq!(shown.len(), 1);
    assert_eq!(shown[0].annual_fee, 1_500_000);
    assert_eq!(shown[0].impressions, 0);
    assert!(shown[0].active);
    // Wrong placement or expiry filters it out.
    assert!(p.get_active_advertisements(AdPlacement::ProductPage, 100).is_empty());
    assert!(p.get_active_advertisements(AdPlacement::Homepage, 600).is_empty());
}

#[test]
fn treasury_accrues_and_allocates() {
    let mut p = Platform::new();
    let msg = p.invest_treasury_funds(1_000_000, InvestmentType::FixedIncome, 0).unwrap();
    assert_eq!(msg, "Treasury investment created: inv_0_1000000");
    // 7% after a full year.
    assert_eq!(p.calculate_treasury_returns(ONE_YEAR), 70_000);
    // Nothing has accrued at creation time.
    assert_eq!(p.calculate_treasury_returns(0), 0);
    let alloc = p.process_monthly_treasury_allocation(ONE_YEAR).unwrap();
    assert_eq!(alloc, "Monthly treasury allocation completed: 70000 IDR total");
}

#[test]
fn informational_endpoints() {
    assert_eq!(greet("Maya".to_string()),
        "Hello, Maya! Welcome to Aromance - Your Decentralized Fragrance Identity Platform!");
    assert_eq!(get_aromance_info(),
        "Aromance: AI-Powered Decentralized Perfume Marketplace with Web3 Identity and Verified Reviews");
    let trending = get_trending_fragrances();
    assert_eq!(trending, vec!["Fresh Citrus", "Woody Oriental", "Floral Fruity", "Gourmand"]);
    let trend = create_fragrance_family_trend("citrus".to_string(), 850).unwrap();
    assert_eq!(trend, "Trend analysis created for citrus family with score: 850");
}
