//! Trust-staking economy and recommendation matching for a fragrance
//! marketplace.
//!
//! The library is organised around four verified components:
//!
//! * [`accrual`] — time-proportional yield computation shared by stake
//!   rewards and treasury returns;
//! * [`tiers`] and [`commission`] — the verification-tier catalog and the
//!   transaction fee brackets;
//! * [`matching`] and [`recommend`] — the multi-factor scorer and the
//!   ranked, truncated recommendation lists it feeds;
//! * [`platform`] — the ledger itself: profiles, stakes, penalties,
//!   products, transactions and the other record stores, held in the
//!   insertion-ordered maps of [`store`].
//!
//! [`types`] holds the data model, [`error`] the error taxonomy, [`text`]
//! the case-folding and substring machinery of the scorer, and [`laws`]
//! the proved statements that relate successive ledger operations.
//!
//! All currency amounts are abstract integer units.  Fractional quantities
//! (rates, scores, reputation) are fixed-point integers; each type documents
//! its scale.  Timestamps are integer ticks with [`accrual::ONE_YEAR`] ticks
//! to a year.

pub mod accrual;
pub mod commission;
pub mod error;
pub mod laws;
pub mod matching;
pub mod platform;
pub mod recommend;
pub mod store;
pub mod text;
pub mod tiers;
pub mod types;
