//! Tiered rental rate matrix.
//!
//! Tier boundaries:
//!   - Daily:   1-6 days (inclusive)
//!   - Weekly:  7-25 days (inclusive)
//!   - Monthly: 26+ days
//!
//! The rate type `R` is the caller's money representation; the library only
//! selects which of an asset's three rates applies, it never does arithmetic
//! on a rate.
use vstd::prelude::*;
use vstd::string::*;
use crate::text::{decimal_string, decimal_text};

verus! {

/// Which of an asset's three rates a rental is billed at.
#[derive(Debug, Clone, Copy, PartialEq, Eq, Structural)]
pub enum RateBasis {
    Daily,
    Weekly,
    Monthly,
}

/// One rental tier. `max_days: None` means no upper limit.
#[derive(Debug, Clone, Copy, PartialEq, Eq, Structural)]
pub struct RateTier {
    pub rate_basis: RateBasis,
    pub min_days: i64,
    pub max_days: Option<i64>,
}

/// The three default rates of an asset.
#[derive(Debug, Clone, Copy, PartialEq)]
pub struct AssetRates<R> {
    pub default_daily_rate: R,
    pub default_weekly_rate: R,
    pub default_monthly_rate: R,
}

/// Full result of a rate-matrix lookup for one line item.
#[derive(Debug, Clone, Copy, PartialEq)]
pub struct RateMatrixResult<R> {
    pub rate_basis: RateBasis,
    pub unit_rate: R,
    pub tier: RateTier,
}

pub open spec fn daily_tier() -> RateTier {
    RateTier { rate_basis: RateBasis::Daily, min_days: 1, max_days: Some(6) }
}

pub open spec fn weekly_tier() -> RateTier {
    RateTier { rate_basis: RateBasis::Weekly, min_days: 7, max_days: Some(25) }
}

pub open spec fn monthly_tier() -> RateTier {
    RateTier { rate_basis: RateBasis::Monthly, min_days: 26, max_days: None }
}

/// The canonical tier table, in order.
pub open spec fn canonical_tiers() -> Seq<RateTier> {
    seq![daily_tier(), weekly_tier(), monthly_tier()]
}

/// `tier` applies to a rental of `days` days.
pub open spec fn tier_covers(tier: RateTier, days: int) -> bool {
    &&& days >= tier.min_days
    &&& match tier.max_days {
        Some(max) => days <= max,
        None => true,
    }
}

/// The tier a valid duration (one day or more) falls in.
pub open spec fn tier_for(days: int) -> RateTier {
    if days <= 6 {
        daily_tier()
    } else if days <= 25 {
        weekly_tier()
    } else {
        monthly_tier()
    }
}

/// The rate an asset charges on a given basis.
pub open spec fn rate_for<R>(rates: AssetRates<R>, basis: RateBasis) -> R {
    match basis {
        RateBasis::Daily => rates.default_daily_rate,
        RateBasis::Weekly => rates.default_weekly_rate,
        RateBasis::Monthly => rates.default_monthly_rate,
    }
}

/// Position of a basis in the tier order (Daily < Weekly < Monthly).
pub open spec fn basis_rank(basis: RateBasis) -> int {
    match basis {
        RateBasis::Daily => 0,
        RateBasis::Weekly => 1,
        RateBasis::Monthly => 2,
    }
}

/// Error text for a duration below one day.
pub open spec fn duration_error(days: int) -> Seq<char> {
    "Invalid rental duration: "@ + decimal_text(days)
        + ". Duration must be a positive integer (1 or more days)."@
}

/// Error text for a quantity below one.
pub open spec fn quantity_error(quantity: int) -> Seq<char> {
    "Invalid quantity: "@ + decimal_text(quantity) + ". Quantity must be a positive integer (1 or more)."@
}

/// What `get_tier_by_duration` returns, by view.
pub open spec fn tier_result(days: int) -> Result<RateTier, Seq<char>> {
    if days < 1 {
        Err(duration_error(days))
    } else {
        Ok(tier_for(days))
    }
}

fn make_tier(rate_basis: RateBasis, min_days: i64, max_days: Option<i64>) -> (t: RateTier)
    ensures
        t == (RateTier { rate_basis, min_days, max_days }),
{
    RateTier { rate_basis, min_days, max_days }
}

/// All tier definitions, in order (Daily, Weekly, Monthly), as a fresh vector.
pub fn get_all_tiers() -> (tiers: Vec<RateTier>)
    ensures
        tiers@ == canonical_tiers(),
{
    let mut tiers: Vec<RateTier> = Vec::new();
    tiers.push(make_tier(RateBasis::Daily, 1, Some(6)));
    tiers.push(make_tier(RateBasis::Weekly, 7, Some(25)));
    tiers.push(make_tier(RateBasis::Monthly, 26, None));
    assert(tiers@ =~= canonical_tiers());
    tiers
}

fn covers(tier: &RateTier, days: i64) -> (b: bool)
    ensures
        b == tier_covers(*tier, days as int),
{
    days >= tier.min_days && match tier.max_days {
        Some(max) => days <= max,
        None => true,
    }
}

/// Determine the rental tier from a duration in days.
///
/// Durations below one day are rejected with an error that says the duration
/// must be a positive integer.
pub fn get_tier_by_duration(duration_days: i64) -> (res: Result<RateTier, String>)
    ensures
        match res {
            Ok(t) => tier_result(duration_days as int) == Ok::<RateTier, Seq<char>>(t),
            Err(e) => tier_result(duration_days as int) == Err::<RateTier, Seq<char>>(e@),
        },
{
    if duration_days < 1 {
        let n = decimal_string(duration_days);
        let msg = String::from_str("Invalid rental duration: ").concat(n.as_str()).concat(
            ". Duration must be a positive integer (1 or more days).",
        );
        return Err(msg);
    }
    let tiers = get_all_tiers();
    let mut i: usize = 0;
    while i < tiers.len()
        invariant
            tiers@ == canonical_tiers(),
            duration_days >= 1,
            i <= tiers.len(),
            forall|j: int| 0 <= j < i ==> !tier_covers(#[trigger] tiers@[j], duration_days as int),
        decreases tiers.len() - i,
    {
        if covers(&tiers[i], duration_days) {
            proof {
                lemma_tiers_partition(duration_days as int);
            }
            return Ok(tiers[i]);
        }
        i = i + 1;
    }
    proof {
        lemma_tiers_partition(duration_days as int);
        assert(!tier_covers(tiers@[2], duration_days as int));
    }
    let n = decimal_string(duration_days);
    let msg = String::from_str("No tier found for duration ").concat(n.as_str()).concat(
        ". This indicates a misconfiguration in RATE_TIERS.",
    );
    Err(msg)
}

/// The unit rate an asset charges for a rental of `duration_days` days.
pub fn calculate_unit_rate<R: Copy>(duration_days: i64, asset_rates: &AssetRates<R>) -> (res: Result<R, String>)
    ensures
        match res {
            Ok(r) => duration_days >= 1 && r == rate_for(*asset_rates, tier_for(duration_days as int).rate_basis),
            Err(e) => duration_days < 1 && e@ == duration_error(duration_days as int),
        },
{
    let tier = get_tier_by_duration(duration_days)?;
    Ok(match tier.rate_basis {
        RateBasis::Daily => asset_rates.default_daily_rate,
        RateBasis::Weekly => asset_rates.default_weekly_rate,
        RateBasis::Monthly => asset_rates.default_monthly_rate,
    })
}

/// Full rate-matrix calculation for a quote line item: the tier, its basis and
/// the asset's rate on that basis.
pub fn calculate_rate_matrix<R: Copy>(duration_days: i64, asset_rates: &AssetRates<R>) -> (res: Result<RateMatrixResult<R>, String>)
    ensures
        match res {
            Ok(m) => {
                &&& duration_days >= 1
                &&& m.tier == tier_for(duration_days as int)
                &&& m.rate_basis == m.tier.rate_basis
                &&& m.unit_rate == rate_for(*asset_rates, m.rate_basis)
            },
            Err(e) => duration_days < 1 && e@ == duration_error(duration_days as int),
        },
{
    let tier = get_tier_by_duration(duration_days)?;
    let unit_rate = calculate_unit_rate(duration_days, asset_rates)?;
    Ok(RateMatrixResult { rate_basis: tier.rate_basis, unit_rate, tier })
}

/// The checks and lookup behind a line total (`quantity` x unit rate): the
/// quantity must be one or more, then the duration must be valid. On success
/// the rate-matrix result whose `unit_rate` the quantity multiplies.
pub fn line_item_rate<R: Copy>(quantity: i64, duration_days: i64, asset_rates: &AssetRates<R>) -> (res: Result<RateMatrixResult<R>, String>)
    ensures
        match res {
            Ok(m) => {
                &&& quantity >= 1
                &&& duration_days >= 1
                &&& m.tier == tier_for(duration_days as int)
                &&& m.rate_basis == m.tier.rate_basis
                &&& m.unit_rate == rate_for(*asset_rates, m.rate_basis)
            },
            Err(e) => if quantity < 1 {
                e@ == quantity_error(quantity as int)
            } else {
                duration_days < 1 && e@ == duration_error(duration_days as int)
            },
        },
{
    if quantity < 1 {
        let n = decimal_string(quantity);
        let msg = String::from_str("Invalid quantity: ").concat(n.as_str()).concat(
            ". Quantity must be a positive integer (1 or more).",
        );
        return Err(msg);
    }
    calculate_rate_matrix(duration_days, asset_rates)
}

/// Every duration of one day or more lies in exactly one canonical tier, and
/// that tier is `tier_for(days)`; the tiers follow each other without a gap.
pub proof fn lemma_tiers_partition(days: int)
    requires
        days >= 1,
    ensures
        tier_covers(tier_for(days), days),
        canonical_tiers().contains(tier_for(days)),
        forall|i: int| 0 <= i < 3 && tier_covers(#[trigger] canonical_tiers()[i], days)
            ==> canonical_tiers()[i] == tier_for(days),
        canonical_tiers()[0].max_days.unwrap() + 1 == canonical_tiers()[1].min_days,
        canonical_tiers()[1].max_days.unwrap() + 1 == canonical_tiers()[2].min_days,
        canonical_tiers()[0].max_days is Some,
        canonical_tiers()[1].max_days is Some,
        canonical_tiers()[2].max_days is None,
{
    assert(canonical_tiers()[0] == daily_tier());
    assert(canonical_tiers()[1] == weekly_tier());
    assert(canonical_tiers()[2] == monthly_tier());
    if days <= 6 {
        assert(canonical_tiers()[0] == tier_for(days));
    } else if days <= 25 {
        assert(canonical_tiers()[1] == tier_for(days));
    } else {
        assert(canonical_tiers()[2] == tier_for(days));
    }
}

/// A longer rental never falls in an earlier tier.
pub proof fn lemma_tier_monotone(d1: int, d2: int)
    requires
        1 <= d1 <= d2,
    ensures
        basis_rank(tier_for(d1).rate_basis) <= basis_rank(tier_for(d2).rate_basis),
{
}

} // verus!
