//! Selling tickets: tiers and their prices, minting within a tier's
//! supply, purchases and refunds.
//!
//! Prices are whole numbers of the payment token's smallest unit. Every
//! step of a price computation is checked: a price that does not fit the
//! number type is reported, never wrapped.

use vstd::prelude::*;
use crate::contract::SoulboundTicketContract;

verus! {

/// What divides basis points into a fraction: 10000 basis points are 1.
pub const BASIS_POINTS: i128 = 10000;

/// By how much the price rises for each threshold of demand passed.
pub const PRICE_INCREASE_BPS: i128 = 500;

/// The discount on tickets bought before the early-bird deadline.
pub const EARLY_BIRD_DISCOUNT_BPS: i128 = 1000;

/// The markup of the second test pricing.
pub const AB_TEST_B_MARKUP_BPS: i128 = 2000;

/// The oracle multiplier that leaves a price as it is.
pub const ORACLE_PRECISION: i128 = 10000;

/// How long before the event the early-bird discount ends: one week.
pub const EARLY_BIRD_LEAD_SECONDS: u64 = 604800;

/// How often prices are refreshed unless configured otherwise.
pub const DEFAULT_UPDATE_FREQUENCY: u64 = 3600;

/// One unit of price as the oracle counts it: eight decimal places.
pub const ORACLE_DECIMALS: i128 = 100000000;

/// How old an oracle price may be unless configured otherwise.
pub const DEFAULT_STALENESS_SECONDS: u64 = 3600;

/// How the price of a tier moves.
#[derive(Clone, Copy, Debug, PartialEq, Eq, Structural)]
pub enum PricingStrategy {
    /// Rises with demand, by 5% per threshold.
    Standard,
    /// Discounted until a week before the event.
    TimeDecay,
    /// Rises with demand twice as fast.
    AbTestA,
    /// Starts 20% higher.
    AbTestB,
}

/// A class of tickets.
#[derive(Clone, Copy, Debug, PartialEq, Eq, Structural)]
pub struct Tier {
    /// The price before any adjustment.
    pub base_price: i128,
    /// The price of the last sale.
    pub current_price: i128,
    /// How many tickets the tier may have.
    pub max_supply: u32,
    /// How many it has.
    pub minted: u32,
    /// Whether tickets are on sale.
    pub active: bool,
    /// How the price moves.
    pub strategy: PricingStrategy,
}

/// The settings of pricing.
#[derive(Clone, Copy, Debug, PartialEq, Eq, Structural)]
pub struct PricingConfig {
    /// No price is lower.
    pub price_floor: i128,
    /// No price is higher.
    pub price_ceiling: i128,
    /// Seconds between price refreshes.
    pub update_frequency: u64,
    /// When a price was last recorded.
    pub last_update_time: u64,
    /// While frozen, every tier sells at the price of its last sale.
    pub is_frozen: bool,
    /// The oracle price that counts as a multiplier of one.
    pub oracle_reference_price: i128,
    /// How old an oracle price may be.
    pub max_oracle_age_seconds: u64,
}

/// When the event starts and until when tickets are refunded.
#[derive(Clone, Copy, Debug, PartialEq, Eq, Structural)]
pub struct EventInfo {
    pub start_time: u64,
    pub refund_cutoff_time: u64,
}

/// A ticket as it was sold.
#[derive(Clone, Copy, Debug, PartialEq, Eq, Structural)]
pub struct Ticket {
    /// When it was sold.
    pub purchase_time: u64,
    /// What was paid for it.
    pub price_paid: i128,
    /// Whether it still admits its holder.
    pub is_valid: bool,
}

/// Why a sale, a mint or a refund was turned down.
#[derive(Clone, Copy, Debug, PartialEq, Eq, Structural)]
pub enum TicketError {
    /// The contract was set up before.
    AlreadyInitialized,
    /// The tier exists already.
    TierAlreadyExists,
    /// The mint would take the tier beyond its supply.
    ExceedsMaxSupply,
    /// The tier is not on sale.
    TierNotActive,
    /// The tier has no tickets left.
    SoldOut,
    /// The price does not fit the number type.
    PriceOverflow,
    /// The refund was asked for by somebody else than the owner.
    NotOwner,
    /// The refund window has closed.
    RefundWindowClosed,
    /// The ticket was refunded before.
    AlreadyInvalidated,
}

/// Whether a number fits the type of prices.
pub open spec fn fits(x: int) -> bool {
    i128::MIN <= x <= i128::MAX
}

/// `x` divided by a positive `d`, rounded toward zero.
pub open spec fn toward_zero(x: int, d: int) -> int {
    if x >= 0 {
        x / d
    } else {
        -((-x) / d)
    }
}

/// How many tickets make one threshold of demand: a fifth of the supply,
/// and at least one.
pub open spec fn demand_step(max_supply: u32) -> int {
    let supply: int = if max_supply == 0 {
        1
    } else {
        max_supply as int
    };
    if supply / 5 == 0 {
        1
    } else {
        supply / 5
    }
}

/// How many thresholds of demand a tier has passed.
pub open spec fn thresholds_passed(tier: Tier) -> int {
    tier.minted as int / demand_step(tier.max_supply)
}

/// `count` times `bps` basis points of `price`, multiplied out first and
/// divided last; nothing where a product does not fit.
pub open spec fn share_of(price: int, bps: int, count: int) -> Option<int> {
    if fits(price * bps) && fits(price * bps * count) {
        Some(toward_zero(price * bps * count, BASIS_POINTS as int))
    } else {
        None
    }
}

/// The last moment of the early-bird discount: a week before the event.
pub open spec fn early_bird_deadline(event_info: EventInfo) -> int {
    if event_info.start_time >= EARLY_BIRD_LEAD_SECONDS {
        event_info.start_time - EARLY_BIRD_LEAD_SECONDS
    } else {
        0
    }
}

/// `price` with `part` added, where both exist and the sum fits.
pub open spec fn raised(price: int, part: Option<int>) -> Option<int> {
    match part {
        Some(more) => if fits(price + more) {
            Some(price + more)
        } else {
            None
        },
        None => None,
    }
}

/// `price` with `part` taken off, where both exist and the difference
/// fits.
pub open spec fn lowered(price: int, part: Option<int>) -> Option<int> {
    match part {
        Some(less) => if fits(price - less) {
            Some(price - less)
        } else {
            None
        },
        None => None,
    }
}

/// The price of a tier after its own strategy: the base price, raised by
/// 5% (or 10%) for each threshold of demand passed, lowered by 10% before
/// the early-bird deadline, or raised by 20%.
pub open spec fn strategy_price(tier: Tier, event_info: EventInfo, now: u64) -> Option<int> {
    let base = tier.base_price as int;
    match tier.strategy {
        PricingStrategy::Standard => raised(
            base,
            share_of(base, PRICE_INCREASE_BPS as int, thresholds_passed(tier)),
        ),
        PricingStrategy::TimeDecay => if now < early_bird_deadline(event_info) {
            lowered(base, share_of(base, EARLY_BIRD_DISCOUNT_BPS as int, 1))
        } else {
            Some(base)
        },
        PricingStrategy::AbTestA => raised(
            base,
            share_of(base, 2 * PRICE_INCREASE_BPS, thresholds_passed(tier)),
        ),
        PricingStrategy::AbTestB => raised(base, share_of(base, AB_TEST_B_MARKUP_BPS as int, 1)),
    }
}

/// A price held between floor and ceiling; the ceiling wins where the two
/// cross.
pub open spec fn bounded(price: int, config: PricingConfig) -> int {
    let lifted = if price < config.price_floor {
        config.price_floor as int
    } else {
        price
    };
    if lifted > config.price_ceiling {
        config.price_ceiling as int
    } else {
        lifted
    }
}

/// The price at which a tier sells: the price of its last sale while
/// pricing is frozen; otherwise the price after its strategy, times the
/// oracle multiplier, held between floor and ceiling. Nothing where a step
/// does not fit.
pub open spec fn quoted_price(
    tier: Tier,
    config: PricingConfig,
    event_info: EventInfo,
    now: u64,
    oracle_multiplier: i128,
) -> Option<int> {
    if config.is_frozen {
        Some(tier.current_price as int)
    } else {
        match strategy_price(tier, event_info, now) {
            Some(price) => if fits(price * oracle_multiplier) {
                Some(
                    bounded(
                        toward_zero(price * oracle_multiplier, ORACLE_PRECISION as int),
                        config,
                    ),
                )
            } else {
                None
            },
            None => None,
        }
    }
}

/// The oracle's multiplier on prices, in basis points: the fetched price
/// against the reference price. It is neutral where no price was fetched
/// or the reference is not positive, and nothing where it does not fit.
pub open spec fn oracle_multiplier_of(
    config: PricingConfig,
    fetched_price: Option<i128>,
) -> Option<int> {
    match fetched_price {
        Some(price) => if config.oracle_reference_price <= 0 {
            Some(ORACLE_PRECISION as int)
        } else if fits(price * ORACLE_PRECISION) {
            Some(toward_zero(price * ORACLE_PRECISION, config.oracle_reference_price as int))
        } else {
            None
        },
        None => Some(ORACLE_PRECISION as int),
    }
}

/// The settings that pricing starts with at `now`.
pub open spec fn default_pricing_config(now: u64) -> PricingConfig {
    PricingConfig {
        price_floor: 0,
        price_ceiling: i128::MAX,
        update_frequency: DEFAULT_UPDATE_FREQUENCY,
        last_update_time: now,
        is_frozen: false,
        oracle_reference_price: ORACLE_DECIMALS,
        max_oracle_age_seconds: DEFAULT_STALENESS_SECONDS,
    }
}

/// A tier as it is added: nothing minted, on sale, selling at its base
/// price.
pub open spec fn new_tier(base_price: i128, max_supply: u32, strategy: PricingStrategy) -> Tier {
    Tier { base_price, current_price: base_price, max_supply, minted: 0, active: true, strategy }
}

/// A price as a result: the price where there is one, an overflow where
/// there is none.
pub open spec fn price_outcome(price: Option<int>) -> Result<i128, TicketError> {
    match price {
        Some(value) => Ok(value as i128),
        None => Err(TicketError::PriceOverflow),
    }
}

/// `price * bps * count / 10000`, each step checked.
fn share(price: i128, bps: i128, count: i128) -> (part: Option<i128>)
    ensures
        part is Some <==> share_of(price as int, bps as int, count as int) is Some,
        part is Some ==> part->Some_0 == share_of(price as int, bps as int, count as int)->Some_0,
{
    match price.checked_mul(bps) {
        Some(scaled) => match scaled.checked_mul(count) {
            Some(product) => {
                let part = product.checked_div(BASIS_POINTS);
                assert(part is Some) by {
                    let quotient = toward_zero(product as int, BASIS_POINTS as int);
                    assert(-(product as int) <= i128::MAX + 1);
                    assert(fits(quotient));
                }
                part
            },
            None => None,
        },
        None => None,
    }
}

impl SoulboundTicketContract {
    /// Sets up the sale of tickets for an event, once.
    pub fn initialize(
        already_initialized: bool,
        now: u64,
        start_time: u64,
        refund_cutoff_time: u64,
    ) -> (outcome: Result<(EventInfo, PricingConfig), TicketError>)
        ensures
            already_initialized ==> outcome == Err::<(EventInfo, PricingConfig), TicketError>(
                TicketError::AlreadyInitialized,
            ),
            !already_initialized ==> outcome == Ok::<(EventInfo, PricingConfig), TicketError>(
                (EventInfo { start_time, refund_cutoff_time }, default_pricing_config(now)),
            ),
    {
        if already_initialized {
            return Err(TicketError::AlreadyInitialized);
        }
        let event_info = EventInfo { start_time, refund_cutoff_time };
        let config = PricingConfig {
            price_floor: 0,
            price_ceiling: i128::MAX,
            update_frequency: DEFAULT_UPDATE_FREQUENCY,
            last_update_time: now,
            is_frozen: false,
            oracle_reference_price: ORACLE_DECIMALS,
            max_oracle_age_seconds: DEFAULT_STALENESS_SECONDS,
        };
        Ok((event_info, config))
    }

    /// Sets the oracle price that counts as a multiplier of one.
    pub fn update_oracle_reference(config: &mut PricingConfig, new_reference_price: i128)
        ensures
            *final(config) == (PricingConfig {
                oracle_reference_price: new_reference_price,
                ..*old(config)
            }),
    {
        config.oracle_reference_price = new_reference_price;
    }

    /// Freezes prices, or lets them move again.
    pub fn emergency_freeze(config: &mut PricingConfig, freeze: bool)
        ensures
            *final(config) == (PricingConfig { is_frozen: freeze, ..*old(config) }),
    {
        config.is_frozen = freeze;
    }

    /// Adds a tier, unless it exists.
    pub fn add_tier(
        already_exists: bool,
        base_price: i128,
        max_supply: u32,
        strategy: PricingStrategy,
    ) -> (outcome: Result<Tier, TicketError>)
        ensures
            already_exists ==> outcome == Err::<Tier, TicketError>(TicketError::TierAlreadyExists),
            !already_exists ==> outcome == Ok::<Tier, TicketError>(
                new_tier(base_price, max_supply, strategy),
            ),
    {
        if already_exists {
            return Err(TicketError::TierAlreadyExists);
        }
        Ok(
            Tier {
                base_price,
                current_price: base_price,
                max_supply,
                minted: 0,
                active: true,
                strategy,
            },
        )
    }

    /// Turns a fetched market price into the multiplier on ticket prices.
    /// Without a fetched price the multiplier is neutral.
    pub fn fetch_oracle_multiplier(
        config: &PricingConfig,
        fetched_price: Option<i128>,
    ) -> (outcome: Result<i128, TicketError>)
        ensures
            outcome == price_outcome(oracle_multiplier_of(*config, fetched_price)),
    {
        match fetched_price {
            None => Ok(ORACLE_PRECISION),
            Some(price) => {
                if config.oracle_reference_price <= 0 {
                    return Ok(ORACLE_PRECISION);
                }
                match price.checked_mul(ORACLE_PRECISION) {
                    None => Err(TicketError::PriceOverflow),
                    Some(scaled) => {
                        let multiplier = scaled.checked_div(config.oracle_reference_price);
                        assert(multiplier is Some && multiplier->Some_0 == toward_zero(
                            scaled as int,
                            config.oracle_reference_price as int,
                        )) by {
                            Self::lemma_quotient_fits(
                                scaled as int,
                                config.oracle_reference_price as int,
                            );
                        }
                        match multiplier {
                            Some(value) => Ok(value),
                            None => Err(TicketError::PriceOverflow),
                        }
                    },
                }
            },
        }
    }

    /// The price at which a tier sells at `now`.
    pub fn get_ticket_price(
        tier: &Tier,
        config: &PricingConfig,
        event_info: &EventInfo,
        now: u64,
        oracle_multiplier: i128,
    ) -> (outcome: Result<i128, TicketError>)
        ensures
            outcome == price_outcome(
                quoted_price(*tier, *config, *event_info, now, oracle_multiplier),
            ),
    {
        if config.is_frozen {
            return Ok(tier.current_price);
        }
        let base: i128 = tier.base_price;
        let adjusted: Option<i128> = match tier.strategy {
            PricingStrategy::Standard => {
                match share(base, PRICE_INCREASE_BPS, Self::thresholds(tier)) {
                    Some(increase) => base.checked_add(increase),
                    None => None,
                }
            },
            PricingStrategy::TimeDecay => {
                let deadline: u64 = event_info.start_time.saturating_sub(EARLY_BIRD_LEAD_SECONDS);
                if now < deadline {
                    match share(base, EARLY_BIRD_DISCOUNT_BPS, 1) {
                        Some(discount) => base.checked_sub(discount),
                        None => None,
                    }
                } else {
                    Some(base)
                }
            },
            PricingStrategy::AbTestA => {
                match share(base, PRICE_INCREASE_BPS * 2, Self::thresholds(tier)) {
                    Some(increase) => base.checked_add(increase),
                    None => None,
                }
            },
            PricingStrategy::AbTestB => {
                match share(base, AB_TEST_B_MARKUP_BPS, 1) {
                    Some(markup) => base.checked_add(markup),
                    None => None,
                }
            },
        };
        match adjusted {
            None => Err(TicketError::PriceOverflow),
            Some(price) => match price.checked_mul(oracle_multiplier) {
                None => Err(TicketError::PriceOverflow),
                Some(scaled) => {
                    let quotient = scaled.checked_div(ORACLE_PRECISION);
                    assert(quotient is Some && quotient->Some_0 == toward_zero(
                        scaled as int,
                        ORACLE_PRECISION as int,
                    )) by {
                        Self::lemma_quotient_fits(scaled as int, ORACLE_PRECISION as int);
                    }
                    match quotient {
                        Some(value) => {
                            let lifted: i128 = if value < config.price_floor {
                                config.price_floor
                            } else {
                                value
                            };
                            if lifted > config.price_ceiling {
                                Ok(config.price_ceiling)
                            } else {
                                Ok(lifted)
                            }
                        },
                        None => Err(TicketError::PriceOverflow),
                    }
                },
            },
        }
    }

    /// Mints `amount` tickets of a tier, unless that takes the tier beyond
    /// its supply.
    pub fn batch_mint(tier: &mut Tier, amount: u32) -> (outcome: Result<(), TicketError>)
        ensures
            outcome is Ok <==> old(tier).minted + amount <= old(tier).max_supply,
            outcome is Err ==> outcome == Err::<(), TicketError>(TicketError::ExceedsMaxSupply)
                && *final(tier) == *old(tier),
            outcome is Ok ==> *final(tier) == (Tier {
                minted: (old(tier).minted + amount) as u32,
                ..*old(tier)
            }),
    {
        if amount > tier.max_supply || tier.minted > tier.max_supply - amount {
            return Err(TicketError::ExceedsMaxSupply);
        }
        tier.minted = tier.minted + amount;
        Ok(())
    }

    /// Sells one ticket of a tier at `now`: quotes the price, counts the
    /// ticket and records the price as the tier's current one. Returns the
    /// ticket, which carries the price to charge.
    pub fn purchase(
        tier: &mut Tier,
        config: &mut PricingConfig,
        event_info: &EventInfo,
        now: u64,
        oracle_multiplier: i128,
    ) -> (outcome: Result<Ticket, TicketError>)
        ensures
            outcome == Err::<Ticket, TicketError>(TicketError::TierNotActive) <==> !old(
                tier,
            ).active,
            outcome == Err::<Ticket, TicketError>(TicketError::SoldOut) <==> old(tier).active
                && old(tier).minted >= old(tier).max_supply,
            outcome == Err::<Ticket, TicketError>(TicketError::PriceOverflow) <==> old(
                tier,
            ).active && old(tier).minted < old(tier).max_supply && quoted_price(
                *old(tier),
                *old(config),
                *event_info,
                now,
                oracle_multiplier,
            ) is None,
            outcome is Ok <==> old(tier).active && old(tier).minted < old(tier).max_supply
                && quoted_price(
                *old(tier),
                *old(config),
                *event_info,
                now,
                oracle_multiplier,
            ) is Some,
            outcome is Ok ==> {
                let price = quoted_price(
                    *old(tier),
                    *old(config),
                    *event_info,
                    now,
                    oracle_multiplier,
                )->Some_0 as i128;
                &&& outcome->Ok_0 == (Ticket {
                    purchase_time: now,
                    price_paid: price,
                    is_valid: true,
                })
                &&& *final(tier) == (Tier {
                    minted: (old(tier).minted + 1) as u32,
                    current_price: price,
                    ..*old(tier)
                })
                &&& *final(config) == (PricingConfig { last_update_time: now, ..*old(config) })
            },
            outcome is Err ==> *final(tier) == *old(tier) && *final(config) == *old(config),
    {
        if !tier.active {
            return Err(TicketError::TierNotActive);
        }
        if tier.minted >= tier.max_supply {
            return Err(TicketError::SoldOut);
        }
        let quote = Self::get_ticket_price(tier, config, event_info, now, oracle_multiplier);
        match quote {
            Err(_) => Err(TicketError::PriceOverflow),
            Ok(price) => {
                tier.minted = tier.minted + 1;
                tier.current_price = price;
                config.last_update_time = now;
                Ok(Ticket { purchase_time: now, price_paid: price, is_valid: true })
            },
        }
    }

    /// Refunds a ticket to its owner while the refund window is open.
    /// Returns what is paid back, and the ticket stops being valid.
    pub fn refund(
        ticket: &mut Ticket,
        event_info: &EventInfo,
        now: u64,
        is_owner: bool,
    ) -> (outcome: Result<i128, TicketError>)
        ensures
            outcome == Err::<i128, TicketError>(TicketError::NotOwner) <==> !is_owner,
            outcome == Err::<i128, TicketError>(TicketError::RefundWindowClosed) <==> is_owner
                && now > event_info.refund_cutoff_time,
            outcome == Err::<i128, TicketError>(TicketError::AlreadyInvalidated) <==> is_owner
                && now <= event_info.refund_cutoff_time && !old(ticket).is_valid,
            outcome is Ok <==> is_owner && now <= event_info.refund_cutoff_time && old(
                ticket,
            ).is_valid,
            outcome is Ok ==> outcome->Ok_0 == old(ticket).price_paid && *final(ticket) == (Ticket {
                is_valid: false,
                ..*old(ticket)
            }),
            outcome is Err ==> *final(ticket) == *old(ticket),
    {
        if !is_owner {
            return Err(TicketError::NotOwner);
        }
        if now > event_info.refund_cutoff_time {
            return Err(TicketError::RefundWindowClosed);
        }
        if !ticket.is_valid {
            return Err(TicketError::AlreadyInvalidated);
        }
        ticket.is_valid = false;
        Ok(ticket.price_paid)
    }

    /// Whether there is a ticket and it is still valid.
    pub fn validate_ticket(ticket: &Option<Ticket>) -> (valid: bool)
        ensures
            valid == (ticket is Some && ticket->Some_0.is_valid),
    {
        match ticket {
            Some(found) => found.is_valid,
            None => false,
        }
    }

    /// How many thresholds of demand a tier has passed.
    fn thresholds(tier: &Tier) -> (passed: i128)
        ensures
            passed == thresholds_passed(*tier),
    {
        let supply: u32 = if tier.max_supply == 0 {
            1
        } else {
            tier.max_supply
        };
        let fifth: u32 = supply / 5;
        let step: u32 = if fifth == 0 {
            1
        } else {
            fifth
        };
        (tier.minted / step) as i128
    }

    /// A number that fits, divided by a positive one and rounded toward
    /// zero, fits.
    proof fn lemma_quotient_fits(x: int, d: int)
        requires
            fits(x),
            d > 0,
        ensures
            fits(toward_zero(x, d)),
    {
        if x >= 0 {
            assert(0 <= x / d <= x) by (nonlinear_arith)
                requires
                    x >= 0,
                    d > 0,
            ;
        } else {
            assert(0 <= (-x) / d <= -x) by (nonlinear_arith)
                requires
                    -x >= 0,
                    d > 0,
            ;
        }
    }
}

} // verus!
