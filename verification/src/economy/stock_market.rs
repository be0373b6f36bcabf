//! The stock market app: six stocks with random prices, and the player's portfolio.
//!
//! Prices are in cents, volatility and trend bias in basis points (1/10000),
//! times in milliseconds.
use vstd::prelude::*;
use std::collections::VecDeque;
use crate::economy::wallet::{PlayerWallet, can_spend, spend_post, add_cash_post};
use crate::random::random_in;

verus! {

/// Highest price a stock can hold, in cents: the largest value of the
/// price's type, where a rising price saturates.
pub const MAX_PRICE: i64 = 9_223_372_036_854_775_807;
/// Lowest price a stock can fall to, in cents ($1).
pub const MIN_PRICE: i64 = 100;
/// How many prices the history keeps.
pub const HISTORY_LEN: usize = 20;
/// Time between price updates, in milliseconds.
pub const PRICE_UPDATE_INTERVAL: i64 = 30_000;

/// A listed company.
#[derive(Clone, Copy, Debug, PartialEq, Eq, Structural)]
pub enum StockSymbol {
    TSMC,
    PineAir,
    BobaGroup,
    NightMarketKing,
    DragonBuild,
    BearEnergy,
}

/// Position of a symbol in the market's list.
pub open spec fn symbol_index(s: StockSymbol) -> int {
    match s {
        StockSymbol::TSMC => 0,
        StockSymbol::PineAir => 1,
        StockSymbol::BobaGroup => 2,
        StockSymbol::NightMarketKing => 3,
        StockSymbol::DragonBuild => 4,
        StockSymbol::BearEnergy => 5,
    }
}

/// The symbol at a position of the market's list.
pub open spec fn symbol_at(i: int) -> StockSymbol {
    if i == 0 {
        StockSymbol::TSMC
    } else if i == 1 {
        StockSymbol::PineAir
    } else if i == 2 {
        StockSymbol::BobaGroup
    } else if i == 3 {
        StockSymbol::NightMarketKing
    } else if i == 4 {
        StockSymbol::DragonBuild
    } else {
        StockSymbol::BearEnergy
    }
}

/// Listing price, in cents.
pub open spec fn spec_initial_price(s: StockSymbol) -> int {
    match s {
        StockSymbol::TSMC => 50000,
        StockSymbol::PineAir => 12000,
        StockSymbol::BobaGroup => 8500,
        StockSymbol::NightMarketKing => 4500,
        StockSymbol::DragonBuild => 20000,
        StockSymbol::BearEnergy => 15000,
    }
}

/// Largest move per second of update, in basis points.
pub open spec fn spec_volatility(s: StockSymbol) -> int {
    match s {
        StockSymbol::TSMC => 300,
        StockSymbol::PineAir => 600,
        StockSymbol::BobaGroup => 400,
        StockSymbol::NightMarketKing => 800,
        StockSymbol::DragonBuild => 500,
        StockSymbol::BearEnergy => 700,
    }
}

pub open spec fn symbol_label(s: StockSymbol) -> Seq<char> {
    match s {
        StockSymbol::TSMC => "台積電科技"@,
        StockSymbol::PineAir => "鳳梨航空"@,
        StockSymbol::BobaGroup => "珍奶集團"@,
        StockSymbol::NightMarketKing => "夜市王國"@,
        StockSymbol::DragonBuild => "龍山建設"@,
        StockSymbol::BearEnergy => "黑熊能源"@,
    }
}

pub open spec fn symbol_ticker(s: StockSymbol) -> Seq<char> {
    match s {
        StockSymbol::TSMC => "TSMC"@,
        StockSymbol::PineAir => "PAIR"@,
        StockSymbol::BobaGroup => "BOBA"@,
        StockSymbol::NightMarketKing => "NMKT"@,
        StockSymbol::DragonBuild => "DRGN"@,
        StockSymbol::BearEnergy => "BEAR"@,
    }
}

impl StockSymbol {
    /// All six symbols in market order.
    pub fn all() -> (a: [StockSymbol; 6])
        ensures
            forall|i: int| 0 <= i < 6 ==> #[trigger] a@[i] == symbol_at(i),
    {
        [
            StockSymbol::TSMC,
            StockSymbol::PineAir,
            StockSymbol::BobaGroup,
            StockSymbol::NightMarketKing,
            StockSymbol::DragonBuild,
            StockSymbol::BearEnergy,
        ]
    }

    /// Position in the market's list.
    pub fn index(&self) -> (i: usize)
        ensures
            i == symbol_index(*self),
    {
        match self {
            StockSymbol::TSMC => 0,
            StockSymbol::PineAir => 1,
            StockSymbol::BobaGroup => 2,
            StockSymbol::NightMarketKing => 3,
            StockSymbol::DragonBuild => 4,
            StockSymbol::BearEnergy => 5,
        }
    }

    fn at(i: usize) -> (s: StockSymbol)
        requires
            i < 6,
        ensures
            s == symbol_at(i as int),
    {
        if i == 0 {
            StockSymbol::TSMC
        } else if i == 1 {
            StockSymbol::PineAir
        } else if i == 2 {
            StockSymbol::BobaGroup
        } else if i == 3 {
            StockSymbol::NightMarketKing
        } else if i == 4 {
            StockSymbol::DragonBuild
        } else {
            StockSymbol::BearEnergy
        }
    }

    /// Company name.
    pub fn label(&self) -> (s: &'static str)
        ensures
            s@ == symbol_label(*self),
    {
        match self {
            StockSymbol::TSMC => "台積電科技",
            StockSymbol::PineAir => "鳳梨航空",
            StockSymbol::BobaGroup => "珍奶集團",
            StockSymbol::NightMarketKing => "夜市王國",
            StockSymbol::DragonBuild => "龍山建設",
            StockSymbol::BearEnergy => "黑熊能源",
        }
    }

    /// Ticker.
    pub fn ticker(&self) -> (s: &'static str)
        ensures
            s@ == symbol_ticker(*self),
    {
        match self {
            StockSymbol::TSMC => "TSMC",
            StockSymbol::PineAir => "PAIR",
            StockSymbol::BobaGroup => "BOBA",
            StockSymbol::NightMarketKing => "NMKT",
            StockSymbol::DragonBuild => "DRGN",
            StockSymbol::BearEnergy => "BEAR",
        }
    }

    /// Listing price, in cents.
    pub fn initial_price(&self) -> (p: i64)
        ensures
            p == spec_initial_price(*self),
    {
        match self {
            StockSymbol::TSMC => 50000,
            StockSymbol::PineAir => 12000,
            StockSymbol::BobaGroup => 8500,
            StockSymbol::NightMarketKing => 4500,
            StockSymbol::DragonBuild => 20000,
            StockSymbol::BearEnergy => 15000,
        }
    }

    /// Volatility, in basis points per second.
    pub fn volatility(&self) -> (v: i64)
        ensures
            v == spec_volatility(*self),
    {
        match self {
            StockSymbol::TSMC => 300,
            StockSymbol::PineAir => 600,
            StockSymbol::BobaGroup => 400,
            StockSymbol::NightMarketKing => 800,
            StockSymbol::DragonBuild => 500,
            StockSymbol::BearEnergy => 700,
        }
    }
}

/// One stock.
#[derive(Clone, Debug)]
pub struct Stock {
    pub symbol: StockSymbol,
    /// Current price, in cents.
    pub price: i64,
    /// Price before the last update.
    pub previous_price: i64,
    /// The latest prices, oldest first (for the sparkline).
    pub price_history: VecDeque<i64>,
    /// Trend pushed by mission events, in basis points per second.
    pub trend_bias: i64,
    /// Time the trend still lasts.
    pub trend_duration: i64,
}

/// `a / b` rounded toward zero, for positive `b`.
pub open spec fn div_toward_zero(a: int, b: int) -> int {
    if a >= 0 { a / b } else { -((-a) / b) }
}

/// The price move of one update of `dt` milliseconds, rounded toward zero:
/// the random move (`roll` in basis points, -10000..10000, times the
/// volatility), the trend while it lasts (basis points per second), and a
/// pull back toward the listing price of 1% of the relative deviation per
/// second. The three rates are added over the common denominator
/// `100_000_000_000 * initial` before the one rounding.
pub open spec fn price_change(s: StockSymbol, price: int, roll: int, trend: int, dt: int) -> int {
    let initial = spec_initial_price(s);
    div_toward_zero(
        price * dt * move_rate(s, price, roll, trend),
        100_000_000_000 * initial,
    )
}

/// The combined rate of move of a price, over `100_000_000_000 * initial`
/// per millisecond and cent of price.
pub open spec fn move_rate(s: StockSymbol, price: int, roll: int, trend: int) -> int {
    let initial = spec_initial_price(s);
    roll * spec_volatility(s) * initial + trend * 10_000 * initial - (price - initial) * 1_000_000
}

/// The trend in force for the next update.
pub open spec fn active_trend(s: Stock) -> int {
    if s.trend_duration > 0 { s.trend_bias as int } else { 0 }
}

/// The price after an update of `dt` with random `roll`.
pub open spec fn tick_result(s: Stock, roll: int, dt: int) -> int {
    clamp_price(s.price + price_change(s.symbol, s.price as int, roll, active_trend(s), dt))
}

/// `new` is `old` after one price update of `dt` milliseconds: the random move
/// (for some roll), the trend (which runs out after its duration) and the pull
/// toward the listing price; the price stays between $1 and the highest price;
/// the history records the new price.
pub open spec fn ticked(old: Stock, new: Stock, dt: int) -> bool {
    &&& new.symbol == old.symbol
    &&& new.previous_price == old.price
    &&& MIN_PRICE <= new.price <= MAX_PRICE
    &&& exists|roll: int| -10000 <= roll < 10000 && new.price == #[trigger] tick_result(old, roll, dt)
    &&& old.trend_duration > 0 ==> new.trend_duration == saturate_i64(old.trend_duration - dt)
    &&& old.trend_duration <= 0 ==> new.trend_duration == old.trend_duration
    &&& new.trend_bias == if old.trend_duration > 0 && old.trend_duration - dt <= 0 {
        0
    } else {
        old.trend_bias
    }
    &&& new.price_history@ == record(old.price_history@, new.price)
}

/// `x` kept within the range of `i64`.
pub open spec fn saturate_i64(x: int) -> int {
    if x < i64::MIN { i64::MIN as int } else if x > i64::MAX { i64::MAX as int } else { x }
}

/// `p` kept between the lowest and the highest price.
pub open spec fn clamp_price(p: int) -> int {
    if p < MIN_PRICE { MIN_PRICE as int } else if p > MAX_PRICE { MAX_PRICE as int } else { p }
}

/// The history after recording `p`: appended, and the oldest dropped beyond twenty.
pub open spec fn record(h: Seq<i64>, p: i64) -> Seq<i64> {
    if h.len() + 1 > HISTORY_LEN { h.push(p).drop_first() } else { h.push(p) }
}

/// A numerator of magnitude at least 2^127 over a denominator of at most
/// 10^16, rounded toward zero, is more than 2^64 away from zero.
proof fn lemma_far_above(a: int, l: int)
    requires
        a > i128::MAX,
        0 < l <= 10_000_000_000_000_000,
    ensures
        div_toward_zero(a, l) > 0x1_0000_0000_0000_0000,
{
    assert(a / l > 0x1_0000_0000_0000_0000) by (nonlinear_arith)
        requires
            a > i128::MAX,
            0 < l <= 10_000_000_000_000_000,
    {
        assert((a / l) * l + a % l == a);
        assert(0 <= a % l < l);
        assert((a / l) * l > a - l);
        assert((a / l) * 10_000_000_000_000_000 >= (a / l) * l);
    }
}

/// The mirror image of `lemma_far_above`.
proof fn lemma_far_below(a: int, l: int)
    requires
        a <= i128::MIN,
        0 < l <= 10_000_000_000_000_000,
    ensures
        div_toward_zero(a, l) < -0x1_0000_0000_0000_0000,
{
    lemma_far_above(-a, l);
}

/// A quotient over a denominator of at least 4.5 * 10^14 of an `i128`
/// numerator is small enough to add to an `i64`.
proof fn lemma_quotient_bound(a: int, l: int)
    requires
        i128::MIN < a <= i128::MAX,
        450_000_000_000_000 <= l,
    ensures
        -0x1_0000_0000_0000_0000_0000_0000 <= div_toward_zero(a, l) <= 0x1_0000_0000_0000_0000_0000_0000,
{
    if a >= 0 {
        assert(a / l <= 0x1_0000_0000_0000_0000_0000_0000) by (nonlinear_arith)
            requires
                0 <= a <= i128::MAX,
                450_000_000_000_000 <= l,
        {
            assert((a / l) * l <= a);
            assert((a / l) * 450_000_000_000_000 <= (a / l) * l);
        }
    } else {
        assert((-a) / l <= 0x1_0000_0000_0000_0000_0000_0000) by (nonlinear_arith)
            requires
                0 < -a <= i128::MAX,
                450_000_000_000_000 <= l,
        {
            assert(((-a) / l) * l <= -a);
            assert(((-a) / l) * 450_000_000_000_000 <= ((-a) / l) * l);
        }
    }
}

fn div_zero(a: i128, b: i128) -> (q: i128)
    requires
        b > 0,
        a > i128::MIN,
    ensures
        q == div_toward_zero(a as int, b as int),
{
    if a >= 0 {
        a / b
    } else {
        -((-a) / b)
    }
}

impl Stock {
    /// A stock at its listing price with no trend.
    pub fn new(symbol: StockSymbol) -> (s: Stock)
        ensures
            s.symbol == symbol,
            s.price == spec_initial_price(symbol),
            s.previous_price == s.price,
            s.price_history@ == seq![s.price],
            s.trend_bias == 0,
            s.trend_duration == 0,
    {
        let price = symbol.initial_price();
        let mut price_history = VecDeque::new();
        price_history.push_back(price);
        Stock { symbol, price, previous_price: price, price_history, trend_bias: 0, trend_duration: 0 }
    }

    /// Last move in hundredths of a percent, rounded toward zero (0 when the
    /// previous price is 0).
    pub fn change_percent(&self) -> (c: i128)
        ensures
            self.previous_price == 0 ==> c == 0,
            self.previous_price > 0 ==> c == div_toward_zero(
                (self.price - self.previous_price) * 10000,
                self.previous_price as int,
            ),
            self.previous_price < 0 ==> c == div_toward_zero(
                (self.previous_price - self.price) * 10000,
                -self.previous_price as int,
            ),
    {
        if self.previous_price == 0 {
            return 0;
        }
        let diff = (self.price as i128 - self.previous_price as i128) * 10000;
        if self.previous_price > 0 {
            div_zero(diff, self.previous_price as i128)
        } else {
            div_zero(-diff, -(self.previous_price as i128))
        }
    }

    /// Whether the price did not fall in the last update.
    pub fn is_up(&self) -> (b: bool)
        ensures
            b == (self.price >= self.previous_price),
    {
        self.price >= self.previous_price
    }

    /// One price update of `dt` milliseconds: random move, trend (which
    /// runs out after its duration) and pull toward the listing price; the
    /// price stays at $1 or more; the history records it.
    pub fn tick_price(&mut self, dt: i64)
        ensures
            ticked(*old(self), *final(self), dt as int),
    {
        self.previous_price = self.price;
        let roll = random_in(0, 19_999) as i128 - 10_000;
        let price = self.price as i128;
        let vol = self.symbol.volatility() as i128;
        let initial = self.symbol.initial_price() as i128;
        let d = dt as i128;
        let trend = if self.trend_duration > 0 { self.trend_bias as i128 } else { 0 };
        assert(-10000 * 800 * 50000 <= roll * vol * initial <= 10000 * 800 * 50000) by (nonlinear_arith)
            requires
                -10000 <= roll < 10000,
                0 <= vol <= 800,
                4500 <= initial <= 50000,
        ;
        assert(-0x8000_0000_0000_0000 * 10000 * 50000 <= trend * 10000 * initial <= 0x8000_0000_0000_0000 * 10000
            * 50000) by (nonlinear_arith)
            requires
                i64::MIN <= trend <= i64::MAX,
                4500 <= initial <= 50000,
        ;
        assert(-0x8000_0000_0000_0000 * 0x8000_0000_0000_0000 <= price * d <= 0x8000_0000_0000_0000
            * 0x8000_0000_0000_0000) by (nonlinear_arith)
            requires
                i64::MIN <= price <= i64::MAX,
                i64::MIN <= d <= i64::MAX,
        ;
        let rate = roll * vol * initial + trend * 10000 * initial - (price - initial) * 1_000_000;
        let p = price * d;
        let l = 100_000_000_000 * initial;
        assert(rate == move_rate(old(self).symbol, old(self).price as int, roll as int, active_trend(*old(self))));
        proof {
            assert(price * d * rate == p * rate);
        }
        let clamped: i64 = match p.checked_mul(rate) {
            Some(pr) => {
                if pr == i128::MIN {
                    proof {
                        lemma_far_below(pr as int, l as int);
                    }
                    MIN_PRICE
                } else {
                    let q = div_zero(pr, l);
                    proof {
                        lemma_quotient_bound(pr as int, l as int);
                    }
                    let next = price + q;
                    if next < MIN_PRICE as i128 {
                        MIN_PRICE
                    } else if next > MAX_PRICE as i128 {
                        MAX_PRICE
                    } else {
                        next as i64
                    }
                }
            },
            None => {
                if (p > 0 && rate > 0) || (p < 0 && rate < 0) {
                    proof {
                        assert(p * rate > 0) by (nonlinear_arith)
                            requires
                                (p > 0 && rate > 0) || (p < 0 && rate < 0),
                        ;
                        lemma_far_above((p * rate) as int, l as int);
                    }
                    MAX_PRICE
                } else {
                    proof {
                        assert(p * rate <= 0) by (nonlinear_arith)
                            requires
                                !((p > 0 && rate > 0) || (p < 0 && rate < 0)),
                        ;
                        lemma_far_below((p * rate) as int, l as int);
                    }
                    MIN_PRICE
                }
            },
        };
        assert(clamped == tick_result(*old(self), roll as int, dt as int));
        if self.trend_duration > 0 {
            let left = self.trend_duration as i128 - d;
            self.trend_duration = if left < i64::MIN as i128 {
                i64::MIN
            } else if left > i64::MAX as i128 {
                i64::MAX
            } else {
                left as i64
            };
            if left <= 0 {
                self.trend_bias = 0;
            }
        }
        self.price = clamped;
        let ghost h0 = self.price_history@;
        self.price_history.push_back(clamped);
        if self.price_history.len() > HISTORY_LEN {
            self.price_history.pop_front();
        }
        assert(self.price_history@ =~= record(h0, clamped));
    }

    /// Starts a trend (from a mission event).
    pub fn set_trend(&mut self, bias: i64, duration: i64)
        ensures
            final(self).trend_bias == bias,
            final(self).trend_duration == duration,
            final(self).symbol == old(self).symbol,
            final(self).price == old(self).price,
            final(self).previous_price == old(self).previous_price,
            final(self).price_history == old(self).price_history,
    {
        self.trend_bias = bias;
        self.trend_duration = duration;
    }
}

/// An update never takes a price below $1 or above the highest price, and the
/// history never grows past twenty prices.
pub proof fn price_stays_in_bounds(p: int, h: Seq<i64>, q: i64)
    requires
        h.len() <= HISTORY_LEN,
    ensures
        MIN_PRICE <= clamp_price(p) <= MAX_PRICE,
        record(h, q).len() <= HISTORY_LEN,
        record(h, q).last() == q,
{
}

/// The player's shares and average purchase prices (cents), by market position.
#[derive(Clone, Copy, Debug)]
pub struct StockPortfolio {
    /// Shares held of each stock.
    pub holdings: [(StockSymbol, u32); 6],
    /// Average price paid per share, in cents.
    pub avg_costs: [i64; 6],
}

/// Shares of `s` held.
pub open spec fn shares_held(p: StockPortfolio, s: StockSymbol) -> int {
    p.holdings@[symbol_index(s)].1 as int
}

/// Average cost of `s`.
pub open spec fn avg_cost(p: StockPortfolio, s: StockSymbol) -> int {
    p.avg_costs@[symbol_index(s)] as int
}

/// Average cost after buying `n` more shares at `price`, rounded down.
pub open spec fn new_avg(held: int, cost: int, n: int, price: int) -> int {
    if held + n > 0 { (held * cost + n * price) / (held + n) } else { cost }
}

/// Whether the portfolio's holdings are listed in market order with sane costs.
pub open spec fn portfolio_wf(p: StockPortfolio) -> bool {
    &&& forall|i: int| 0 <= i < 6 ==> #[trigger] p.holdings@[i].0 == symbol_at(i)
    &&& forall|i: int| 0 <= i < 6 ==> 0 <= #[trigger] p.avg_costs@[i] <= MAX_PRICE
}

impl Default for StockPortfolio {
    fn default() -> (p: StockPortfolio)
        ensures
            portfolio_wf(p),
            forall|s: StockSymbol| shares_held(p, s) == 0 && avg_cost(p, s) == 0,
    {
        StockPortfolio::new()
    }
}

impl StockPortfolio {
    /// No shares.
    pub fn new() -> (p: StockPortfolio)
        ensures
            portfolio_wf(p),
            forall|s: StockSymbol| shares_held(p, s) == 0 && avg_cost(p, s) == 0,
    {
        let p = StockPortfolio {
            holdings: [
                (StockSymbol::TSMC, 0),
                (StockSymbol::PineAir, 0),
                (StockSymbol::BobaGroup, 0),
                (StockSymbol::NightMarketKing, 0),
                (StockSymbol::DragonBuild, 0),
                (StockSymbol::BearEnergy, 0),
            ],
            avg_costs: [0; 6],
        };
        assert(forall|i: int| 0 <= i < 6 ==> #[trigger] p.avg_costs@[i] == 0);
        p
    }

    /// Shares held of a stock.
    pub fn shares_of(&self, symbol: StockSymbol) -> (n: u32)
        ensures
            n == shares_held(*self, symbol),
    {
        self.holdings[symbol.index()].1
    }

    /// Average price paid for a stock, in cents.
    pub fn avg_cost_of(&self, symbol: StockSymbol) -> (c: i64)
        ensures
            c == avg_cost(*self, symbol),
    {
        self.avg_costs[symbol.index()]
    }

    /// Buys `shares` at `price_per_share`: the holding grows and the average
    /// cost becomes the weighted average (rounded down).
    pub fn buy(&mut self, symbol: StockSymbol, shares: u32, price_per_share: i64)
        requires
            portfolio_wf(*old(self)),
            0 <= price_per_share <= MAX_PRICE,
            shares_held(*old(self), symbol) + shares <= u32::MAX,
        ensures
            portfolio_wf(*final(self)),
            shares_held(*final(self), symbol) == shares_held(*old(self), symbol) + shares,
            avg_cost(*final(self), symbol) == new_avg(
                shares_held(*old(self), symbol),
                avg_cost(*old(self), symbol),
                shares as int,
                price_per_share as int,
            ),
            forall|s: StockSymbol| s != symbol ==> shares_held(*final(self), s) == shares_held(*old(self), s)
                && avg_cost(*final(self), s) == avg_cost(*old(self), s),
    {
        let idx = symbol.index();
        let old_shares = self.holdings[idx].1;
        let old_cost = self.avg_costs[idx];
        let new_total = old_shares + shares;
        self.holdings[idx] = (symbol, new_total);
        if new_total > 0 {
            let a = old_shares as i128;
            let c = old_cost as i128;
            let n = shares as i128;
            let p = price_per_share as i128;
            assert(0 <= a * c <= a * MAX_PRICE) by (nonlinear_arith)
                requires
                    a >= 0,
                    0 <= c <= MAX_PRICE,
            ;
            assert(0 <= n * p <= n * MAX_PRICE) by (nonlinear_arith)
                requires
                    n >= 0,
                    0 <= p <= MAX_PRICE,
            ;
            assert(a * MAX_PRICE + n * MAX_PRICE == (a + n) * MAX_PRICE) by (nonlinear_arith);
            assert((a + n) * MAX_PRICE <= 4_294_967_295 * MAX_PRICE) by (nonlinear_arith)
                requires
                    a + n <= 4_294_967_295,
            ;
            let total = a * c + n * p;
            let avg = total / (a + n);
            assert(0 <= avg <= MAX_PRICE) by (nonlinear_arith)
                requires
                    0 <= total <= (a + n) * MAX_PRICE,
                    a + n > 0,
                    avg as int == total as int / (a + n) as int,
            ;
            self.avg_costs[idx] = avg as i64;
        }
        assert(forall|i: int| 0 <= i < 6 && i != idx ==> self.holdings@[i] == old(self).holdings@[i]);
        assert(forall|s: StockSymbol| s != symbol ==> symbol_index(s) != symbol_index(symbol));
    }

    /// Sells `shares` if held; the average cost resets when the holding reaches zero.
    pub fn sell(&mut self, symbol: StockSymbol, shares: u32) -> (ok: bool)
        requires
            portfolio_wf(*old(self)),
        ensures
            portfolio_wf(*final(self)),
            ok == (shares_held(*old(self), symbol) >= shares),
            !ok ==> *final(self) == *old(self),
            ok ==> shares_held(*final(self), symbol) == shares_held(*old(self), symbol) - shares,
            ok ==> avg_cost(*final(self), symbol) == if shares_held(*old(self), symbol) == shares {
                0
            } else {
                avg_cost(*old(self), symbol)
            },
            forall|s: StockSymbol| s != symbol ==> shares_held(*final(self), s) == shares_held(*old(self), s)
                && avg_cost(*final(self), s) == avg_cost(*old(self), s),
    {
        let idx = symbol.index();
        let held = self.holdings[idx].1;
        if held < shares {
            return false;
        }
        self.holdings[idx] = (symbol, held - shares);
        if held - shares == 0 {
            self.avg_costs[idx] = 0;
        }
        assert(forall|s: StockSymbol| s != symbol ==> symbol_index(s) != symbol_index(symbol));
        true
    }

    /// Unrealised gain on a stock at `current_price`, in cents.
    pub fn profit_loss(&self, symbol: StockSymbol, current_price: i64) -> (pl: i128)
        requires
            portfolio_wf(*self),
            0 <= current_price <= MAX_PRICE,
        ensures
            pl == (current_price - avg_cost(*self, symbol)) * shares_held(*self, symbol),
    {
        let idx = symbol.index();
        let shares = self.holdings[idx].1;
        if shares == 0 {
            assert((current_price - avg_cost(*self, symbol)) * 0 == 0) by (nonlinear_arith);
            return 0;
        }
        let d = current_price as i128 - self.avg_costs[idx] as i128;
        assert(-MAX_PRICE * 4_294_967_295 <= d * shares <= MAX_PRICE * 4_294_967_295) by (nonlinear_arith)
            requires
                -MAX_PRICE <= d <= MAX_PRICE,
                0 <= shares <= 4_294_967_295,
        ;
        d * shares as i128
    }

    /// Market value of all holdings at the market's prices, in cents.
    pub fn total_value(&self, market: &StockMarket) -> (v: i128)
        requires
            market_wf(market),
        ensures
            v == holdings_value(*self, market.stocks@, 6),
    {
        let mut total: i128 = 0;
        let mut i: usize = 0;
        while i < 6
            invariant
                0 <= i <= 6,
                market_wf(market),
                total == holdings_value(*self, market.stocks@, i as int),
                0 <= total <= i * 4_294_967_295 * MAX_PRICE,
            decreases 6 - i,
        {
            let sym = StockSymbol::at(i);
            let shares = self.shares_of(sym) as i128;
            let price = market.get(sym).price as i128;
            assert(0 <= shares * price <= 4_294_967_295 * MAX_PRICE) by (nonlinear_arith)
                requires
                    0 <= shares <= 4_294_967_295,
                    0 <= price <= MAX_PRICE,
            ;
            total = total + shares * price;
            i = i + 1;
        }
        total
    }
}

/// Value of the holdings of the first `n` stocks at the prices of `stocks`.
pub open spec fn holdings_value(p: StockPortfolio, stocks: Seq<Stock>, n: int) -> int
    decreases n,
{
    if n <= 0 {
        0
    } else {
        holdings_value(p, stocks, n - 1) + p.holdings@[n - 1].1 * stocks[n - 1].price
    }
}

/// The stock market.
pub struct StockMarket {
    /// The six stocks, in market order.
    pub stocks: Vec<Stock>,
    /// Time until the next price update.
    pub update_timer: i64,
    pub portfolio: StockPortfolio,
    /// Whether trading hours are on (9:00 to 17:00).
    pub is_open: bool,
}

/// The market lists the six stocks in order, none at a negative price.
pub open spec fn market_wf(m: &StockMarket) -> bool {
    &&& m.stocks@.len() == 6
    &&& forall|i: int| 0 <= i < 6 ==> (#[trigger] m.stocks@[i]).symbol == symbol_at(i)
    &&& forall|i: int| 0 <= i < 6 ==> 0 <= (#[trigger] m.stocks@[i]).price
    &&& portfolio_wf(m.portfolio)
}

/// Cost of `n` shares at `price` cents, in whole dollars rounded up, saturating.
pub open spec fn purchase_cost(price: int, n: int) -> int {
    let c = (price * n + 99) / 100;
    if c > i32::MAX { i32::MAX as int } else { c }
}

/// Proceeds of `n` shares at `price` cents, in whole dollars rounded down, saturating.
pub open spec fn sale_proceeds(price: int, n: int) -> int {
    let c = price * n / 100;
    if c > i32::MAX { i32::MAX as int } else { c }
}

/// Selling `n` shares at `price` cents pays their whole value in dollars,
/// less any part of a dollar, and buying them costs their whole value, plus
/// at most the part of a dollar that rounds up: the amounts grow with the
/// number of shares traded (below the cap of an `i32`).
pub proof fn trades_pay_by_the_share(price: int, n: int)
    requires
        price >= 0,
        n >= 0,
        price * n + 99 <= 100 * i32::MAX,
    ensures
        100 * sale_proceeds(price, n) <= price * n < 100 * sale_proceeds(price, n) + 100,
        price * n <= 100 * purchase_cost(price, n) < price * n + 100,
        sale_proceeds(price, n) <= purchase_cost(price, n),
{
    assert(price * n >= 0) by (nonlinear_arith)
        requires
            price >= 0,
            n >= 0,
    ;
}

impl Default for StockMarket {
    fn default() -> (m: StockMarket)
        ensures
            market_wf(&m),
            m.update_timer == PRICE_UPDATE_INTERVAL,
            m.is_open,
            forall|i: int| 0 <= i < 6 ==> (#[trigger] m.stocks@[i]).price == spec_initial_price(symbol_at(i)),
            forall|s: StockSymbol| shares_held(m.portfolio, s) == 0,
    {
        let mut stocks: Vec<Stock> = Vec::new();
        let mut i: usize = 0;
        while i < 6
            invariant
                0 <= i <= 6,
                stocks@.len() == i,
                forall|j: int| 0 <= j < i ==> (#[trigger] stocks@[j]).symbol == symbol_at(j),
                forall|j: int| 0 <= j < i ==> (#[trigger] stocks@[j]).price == spec_initial_price(symbol_at(j)),
                forall|j: int| 0 <= j < i ==> (#[trigger] stocks@[j]).trend_bias == 0,
            decreases 6 - i,
        {
            stocks.push(Stock::new(StockSymbol::at(i)));
            i = i + 1;
        }
        StockMarket { stocks, update_timer: PRICE_UPDATE_INTERVAL, portfolio: StockPortfolio::new(), is_open: true }
    }
}

impl StockMarket {
    /// The stock of a symbol.
    pub fn get(&self, symbol: StockSymbol) -> (s: &Stock)
        requires
            self.stocks@.len() == 6,
        ensures
            *s == self.stocks@[symbol_index(symbol)],
    {
        &self.stocks[symbol.index()]
    }

    /// The stock of a symbol, for changing it.
    pub fn get_mut(&mut self, symbol: StockSymbol) -> (s: &mut Stock)
        requires
            old(self).stocks@.len() == 6,
        ensures
            *s == old(self).stocks@[symbol_index(symbol)],
            final(self).stocks@ == old(self).stocks@.update(symbol_index(symbol), *final(s)),
            final(self).update_timer == old(self).update_timer,
            final(self).portfolio == old(self).portfolio,
            final(self).is_open == old(self).is_open,
    {
        let idx = symbol.index();
        &mut self.stocks[idx]
    }

    /// Buys shares with cash: refused when the market is closed or the cash does
    /// not cover the cost (price times shares, rounded up to whole dollars).
    /// Returns the price paid per share.
    pub fn buy(&mut self, symbol: StockSymbol, shares: u32, wallet: &mut PlayerWallet) -> (r: Result<i64, &'static str>)
        requires
            market_wf(old(self)),
            shares_held(old(self).portfolio, symbol) + shares <= u32::MAX,
        ensures
            market_wf(final(self)),
            final(self).stocks@ == old(self).stocks@,
            final(self).is_open == old(self).is_open,
            !old(self).is_open ==> r is Err && r->Err_0@ == "市場未開市"@ && *final(wallet) == *old(wallet)
                && final(self).portfolio == old(self).portfolio,
            ({
                let price = old(self).stocks@[symbol_index(symbol)].price;
                let cost = purchase_cost(price as int, shares as int);
                &&& old(self).is_open && !can_spend(*old(wallet), cost as i32) ==> r is Err && r->Err_0@ == "現金不足"@
                    && *final(wallet) == *old(wallet) && final(self).portfolio == old(self).portfolio
                &&& old(self).is_open && can_spend(*old(wallet), cost as i32) ==> r == Ok::<i64, &'static str>(price)
                    && *final(wallet) == spend_post(*old(wallet), cost as i32)
                    && shares_held(final(self).portfolio, symbol) == shares_held(old(self).portfolio, symbol) + shares
                    && avg_cost(final(self).portfolio, symbol) == new_avg(
                    shares_held(old(self).portfolio, symbol),
                    avg_cost(old(self).portfolio, symbol),
                    shares as int,
                    price as int,
                )
            }),
    {
        if !self.is_open {
            return Err("市場未開市");
        }
        let price = self.get(symbol).price;
        assert(0 <= price as i128 * shares as i128 <= MAX_PRICE * 4_294_967_295) by (nonlinear_arith)
            requires
                0 <= price <= MAX_PRICE,
                0 <= shares <= 4_294_967_295u32,
        ;
        let c = (price as i128 * shares as i128 + 99) / 100;
        let total_cost: i32 = if c > i32::MAX as i128 { i32::MAX } else { c as i32 };
        if !wallet.spend_cash(total_cost) {
            return Err("現金不足");
        }
        self.portfolio.buy(symbol, shares, price);
        Ok(price)
    }

    /// Sells shares for cash: refused when the market is closed or not enough
    /// shares are held. Proceeds are price times shares rounded down to whole
    /// dollars. Returns the price per share.
    pub fn sell(&mut self, symbol: StockSymbol, shares: u32, wallet: &mut PlayerWallet) -> (r: Result<i64, &'static str>)
        requires
            market_wf(old(self)),
        ensures
            market_wf(final(self)),
            final(self).stocks@ == old(self).stocks@,
            final(self).is_open == old(self).is_open,
            !old(self).is_open ==> r is Err && r->Err_0@ == "市場未開市"@ && *final(wallet) == *old(wallet)
                && final(self).portfolio == old(self).portfolio,
            old(self).is_open && shares_held(old(self).portfolio, symbol) < shares ==> r is Err && r->Err_0@
                == "持股不足"@ && *final(wallet) == *old(wallet) && final(self).portfolio == old(self).portfolio,
            ({
                let price = old(self).stocks@[symbol_index(symbol)].price;
                old(self).is_open && shares_held(old(self).portfolio, symbol) >= shares ==> r == Ok::<
                    i64,
                    &'static str,
                >(price) && *final(wallet) == add_cash_post(*old(wallet), sale_proceeds(price as int, shares as int) as i32)
                    && shares_held(final(self).portfolio, symbol) == shares_held(old(self).portfolio, symbol) - shares
            }),
    {
        if !self.is_open {
            return Err("市場未開市");
        }
        if !self.portfolio.sell(symbol, shares) {
            return Err("持股不足");
        }
        let price = self.get(symbol).price;
        assert(0 <= price as i128 * shares as i128 <= MAX_PRICE * 4_294_967_295) by (nonlinear_arith)
            requires
                0 <= price <= MAX_PRICE,
                0 <= shares <= 4_294_967_295u32,
        ;
        let c = price as i128 * shares as i128 / 100;
        let total_value: i32 = if c > i32::MAX as i128 { i32::MAX } else { c as i32 };
        wallet.add_cash(total_value);
        Ok(price)
    }
}

/// Trading hours: from 9:00 up to 17:00 (hours in hundredths).
pub open spec fn market_hours(hour: u32) -> bool {
    900 <= hour && hour < 1700
}

/// Each frame: the market opens in trading hours; while open the timer runs
/// down by `dt`, and when it runs out it restarts and every stock moves by one
/// one-second update.
pub fn stock_price_update_system(dt: i64, hour: u32, market: &mut StockMarket)
    requires
        market_wf(old(market)),
    ensures
        market_wf(final(market)),
        final(market).is_open == market_hours(hour),
        final(market).portfolio == old(market).portfolio,
        !market_hours(hour) ==> final(market).stocks@ == old(market).stocks@ && final(market).update_timer
            == old(market).update_timer,
        market_hours(hour) && old(market).update_timer - dt > 0 ==> final(market).stocks@ == old(market).stocks@
            && final(market).update_timer == saturate_i64(old(market).update_timer - dt),
        market_hours(hour) && old(market).update_timer - dt <= 0 ==> final(market).update_timer == PRICE_UPDATE_INTERVAL
            && forall|i: int| 0 <= i < 6 ==> ticked(#[trigger] old(market).stocks@[i], final(market).stocks@[i], 1000),
{
    market.is_open = 900 <= hour && hour < 1700;
    if !market.is_open {
        return;
    }
    let left = market.update_timer as i128 - dt as i128;
    market.update_timer = if left < i64::MIN as i128 {
        i64::MIN
    } else if left > i64::MAX as i128 {
        i64::MAX
    } else {
        left as i64
    };
    if left <= 0 {
        market.update_timer = PRICE_UPDATE_INTERVAL;
        let ghost s0 = market.stocks@;
        let mut i: usize = 0;
        while i < market.stocks.len()
            invariant
                0 <= i <= 6,
                market.stocks@.len() == 6,
                s0.len() == 6,
                portfolio_wf(market.portfolio),
                market.portfolio == old(market).portfolio,
                market.update_timer == PRICE_UPDATE_INTERVAL,
                market.is_open == market_hours(hour),
                s0 == old(market).stocks@,
                forall|j: int| 0 <= j < 6 ==> (#[trigger] s0[j]).symbol == symbol_at(j),
                forall|j: int| 0 <= j < i ==> ticked(#[trigger] s0[j], market.stocks@[j], 1000),
                forall|j: int| i <= j < 6 ==> #[trigger] market.stocks@[j] == s0[j],
            decreases 6 - i,
        {
            let ghost before = market.stocks@;
            let mut stock = market.stocks.remove(i);
            stock.tick_price(1000);
            market.stocks.insert(i, stock);
            assert(market.stocks@ =~= before.update(i as int, stock));
            i = i + 1;
        }
        assert forall|j: int| 0 <= j < 6 implies 0 <= (#[trigger] market.stocks@[j]).price
            && market.stocks@[j].symbol == symbol_at(j) by {
            assert(ticked(s0[j], market.stocks@[j], 1000));
        }
    }
}

/// Starts a trend on one stock (after a mission event).
pub fn apply_stock_event(market: &mut StockMarket, symbol: StockSymbol, bias: i64, duration: i64)
    requires
        market_wf(old(market)),
    ensures
        market_wf(final(market)),
        final(market).portfolio == old(market).portfolio,
        final(market).is_open == old(market).is_open,
        final(market).update_timer == old(market).update_timer,
        ({
            let i = symbol_index(symbol);
            let old_s = old(market).stocks@[i];
            let new_s = final(market).stocks@[i];
            &&& new_s.trend_bias == bias && new_s.trend_duration == duration
            &&& new_s.symbol == old_s.symbol && new_s.price == old_s.price
            &&& new_s.previous_price == old_s.previous_price && new_s.price_history == old_s.price_history
            &&& forall|j: int| 0 <= j < 6 && j != i ==> #[trigger] final(market).stocks@[j] == old(market).stocks@[j]
        }),
{
    let stock = market.get_mut(symbol);
    stock.set_trend(bias, duration);
}

} // verus!
