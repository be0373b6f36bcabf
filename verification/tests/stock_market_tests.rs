//! Stock prices, trends, portfolio and market trading. Prices are in cents,
//! moves in hundredths of a percent, trend strength in ten-thousandths per
//! second and durations in milliseconds.

use island_rampage::economy::stock_market::{Stock, StockMarket, StockPortfolio, StockSymbol};
use island_rampage::economy::wallet::PlayerWallet;

#[test]
fn stock_initial_price() {
    let stock = Stock::new(StockSymbol::TSMC);
    assert_eq!(stock.price, 50_000);
    assert_eq!(stock.change_percent(), 0);
}

#[test]
fn stock_tick_changes_price() {
    let mut stock = Stock::new(StockSymbol::NightMarketKing);
    let _original = stock.price;
    // 多次 tick 確保價格變動
    for _ in 0..10 {
        stock.tick_price(1000);
    }
    // 價格應該有變化（雖然有小概率不變，但 10 次後概率極低）
    // 至少歷史紀錄應增長
    assert!(stock.price_history.len() > 1);
}

#[test]
fn stock_price_never_below_one() {
    let mut stock = Stock::new(StockSymbol::BobaGroup);
    stock.price = 200; // 接近最低
    stock.set_trend(-5000, 100_000); // 強力下跌趨勢
    for _ in 0..100 {
        stock.tick_price(1000);
    }
    assert!(stock.price >= 100, "價格不應低於 $1");
}

#[test]
fn stock_trend_expires() {
    let mut stock = Stock::new(StockSymbol::PineAir);
    stock.set_trend(1000, 5000);
    assert!(stock.trend_duration > 0);

    for _ in 0..6 {
        stock.tick_price(1000);
    }
    assert!(stock.trend_duration <= 0);
    assert_eq!(stock.trend_bias, 0);
}

#[test]
fn portfolio_buy_and_sell() {
    let mut portfolio = StockPortfolio::new();

    portfolio.buy(StockSymbol::TSMC, 10, 50_000);
    assert_eq!(portfolio.shares_of(StockSymbol::TSMC), 10);
    assert_eq!(portfolio.avg_cost_of(StockSymbol::TSMC), 50_000);

    // 加碼（不同價格）
    portfolio.buy(StockSymbol::TSMC, 10, 60_000);
    assert_eq!(portfolio.shares_of(StockSymbol::TSMC), 20);
    assert_eq!(portfolio.avg_cost_of(StockSymbol::TSMC), 55_000);

    // 賣出
    assert!(portfolio.sell(StockSymbol::TSMC, 5));
    assert_eq!(portfolio.shares_of(StockSymbol::TSMC), 15);

    // 超賣失敗
    assert!(!portfolio.sell(StockSymbol::TSMC, 100));
}

#[test]
fn portfolio_profit_loss() {
    let mut portfolio = StockPortfolio::new();
    portfolio.buy(StockSymbol::BobaGroup, 100, 8_500);

    // 股價漲到 100 → 獲利 1500
    let pl = portfolio.profit_loss(StockSymbol::BobaGroup, 10_000);
    assert_eq!(pl, 150_000);

    // 股價跌到 70 → 虧損 -1500
    let pl = portfolio.profit_loss(StockSymbol::BobaGroup, 7_000);
    assert_eq!(pl, -150_000);
}

#[test]
fn market_buy_sell() {
    let mut market = StockMarket::default();
    let mut wallet = PlayerWallet {
        cash: 10000,
        bank: 0,
        total_earned: 0,
        total_spent: 0,
    };

    // 買入 10 股 NightMarketKing (價格 $45)
    let result = market.buy(StockSymbol::NightMarketKing, 10, &mut wallet);
    assert!(result.is_ok());
    assert_eq!(market.portfolio.shares_of(StockSymbol::NightMarketKing), 10);
    assert!(wallet.cash < 10000);

    // 賣出 5 股
    let result = market.sell(StockSymbol::NightMarketKing, 5, &mut wallet);
    assert!(result.is_ok());
    assert_eq!(market.portfolio.shares_of(StockSymbol::NightMarketKing), 5);
}

#[test]
fn market_buy_insufficient_cash() {
    let mut market = StockMarket::default();
    let mut wallet = PlayerWallet {
        cash: 100,
        bank: 0,
        total_earned: 0,
        total_spent: 0,
    };

    // TSMC $500，買 10 股需 $5000，錢不夠
    let result = market.buy(StockSymbol::TSMC, 10, &mut wallet);
    assert!(result.is_err());
}

#[test]
fn market_closed_blocks_trading() {
    let mut market = StockMarket::default();
    market.is_open = false;
    let mut wallet = PlayerWallet {
        cash: 100000,
        bank: 0,
        total_earned: 0,
        total_spent: 0,
    };

    let result = market.buy(StockSymbol::TSMC, 1, &mut wallet);
    assert_eq!(result, Err("市場未開市"));
}

#[test]
fn stock_symbols_count() {
    assert_eq!(StockSymbol::all().len(), 6);
}

#[test]
fn stock_change_percent_positive() {
    let mut stock = Stock::new(StockSymbol::TSMC);
    stock.previous_price = 10_000;
    stock.price = 11_000;
    assert_eq!(stock.change_percent(), 1000);
    assert!(stock.is_up());
}
