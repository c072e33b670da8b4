use l1_chain_analyzer::engine::{market_ids, Command, Cycle, Event};
use l1_chain_analyzer::error::Error;
use l1_chain_analyzer::estimator::Family;
use l1_chain_analyzer::snapshot::{ChainSnapshot, MarketRecord};
use l1_chain_analyzer::throughput::{Degradation, Estimate, TimeUnit};

fn record(id: &str, symbol: &str, name: &str, price: f64) -> MarketRecord<f64> {
    MarketRecord {
        id: id.to_string(),
        symbol: symbol.to_string(),
        name: name.to_string(),
        current_price: Some(price),
        market_cap: None,
        price_change_percentage_24h: None,
    }
}

fn four_chains() -> Vec<MarketRecord<f64>> {
    vec![
        record("ethereum", "eth", "Ethereum", 3000.0),
        record("sui", "sui", "Sui", 1.25),
        record("aptos", "apt", "Aptos", 8.5),
        record("sei-network", "sei", "Sei", 0.5),
    ]
}

fn unavailable() -> Option<Estimate> {
    Some(Estimate::Degraded(Degradation::Unavailable))
}

fn failure() -> (Cycle<f64>, Command<f64>) {
    (Cycle::Finished, Command::Respond(Err(Error::ApiRequestFailed)))
}

fn answer(command: Command<f64>) -> Vec<ChainSnapshot<f64>> {
    match command {
        Command::Respond(Ok(chains)) => chains,
        other => panic!("{other:?}"),
    }
}

#[test]
fn the_market_is_asked_for_the_fixed_set_of_chains() {
    assert_eq!(market_ids(), "aptos,sui,sei-network,ethereum");
}

#[test]
fn a_cycle_begins_with_the_market() {
    let (cycle, command) = Cycle::<f64>::start();
    assert_eq!(cycle, Cycle::AwaitMarkets);
    assert_eq!(command, Command::FetchMarkets);
}

#[test]
fn ethereum_alone_with_every_estimator_failing() {
    let markets = vec![MarketRecord {
        id: "ethereum".to_string(),
        symbol: "eth".to_string(),
        name: "Ethereum".to_string(),
        current_price: Some(3000.0),
        market_cap: Some(3.6e11),
        price_change_percentage_24h: Some(-1.5),
    }];
    let (cycle, _) = Cycle::<f64>::start();
    let (cycle, command) = cycle.step(Event::Markets(Some(markets)));
    assert_eq!(command, Command::FetchGas);
    let (cycle, command) = cycle.step(Event::Gas(Some("12".to_string())));
    assert_eq!(command, Command::RunEstimators(vec![None]));
    let (cycle, command) = cycle.step(Event::Estimates(vec![unavailable()]));
    assert_eq!(cycle, Cycle::Finished);
    assert_eq!(
        answer(command),
        vec![ChainSnapshot {
            name: "Ethereum".to_string(),
            symbol: "ETH".to_string(),
            price_usd: Some(3000.0),
            market_cap: Some(3.6e11),
            price_change_24h: Some(-1.5),
            gas_fees: Some("12 Gwei".to_string()),
            tps: None,
            tvl: None,
            explorer_url: "https://etherscan.io".to_string(),
        }]
    );
}

#[test]
fn four_chains_with_every_estimator_failing() {
    let (cycle, _) = Cycle::<f64>::start();
    let (cycle, _) = cycle.step(Event::Markets(Some(four_chains())));
    let (cycle, _) = cycle.step(Event::Gas(Some("12".to_string())));
    let results = vec![None, unavailable(), unavailable(), unavailable()];
    let (_, command) = cycle.step(Event::Estimates(results));
    let chains = answer(command);
    assert_eq!(chains.len(), 4);
    for chain in &chains {
        assert_eq!(chain.tps, None);
        assert_eq!(chain.tvl, None);
    }
    assert_eq!(chains[0].gas_fees, Some("12 Gwei".to_string()));
    assert_eq!(chains[1].gas_fees, None);
    assert_eq!(chains[2].gas_fees, None);
    assert_eq!(chains[3].gas_fees, None);
}

#[test]
fn four_chains_with_rates() {
    let (cycle, _) = Cycle::<f64>::start();
    let (cycle, command) = cycle.step(Event::Markets(Some(four_chains())));
    assert_eq!(command, Command::FetchGas);
    let (cycle, command) = cycle.step(Event::Gas(Some("9.5".to_string())));
    assert_eq!(
        command,
        Command::RunEstimators(vec![
            None,
            Some(Family::CheckpointSequence),
            Some(Family::HeightIndexed),
            Some(Family::Tendermint),
        ])
    );
    let results = vec![
        None,
        Some(Estimate::over(500, 5_000, TimeUnit::Milliseconds)),
        Some(Estimate::over(37, 1_000_000, TimeUnit::Microseconds)),
        unavailable(),
    ];
    let (cycle, command) = cycle.step(Event::Estimates(results));
    assert_eq!(cycle, Cycle::Finished);
    let chains = answer(command);
    let names: Vec<&str> = chains.iter().map(|chain| chain.name.as_str()).collect();
    assert_eq!(names, vec!["Ethereum", "Sui", "Aptos", "Sei"]);
    let symbols: Vec<&str> = chains.iter().map(|chain| chain.symbol.as_str()).collect();
    assert_eq!(symbols, vec!["ETH", "SUI", "APT", "SEI"]);
    let tps: Vec<Option<&str>> = chains.iter().map(|chain| chain.tps.as_deref()).collect();
    assert_eq!(tps, vec![None, Some("100.00"), Some("37.00"), None]);
    let gas: Vec<Option<&str>> = chains.iter().map(|chain| chain.gas_fees.as_deref()).collect();
    assert_eq!(gas, vec![Some("9.5 Gwei"), None, None, None]);
    let prices: Vec<Option<f64>> = chains.iter().map(|chain| chain.price_usd).collect();
    assert_eq!(prices, vec![Some(3000.0), Some(1.25), Some(8.5), Some(0.5)]);
    assert_eq!(chains[1].explorer_url, "https://suiscan.xyz/mainnet");
    assert_eq!(chains[2].explorer_url, "https://explorer.aptoslabs.com");
    assert_eq!(chains[3].explorer_url, "https://www.seiscan.app");
}

#[test]
fn missing_market_data_fails_the_cycle_at_once() {
    let (cycle, _) = Cycle::<f64>::start();
    assert_eq!(cycle.step(Event::Markets(None)), failure());
}

#[test]
fn a_missing_gas_price_fails_the_cycle() {
    let (cycle, _) = Cycle::<f64>::start();
    let (cycle, _) = cycle.step(Event::Markets(Some(four_chains())));
    assert_eq!(cycle.step(Event::Gas(None)), failure());
}

#[test]
fn a_missing_gas_price_fails_the_cycle_without_ethereum_too() {
    let (cycle, _) = Cycle::<f64>::start();
    let (cycle, _) = cycle.step(Event::Markets(Some(vec![record("sui", "sui", "Sui", 1.0)])));
    assert_eq!(cycle.step(Event::Gas(None)), failure());
}

#[test]
fn without_ethereum_the_gas_price_is_not_attached() {
    let (cycle, _) = Cycle::<f64>::start();
    let (cycle, _) = cycle.step(Event::Markets(Some(vec![record("sui", "sui", "Sui", 1.0)])));
    let (cycle, command) = cycle.step(Event::Gas(Some("12".to_string())));
    assert_eq!(command, Command::RunEstimators(vec![Some(Family::CheckpointSequence)]));
    let (_, command) = cycle.step(Event::Estimates(vec![unavailable()]));
    let chains = answer(command);
    assert_eq!(chains.len(), 1);
    assert_eq!(chains[0].gas_fees, None);
    assert_eq!(chains[0].tps, None);
}

#[test]
fn an_empty_market_answer_gives_an_empty_list() {
    let (cycle, _) = Cycle::<f64>::start();
    let (cycle, _) = cycle.step(Event::Markets(Some(Vec::new())));
    let (cycle, command) = cycle.step(Event::Gas(Some("12".to_string())));
    assert_eq!(command, Command::RunEstimators(Vec::new()));
    let (_, command) = cycle.step(Event::Estimates(Vec::new()));
    assert_eq!(answer(command), Vec::new());
}

#[test]
fn an_event_that_is_not_awaited_fails_the_cycle() {
    let (cycle, _) = Cycle::<f64>::start();
    assert_eq!(cycle.step(Event::Gas(Some("12".to_string()))), failure());
    let (cycle, _) = Cycle::<f64>::start();
    assert_eq!(cycle.step(Event::Estimates(Vec::new())), failure());
    let (cycle, _) = Cycle::<f64>::start();
    let (cycle, _) = cycle.step(Event::Markets(Some(four_chains())));
    assert_eq!(cycle.step(Event::Markets(Some(four_chains()))), failure());
    let (cycle, _) = Cycle::<f64>::start();
    let (cycle, _) = cycle.step(Event::Markets(Some(four_chains())));
    let (cycle, _) = cycle.step(Event::Gas(Some("12".to_string())));
    assert_eq!(cycle.step(Event::Gas(Some("12".to_string()))), failure());
}

#[test]
fn a_finished_cycle_stays_finished() {
    assert_eq!(Cycle::<f64>::Finished.step(Event::Markets(Some(four_chains()))), failure());
    assert_eq!(Cycle::<f64>::Finished.step(Event::Gas(None)), failure());
    assert_eq!(Cycle::<f64>::Finished.step(Event::Estimates(Vec::new())), failure());
}

#[test]
fn numbers_of_any_type_are_handed_on() {
    let markets = vec![MarketRecord {
        id: "aptos".to_string(),
        symbol: "apt".to_string(),
        name: "Aptos".to_string(),
        current_price: Some(850u32),
        market_cap: None,
        price_change_percentage_24h: Some(3u32),
    }];
    let (cycle, _) = Cycle::<u32>::start();
    let (cycle, _) = cycle.step(Event::Markets(Some(markets)));
    let (cycle, _) = cycle.step(Event::Gas(Some("1".to_string())));
    let (_, command) = cycle.step(Event::Estimates(vec![None]));
    match command {
        Command::Respond(Ok(chains)) => {
            assert_eq!(chains[0].price_usd, Some(850));
            assert_eq!(chains[0].market_cap, None);
            assert_eq!(chains[0].price_change_24h, Some(3));
        },
        other => panic!("{other:?}"),
    }
}
