use l1_chain_analyzer::engine::{Command, Cycle, Event};
use l1_chain_analyzer::error::Error;
use l1_chain_analyzer::estimator::{
    Checkpoint, Estimator, Family, HeightBlock, Reply, Request, Step, TendermintBlock,
};
use l1_chain_analyzer::snapshot::{ChainSnapshot, MarketRecord};
use l1_chain_analyzer::throughput::Estimate;

/// Upstreams that answer from a script. A sick chain fails every call.
struct Script {
    markets: Option<Vec<MarketRecord<f64>>>,
    gas: Option<String>,
    aptos_sick: bool,
    sui_sick: bool,
    sei_sick: bool,
}

impl Script {
    fn healthy() -> Script {
        Script {
            markets: Some(vec![
                market("aptos", "apt", "Aptos", 8.5),
                market("ethereum", "eth", "Ethereum", 3000.0),
                market("sei-network", "sei", "Sei", 0.5),
                market("sui", "sui", "Sui", 1.25),
            ]),
            gas: Some("12".to_string()),
            aptos_sick: false,
            sui_sick: false,
            sei_sick: false,
        }
    }

    fn reply(&self, request: Request) -> Reply {
        match request {
            Request::LatestHeightBlock if !self.aptos_sick => Reply::HeightBlock(HeightBlock {
                block_height: "100".to_string(),
                block_timestamp: "1000000000".to_string(),
                transactions: 37,
            }),
            Request::HeightBlockAt(99) if !self.aptos_sick => Reply::HeightBlock(HeightBlock {
                block_height: "99".to_string(),
                block_timestamp: "999000000".to_string(),
                transactions: 0,
            }),
            Request::LatestCheckpointNumber if !self.sui_sick => {
                Reply::CheckpointNumber("5010".to_string())
            }
            Request::CheckpointAt(sequence) if !self.sui_sick && sequence >= 5_000 => {
                Reply::Checkpoint(Checkpoint {
                    sequence_number: sequence.to_string(),
                    timestamp_ms: (1_700_000_000_000 + 250 * (sequence - 5_000)).to_string(),
                    network_total_transactions: (9_000_000 + 80 * (sequence - 5_000)).to_string(),
                })
            }
            Request::LatestTendermintBlock if !self.sei_sick => {
                Reply::TendermintBlock(TendermintBlock {
                    height: "777".to_string(),
                    time: "2024-05-01T12:00:00.400Z".to_string(),
                    transactions: 3,
                })
            }
            Request::TendermintBlockAt(776) if !self.sei_sick => {
                Reply::TendermintBlock(TendermintBlock {
                    height: "776".to_string(),
                    time: "2024-05-01T12:00:00Z".to_string(),
                    transactions: 50,
                })
            }
            _ => Reply::Unavailable,
        }
    }

    fn estimate(&self, family: Family) -> Estimate {
        let (mut estimator, mut request) = Estimator::start(family);
        for _ in 0..3 {
            let (next, step) = estimator.advance(self.reply(request));
            estimator = next;
            match step {
                Step::Ask(asked) => request = asked,
                Step::Done(estimate) => {
                    assert_eq!(estimator, Estimator::Finished);
                    return estimate;
                }
            }
        }
        panic!("an estimator asked for a fourth unit");
    }

    fn run(&self) -> Result<Vec<ChainSnapshot<f64>>, Error> {
        let (mut cycle, mut command) = Cycle::<f64>::start();
        for _ in 0..4 {
            let event = match command {
                Command::FetchMarkets => Event::Markets(self.markets.clone()),
                Command::FetchGas => Event::Gas(self.gas.clone()),
                Command::RunEstimators(plan) => Event::Estimates(
                    plan.into_iter().map(|slot| slot.map(|family| self.estimate(family))).collect(),
                ),
                Command::Respond(answer) => {
                    assert_eq!(cycle, Cycle::Finished);
                    return answer;
                }
            };
            let (next, following) = cycle.step(event);
            cycle = next;
            command = following;
        }
        panic!("a cycle gave a fifth command");
    }
}

fn market(id: &str, symbol: &str, name: &str, price: f64) -> MarketRecord<f64> {
    MarketRecord {
        id: id.to_string(),
        symbol: symbol.to_string(),
        name: name.to_string(),
        current_price: Some(price),
        market_cap: None,
        price_change_percentage_24h: None,
    }
}

fn shown(chains: &[ChainSnapshot<f64>]) -> Vec<(&str, Option<&str>, Option<&str>)> {
    chains
        .iter()
        .map(|chain| (chain.symbol.as_str(), chain.tps.as_deref(), chain.gas_fees.as_deref()))
        .collect()
}

#[test]
fn a_whole_cycle_with_every_upstream_healthy() {
    let chains = Script::healthy().run().unwrap();
    assert_eq!(
        shown(&chains),
        vec![
            ("APT", Some("37.00"), None),
            ("ETH", None, Some("12 Gwei")),
            ("SEI", Some("7.50"), None),
            ("SUI", Some("320.00"), None),
        ]
    );
}

#[test]
fn a_whole_cycle_with_one_chain_sick() {
    let mut script = Script::healthy();
    script.sui_sick = true;
    let chains = script.run().unwrap();
    assert_eq!(
        shown(&chains),
        vec![
            ("APT", Some("37.00"), None),
            ("ETH", None, Some("12 Gwei")),
            ("SEI", Some("7.50"), None),
            ("SUI", None, None),
        ]
    );
}

#[test]
fn a_whole_cycle_with_every_chain_sick() {
    let mut script = Script::healthy();
    script.aptos_sick = true;
    script.sui_sick = true;
    script.sei_sick = true;
    let chains = script.run().unwrap();
    assert_eq!(
        shown(&chains),
        vec![
            ("APT", None, None),
            ("ETH", None, Some("12 Gwei")),
            ("SEI", None, None),
            ("SUI", None, None),
        ]
    );
}

#[test]
fn a_whole_cycle_without_market_data() {
    let mut script = Script::healthy();
    script.markets = None;
    assert_eq!(script.run(), Err(Error::ApiRequestFailed));
}

#[test]
fn a_whole_cycle_without_gas_price() {
    let mut script = Script::healthy();
    script.gas = None;
    assert_eq!(script.run(), Err(Error::ApiRequestFailed));
}
