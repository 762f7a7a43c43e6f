use market_stats::point::DataPoint;
use market_stats::ratio::Ratio;
use market_stats::session::{Failure, Phase, Session, Step};
use market_stats::stats::MarketStats;

const TICKS_PER_UNIT: f64 = 100.0;

fn float(r: Ratio) -> f64 {
    r.numerator as f64 / r.denominator as f64
}

fn ticks(value: f64) -> Option<i32> {
    let scaled = (value * TICKS_PER_UNIT).round();
    if scaled.is_finite() && scaled >= i32::MIN as f64 && scaled <= i32::MAX as f64 {
        Some(scaled as i32)
    } else {
        None
    }
}

fn decode(line: &str) -> Option<DataPoint> {
    let value: serde_json::Value = serde_json::from_str(line).ok()?;
    let object = value.as_object()?;
    Some(DataPoint {
        id: object.get("id")?.as_u64()?,
        market: object.get("market")?.as_u64()?,
        price: ticks(object.get("price")?.as_f64()?)?,
        volume: ticks(object.get("volume")?.as_f64()?)?,
        is_buy: object.get("is_buy")?.as_bool()?,
    })
}

fn run(lines: &[&str]) -> Session {
    let mut session = Session::new();
    for line in lines {
        match session.offer_line(line) {
            Step::Skip => {}
            Step::Stop => return session,
            Step::Decode => match decode(line) {
                Some(point) => session.accept(&point),
                None => {
                    session.fail(Failure::Decode);
                    return session;
                }
            },
        }
    }
    session.end_of_input();
    session
}

#[test]
fn begin_then_end_gives_no_records() {
    let session = run(&["BEGIN\n", "END\n"]);
    assert_eq!(session.current_phase(), Phase::Finished);
    assert_eq!(session.results(), Some(Vec::new()));
}

#[test]
fn immediate_end_of_input_gives_no_records() {
    let session = run(&[]);
    assert_eq!(session.current_phase(), Phase::Finished);
    assert_eq!(session.results(), Some(Vec::new()));
}

#[test]
fn two_lines_for_one_market() {
    let session = run(&[
        "{\"id\":1,\"market\":7,\"price\":10.0,\"volume\":2.0,\"is_buy\":true}\n",
        "{\"id\":2,\"market\":7,\"price\":20.0,\"volume\":2.0,\"is_buy\":false}\n",
        "END\n",
    ]);
    let records = session.results().unwrap();
    assert_eq!(records.len(), 1);
    let stats = records[0];
    assert_eq!(stats.market(), 7);
    assert_eq!(stats.total_volume() as f64 / TICKS_PER_UNIT, 4.0);
    assert_eq!(float(stats.mean_price()) / TICKS_PER_UNIT, 15.0);
    assert_eq!(float(stats.mean_volume()) / TICKS_PER_UNIT, 2.0);
    assert_eq!(float(stats.volume_weighted_mean_price()) / TICKS_PER_UNIT, 15.0);
    assert_eq!(float(stats.percent_buy()), 0.5);
    assert_eq!(stats.total_data_points(), 2);
}

#[test]
fn a_line_with_missing_fields_ends_the_run_without_results() {
    let session = run(&[
        "BEGIN\n",
        "{\"id\":2,\"market\":7,\"price\":20.0,\"volume\":2.0,\"is_buy\":false}\n",
        "{\"id\":1,\"market\":7}\n",
        "{\"id\":3,\"market\":7,\"price\":20.0,\"volume\":2.0,\"is_buy\":false}\n",
        "END\n",
    ]);
    assert_eq!(session.current_phase(), Phase::Failed(Failure::Decode));
    assert_eq!(session.results(), None);
    assert_eq!(session.recorded(7), 1);
}

#[test]
fn nothing_after_the_closing_marker_is_taken() {
    let mut session = Session::new();
    assert_eq!(session.offer_line(" END "), Step::Stop);
    assert_eq!(session.current_phase(), Phase::Finished);
    assert_eq!(session.offer_line("BEGIN"), Step::Stop);
    assert_eq!(session.offer_line("{}"), Step::Stop);
    session.accept(&DataPoint { id: 1, market: 1, price: 1, volume: 1, is_buy: true });
    assert_eq!(session.recorded(1), 0);
    session.fail(Failure::Read);
    assert_eq!(session.current_phase(), Phase::Finished);
    assert_eq!(session.results(), Some(Vec::new()));
}

#[test]
fn a_run_that_is_still_reading_has_no_results() {
    let mut session = Session::new();
    assert_eq!(session.current_phase(), Phase::Reading);
    assert_eq!(session.offer_line("BEGIN"), Step::Skip);
    assert_eq!(session.offer_line("{\"id\":1}"), Step::Decode);
    session.accept(&DataPoint { id: 1, market: 4, price: 3, volume: 2, is_buy: true });
    assert_eq!(session.current_phase(), Phase::Reading);
    assert_eq!(session.recorded(4), 1);
    assert_eq!(session.results(), None);
    session.end_of_input();
    let expected = MarketStats::empty(4).update(&DataPoint {
        id: 1,
        market: 4,
        price: 3,
        volume: 2,
        is_buy: true,
    });
    assert_eq!(session.results(), Some(vec![expected]));
}

#[test]
fn a_read_failure_ends_the_run_without_results() {
    let mut session = Session::new();
    session.accept(&DataPoint { id: 1, market: 4, price: 3, volume: 2, is_buy: true });
    session.fail(Failure::Read);
    assert_eq!(session.current_phase(), Phase::Failed(Failure::Read));
    assert_eq!(session.results(), None);
    session.end_of_input();
    assert_eq!(session.current_phase(), Phase::Failed(Failure::Read));
    assert_eq!(session.offer_line("BEGIN"), Step::Stop);
}

#[test]
fn one_record_per_market_at_the_end() {
    let session = run(&[
        "BEGIN",
        "{\"id\":1,\"market\":1,\"price\":1.5,\"volume\":2,\"is_buy\":true}",
        "{\"id\":2,\"market\":2,\"price\":2.5,\"volume\":1,\"is_buy\":false}",
        "{\"id\":3,\"market\":1,\"price\":3.5,\"volume\":2,\"is_buy\":true}",
    ]);
    let mut records = session.results().unwrap();
    records.sort_by_key(|r| r.market());
    assert_eq!(records.len(), 2);
    assert_eq!(records[0].market(), 1);
    assert_eq!(records[0].total_data_points(), 2);
    assert_eq!(float(records[0].mean_price()) / TICKS_PER_UNIT, 2.5);
    assert_eq!(records[1].market(), 2);
    assert_eq!(records[1].total_data_points(), 1);
}
