use roulette::PlaceBetError;
use roulette::Roulette;
use roulette::RouletteBet;
use roulette::RouletteBetType;

#[test]
fn spin_and_history_test() {
    let mut r = Roulette::new();
    let mut history = Vec::new();

    for _ in 0..10 {
        match r.spin(&vec![]) {
            Ok((num, _results)) => {
                history.push(num);
            }
            Err(_) => panic!("Spin failed for some reason!"),
        }
    }

    // validate history
    let history_check = r.history();
    assert_eq!(history_check.len(), history.len());
    for i in 0..history.len() {
        let a = history[i];
        let b = history_check[i];
        assert_eq!(a, b);
    }
}

#[test]
fn spin_on_an_empty_batch_always_lands() {
    let mut r = Roulette::new();
    let (num, results) = r.spin(&vec![]).expect("an empty batch must be admitted");
    assert!(num <= 36);
    assert!(results.is_empty());
    assert_eq!(r.history(), &[num]);
}

#[test]
fn spin_refuses_an_illegal_shape_and_leaves_history() {
    let mut r = Roulette::new();
    let bets = vec![
        RouletteBet::new(RouletteBetType::Straight(5), 10),
        RouletteBet::new(RouletteBetType::Straight(37), 10),
    ];
    let errors = r.spin(&bets).expect_err("an illegal shape must refuse the batch");
    assert_eq!(errors.len(), 1);
    assert!(matches!(
        errors[0],
        PlaceBetError::InvalidBetOption(bet) if bet.wager() == 10
    ));
    assert!(r.history().is_empty());
}

#[test]
fn spin_refuses_a_wager_under_the_minimum() {
    let mut r = Roulette::new();
    let bets = vec![RouletteBet::new(RouletteBetType::Redblack(0), 0)];
    let errors = r.spin(&bets).expect_err("a zero wager must be refused");
    assert_eq!(errors.len(), 1);
    assert!(matches!(errors[0], PlaceBetError::MinBetNotSatisfied(_, 1)));
    assert!(r.history().is_empty());
}

#[test]
fn spin_collects_every_error_in_batch_order() {
    let mut r = Roulette::new();
    let bets = vec![
        RouletteBet::new(RouletteBetType::Dozens(4), 10),
        RouletteBet::new(RouletteBetType::Straight(5), 10),
        RouletteBet::new(RouletteBetType::EvenOdd(0), 0),
    ];
    let errors = r.spin(&bets).expect_err("two bets of the batch are bad");
    assert_eq!(errors.len(), 2);
    assert!(matches!(
        errors[0],
        PlaceBetError::InvalidBetOption(bet) if matches!(bet.bet_type(), RouletteBetType::Dozens(4))
    ));
    assert!(matches!(
        errors[1],
        PlaceBetError::MinBetNotSatisfied(bet, 1) if matches!(bet.bet_type(), RouletteBetType::EvenOdd(0))
    ));
    assert!(r.history().is_empty());
}

#[test]
fn spin_admits_a_wager_at_the_minimum() {
    let mut r = Roulette::new();
    let bets = vec![RouletteBet::new(RouletteBetType::Highlow(1), 1)];
    let (num, results) = r.spin(&bets).expect("the minimum wager must be admitted");
    assert!(num <= 36);
    assert_eq!(results.len(), 1);
}

#[test]
fn history_grows_by_one_per_successful_spin() {
    let mut r = Roulette::new();
    assert!(r.history().is_empty());
    let mut returned = Vec::new();
    for round in 1usize..=25 {
        let flag = (round % 2) as u8;
        let bets = vec![RouletteBet::new(RouletteBetType::EvenOdd(flag), 3)];
        let (num, _results) = r.spin(&bets).expect("a legal batch must be admitted");
        returned.push(num);
        assert_eq!(r.history().len(), round);
    }
    assert_eq!(r.history(), returned.as_slice());
}
