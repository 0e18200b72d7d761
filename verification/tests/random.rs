use int64::{functions, Int64, Operand};

fn make(v: i64) -> Int64 {
    Int64::new(Some(Operand::Number(v))).unwrap()
}

fn draw(a: i64, b: i64) -> i64 {
    let drawn = functions::random(Operand::Number(a), Operand::Number(b)).unwrap();
    drawn.to_decimal().parse().unwrap()
}

#[test]
fn random_stays_between_the_bounds() {
    for _ in 0..500 {
        let v = draw(10, 20);
        assert!(10 <= v && v <= 20);
    }
}

#[test]
fn random_takes_the_bounds_in_either_order() {
    for _ in 0..500 {
        let v = draw(20, 10);
        assert!(10 <= v && v <= 20);
        let w = draw(3, -3);
        assert!(-3 <= w && w <= 3);
    }
}

#[test]
fn random_reaches_both_bounds() {
    let mut low = false;
    let mut high = false;
    for _ in 0..2000 {
        match draw(0, 1) {
            0 => low = true,
            1 => high = true,
            other => panic!("{} is outside 0..=1", other),
        }
    }
    assert!(low && high);
}

#[test]
fn random_does_not_hand_back_an_argument() {
    let mut inner = false;
    for _ in 0..2000 {
        let v = draw(-1000, 1000);
        assert!(-1000 <= v && v <= 1000);
        if v != -1000 && v != 1000 {
            inner = true;
        }
    }
    assert!(inner);
}

#[test]
fn random_of_equal_bounds_is_that_value() {
    assert_eq!(draw(7, 7), 7);
    assert_eq!(draw(i64::MIN, i64::MIN), i64::MIN);
}

#[test]
fn random_over_the_whole_range() {
    for _ in 0..100 {
        let _ = draw(i64::MIN, i64::MAX);
        let _ = draw(i64::MAX, i64::MIN);
    }
}

#[test]
fn random_method_replaces_the_value() {
    for _ in 0..200 {
        let mut x = make(5);
        x.random(Operand::Text("0xA".to_string())).unwrap();
        let v = x.to_number().unwrap();
        assert!(5 <= v && v <= 10);
        let mut y = make(5);
        y.random(Operand::Number(-5)).unwrap();
        let w = y.to_number().unwrap();
        assert!(-5 <= w && w <= 5);
    }
}
