use iea::args::{get_kv, parse_args, ParseError};

fn tokens(v: &[&str]) -> Vec<String> {
    let mut out: Vec<String> = Vec::new();
    for s in v {
        out.push(s.to_string());
    }
    out
}

#[test]
fn get_kv_pairs_tokens_in_order() {
    let pairs = get_kv(tokens(&["-a", "10000", "-i", "12"]));
    assert_eq!(pairs.len(), 2);
    assert_eq!(pairs[0].key, "-a");
    assert_eq!(pairs[0].value, "10000");
    assert_eq!(pairs[1].key, "-i");
    assert_eq!(pairs[1].value, "12");
}

#[test]
fn get_kv_of_empty_list_is_empty() {
    let pairs = get_kv(Vec::new());
    assert_eq!(pairs.len(), 0);
}

#[test]
fn odd_length_is_malformed() {
    let t = tokens(&["-a"]);
    let z: Vec<bool> = Vec::new();
    assert_eq!(parse_args(&t, &z).err(), Some(ParseError::MalformedArguments));
}

#[test]
fn odd_length_is_malformed_whatever_it_holds() {
    let t = tokens(&["-a", "10", "-i", "12", "trailing"]);
    let z = vec![false, false];
    assert_eq!(parse_args(&t, &z).err(), Some(ParseError::MalformedArguments));
}

#[test]
fn zero_amount_is_invalid() {
    let t = tokens(&["-a", "0"]);
    let z = vec![true];
    assert_eq!(parse_args(&t, &z).err(), Some(ParseError::InvalidAmount));
}

#[test]
fn non_numeric_rate_is_invalid() {
    let t = tokens(&["-i", "plenty"]);
    let z = vec![true];
    assert_eq!(parse_args(&t, &z).err(), Some(ParseError::InvalidRate));
}

#[test]
fn zero_period_is_invalid() {
    let t = tokens(&["-p", "0"]);
    let z = vec![true];
    assert_eq!(parse_args(&t, &z).err(), Some(ParseError::InvalidPeriod));
}

#[test]
fn all_three_parameters_are_collected() {
    let t = tokens(&["-a", "10000", "-i", "12", "-p", "12"]);
    let z = vec![false, false, false];
    match parse_args(&t, &z) {
        Ok(raw) => {
            assert_eq!(raw.amount, Some("10000".to_string()));
            assert_eq!(raw.i_rate, Some("12".to_string()));
            assert_eq!(raw.period, Some("12".to_string()));
        }
        Err(_) => panic!("expected the list to parse"),
    }
}

#[test]
fn later_duplicate_flag_wins() {
    let t = tokens(&["-a", "5", "-a", "7"]);
    let z = vec![false, false];
    match parse_args(&t, &z) {
        Ok(raw) => assert_eq!(raw.amount, Some("7".to_string())),
        Err(_) => panic!("expected the list to parse"),
    }
}

#[test]
fn first_failing_pair_names_the_error() {
    let t = tokens(&["-a", "0", "-i", "0"]);
    let z = vec![true, true];
    assert_eq!(parse_args(&t, &z).err(), Some(ParseError::InvalidAmount));
}

#[test]
fn zero_under_a_duplicate_flag_still_rejects() {
    let t = tokens(&["-a", "0", "-a", "5"]);
    let z = vec![true, false];
    assert_eq!(parse_args(&t, &z).err(), Some(ParseError::InvalidAmount));
}

#[test]
fn unrecognized_flags_are_ignored() {
    let t = tokens(&["-x", "whatever", "-a", "5"]);
    let z = vec![true, false];
    match parse_args(&t, &z) {
        Ok(raw) => {
            assert_eq!(raw.amount, Some("5".to_string()));
            assert_eq!(raw.i_rate, None);
            assert_eq!(raw.period, None);
        }
        Err(_) => panic!("an unrecognized flag must not reject the list"),
    }
}

#[test]
fn missing_flags_stay_unset() {
    let t: Vec<String> = Vec::new();
    let z: Vec<bool> = Vec::new();
    match parse_args(&t, &z) {
        Ok(raw) => {
            assert_eq!(raw.amount, None);
            assert_eq!(raw.i_rate, None);
            assert_eq!(raw.period, None);
        }
        Err(_) => panic!("an empty list parses to an empty record"),
    }
}
