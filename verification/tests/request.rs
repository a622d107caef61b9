use aws_ip_ranges::{
    api_response, calculate_aws_response, find_ip_param, unavailable_message, unavailable_status,
    validate_ip_param, AWSIpRanges, AWSResponse, Address, Ipv4Prefix, Ipv6Prefix, ParameterError,
};
use std::cell::Cell;

fn pairs(list: &[(&str, &str)]) -> Vec<(String, String)> {
    list.iter().map(|(k, v)| (k.to_string(), v.to_string())).collect()
}

fn only_52_1_1_1(text: &str) -> Option<Address> {
    if text == "52.1.1.1" {
        Some(Address::V4(0x3401_0101))
    } else {
        None
    }
}

fn aws_response(tag: &str) -> AWSResponse {
    let ranges = AWSIpRanges {
        prefixes: vec![
            Ipv4Prefix::new("52.0.0.0/15".to_owned(), "us-east-1".to_owned(), "AMAZON".to_owned(), "us-east-1".to_owned()),
            Ipv4Prefix::new("3.5.140.0/22".to_owned(), "ap-northeast-2".to_owned(), "S3".to_owned(), "ap-northeast-2".to_owned()),
        ],
        ipv6_prefixes: vec![Ipv6Prefix::new(
            "2406:da60:c000::/40".to_owned(),
            "ap-east-1".to_owned(),
            "AMAZON".to_owned(),
            "ap-east-1".to_owned(),
        )],
    };
    calculate_aws_response(ranges, tag.to_owned()).unwrap()
}

#[test]
fn the_first_ip_pair_is_the_parameter() {
    assert_eq!(find_ip_param(&pairs(&[("ip", "52.1.1.1")])), Some("52.1.1.1"));
    assert_eq!(find_ip_param(&pairs(&[("a", "b"), ("ip", "1.1.1.1"), ("ip", "2.2.2.2")])), Some("1.1.1.1"));
    assert_eq!(find_ip_param(&pairs(&[("ip", ""), ("ip", "2.2.2.2")])), Some(""));
    assert_eq!(find_ip_param(&pairs(&[("x", "ip"), ("ip", "ip")])), Some("ip"));
}

#[test]
fn a_query_without_ip_pair_has_no_parameter() {
    assert_eq!(find_ip_param(&[]), None);
    assert_eq!(find_ip_param(&pairs(&[("IP", "52.1.1.1"), ("ipv4", "52.1.1.1"), ("i", "p"), ("", "ip")])), None);
    assert_eq!(find_ip_param(&pairs(&[("address", "ip")])), None);
}

#[test]
fn a_missing_parameter_is_turned_down() {
    let asked = Cell::new(false);
    let verdict = validate_ip_param(None, |text: &str| {
        asked.set(true);
        only_52_1_1_1(text)
    });
    assert_eq!(verdict, Err(ParameterError::Missing));
    assert!(!asked.get());
}

#[test]
fn an_empty_parameter_is_turned_down() {
    let asked = Cell::new(false);
    let verdict = validate_ip_param(Some(""), |_: &str| {
        asked.set(true);
        Some(Address::V4(0))
    });
    assert_eq!(verdict, Err(ParameterError::Empty));
    assert!(!asked.get());
}

#[test]
fn an_unparseable_parameter_is_turned_down() {
    for text in ["52.1.1", "52.1.1.1 ", "localhost", " ", "52.1.1.1/32"] {
        assert_eq!(validate_ip_param(Some(text), only_52_1_1_1), Err(ParameterError::Invalid), "{:?}", text);
    }
}

#[test]
fn a_parseable_parameter_is_read() {
    assert_eq!(validate_ip_param(Some("52.1.1.1"), only_52_1_1_1), Ok(Address::V4(0x3401_0101)));
    let seen = Cell::new(String::new());
    let verdict = validate_ip_param(Some("::1"), |text: &str| {
        seen.set(text.to_owned());
        Some(Address::V6(1))
    });
    assert_eq!(verdict, Ok(Address::V6(1)));
    assert_eq!(seen.take(), "::1");
}

#[test]
fn parameter_errors_are_client_errors_with_their_message() {
    assert_eq!(ParameterError::Missing.status_code(), 400);
    assert_eq!(ParameterError::Empty.status_code(), 400);
    assert_eq!(ParameterError::Invalid.status_code(), 400);
    assert_eq!(ParameterError::Missing.message(), "\"ip\" parameter is missing!");
    assert_eq!(ParameterError::Empty.message(), "\"ip\" parameter is empty!");
    assert_eq!(ParameterError::Invalid.message(), "\"ip\" parameter is not a valid IP address!");
}

#[test]
fn a_request_without_usable_parameter_ends_in_the_400_class() {
    let queries: [&[(&str, &str)]; 4] = [&[], &[("ip", "")], &[("ip", "nonsense")], &[("other", "52.1.1.1")]];
    for query in queries {
        let query = pairs(query);
        let verdict = validate_ip_param(find_ip_param(&query), only_52_1_1_1);
        let status = verdict.unwrap_err().status_code();
        assert!((400..500).contains(&status));
    }
    let query = pairs(&[("ip", "52.1.1.1")]);
    assert!(validate_ip_param(find_ip_param(&query), only_52_1_1_1).is_ok());
}

#[test]
fn an_unavailable_dataset_is_a_server_error() {
    assert_eq!(unavailable_status(), 500);
    assert_eq!(unavailable_message(), "Unable to fetch AWS ranges");
}

#[test]
fn the_answer_names_the_request_the_cache_status_and_the_matches() {
    let dataset = aws_response("HIT");
    let answer = api_response("52.1.1.1", &dataset, false, &Address::V4(0x3401_0101));
    assert_eq!(answer.requested_ip, "52.1.1.1");
    assert_eq!(answer.cache_status, "HIT");
    assert_eq!(answer.matches.len(), 1);
    assert_eq!(answer.matches[0].ip_prefix, "52.0.0.0/15");
    assert_eq!(answer.matches[0].region, "us-east-1");
    assert_eq!(answer.matches[0].service, "AMAZON");
    assert_eq!(answer.matches[0].network_border_group, "us-east-1");

    let answer = api_response("52.1.1.1", &dataset, true, &Address::V4(0x3401_0101));
    assert_eq!(answer.cache_status, "LOCAL");
    assert_eq!(answer.matches.len(), 1);
}

#[test]
fn an_answer_without_matches_is_no_error() {
    let dataset = aws_response("UNKNOWN");
    let answer = api_response("8.8.8.8", &dataset, false, &Address::V4(0x0808_0808));
    assert_eq!(answer.requested_ip, "8.8.8.8");
    assert_eq!(answer.cache_status, "UNKNOWN");
    assert!(answer.matches.is_empty());
    let answer = api_response("2206:de60:c000::00", &dataset, true, &Address::V6(0x2206_de60_c000 << 80));
    assert_eq!(answer.requested_ip, "2206:de60:c000::00");
    assert_eq!(answer.cache_status, "LOCAL");
    assert!(answer.matches.is_empty());
    let answer = api_response("2406:da60:c000::00", &dataset, true, &Address::V6(0x2406_da60_c000 << 80));
    assert_eq!(answer.matches.len(), 1);
    assert_eq!(answer.matches[0].ip_prefix, "2406:da60:c000::/40");
}
