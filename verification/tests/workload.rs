use agp_dataplane::workload::{
    int_error_message, parse_line, parse_pub, parse_sub, parse_u64, split_words, AgentName,
    IntErrorKind, ParsingError,
};

fn words(v: &[&str]) -> Vec<String> {
    v.iter().map(|s| s.to_string()).collect()
}

#[test]
fn split_words_skips_all_whitespace() {
    assert_eq!(split_words("  SUB\t1 2\n3  "), words(&["SUB", "1", "2", "3"]));
    assert_eq!(split_words(""), Vec::<String>::new());
    assert_eq!(split_words(" \u{a0}\u{3000} "), Vec::<String>::new());
    assert_eq!(split_words("a\u{2003}b"), words(&["a", "b"]));
}

#[test]
fn split_words_agrees_with_std() {
    for line in ["", " a  b ", "\tSUB 1\u{85}2\u{2028}3", "x\u{a0}y\u{200b}z", "\u{3000}\u{3000}"] {
        let std_words: Vec<String> = line.split_whitespace().map(|w| w.to_string()).collect();
        assert_eq!(split_words(line), std_words);
    }
}

#[test]
fn parse_u64_follows_std() {
    assert_eq!(parse_u64("42"), Ok(42));
    assert_eq!(parse_u64("+7"), Ok(7));
    assert_eq!(parse_u64("0007"), Ok(7));
    assert_eq!(parse_u64("18446744073709551615"), Ok(u64::MAX));
    assert_eq!(parse_u64("18446744073709551616"), Err(IntErrorKind::PosOverflow));
    assert_eq!(parse_u64(""), Err(IntErrorKind::Empty));
    assert_eq!(parse_u64("+"), Err(IntErrorKind::InvalidDigit));
    assert_eq!(parse_u64("-1"), Err(IntErrorKind::InvalidDigit));
    assert_eq!(parse_u64("12a"), Err(IntErrorKind::InvalidDigit));
    assert_eq!(parse_u64("99999999999999999999x"), Err(IntErrorKind::PosOverflow));
    for s in ["0", "1", "+5", "123456789", "x", "", "+", "-3", "99999999999999999999"] {
        let ours = parse_u64(s);
        let std_result = s.parse::<u64>();
        match (ours, std_result) {
            (Ok(a), Ok(b)) => assert_eq!(a, b),
            (Err(k), Err(e)) => assert_eq!(int_error_message(k), e.to_string()),
            _ => panic!("disagreement on {:?}", s),
        }
    }
}

#[test]
fn parse_sub_line() {
    let m = parse_line("SUB 7 3 1 2 4 5").unwrap();
    assert_eq!(m.msg_type, "SUB");
    assert_eq!(m.id, 3);
    assert_eq!(
        m.name,
        AgentName { organization: 1, namespace: 2, agent_type: 4, agent_id: 5 }
    );
    assert!(m.receivers.is_empty());
}

#[test]
fn parse_pub_line() {
    let m = parse_line("PUB 9 1 2 3 4 2 10 11").unwrap();
    assert_eq!(m.msg_type, "PUB");
    assert_eq!(m.id, 9);
    assert_eq!(
        m.name,
        AgentName { organization: 1, namespace: 2, agent_type: 3, agent_id: 4 }
    );
    assert_eq!(m.receivers, vec![10, 11]);
}

#[test]
fn parse_line_errors() {
    assert_eq!(
        parse_line("   ").unwrap_err(),
        ParsingError::ParsingError("missing type".to_string())
    );
    assert_eq!(
        parse_line("GET 1 2").unwrap_err(),
        ParsingError::ParsingError("unknown type: GET".to_string())
    );
    assert_eq!(
        parse_line("SUB 1").unwrap_err(),
        ParsingError::ParsingError("missing subscriber id".to_string())
    );
    assert_eq!(
        parse_line("SUB 1 x").unwrap_err(),
        ParsingError::ParsingError("invalid digit found in string".to_string())
    );
    assert_eq!(
        parse_line("PUB").unwrap_err(),
        ParsingError::ParsingError("missing publication id".to_string())
    );
    assert_eq!(
        parse_line("PUB 1 1 2 3 4 x").unwrap_err(),
        ParsingError::ParsingError("invalid digit found in string".to_string())
    );
    assert_eq!(
        parse_line("PUB 1 1 2 3 4 2 5 y").unwrap_err(),
        ParsingError::ParsingError("invalid digit found in string".to_string())
    );
    assert_eq!(
        parse_line("PUB 1 1 2 3 4 3 5 6").unwrap_err(),
        ParsingError::ParsingError("missing receiver ids".to_string())
    );
}

#[test]
fn parse_sub_and_pub_take_the_words_after_the_type() {
    let m = parse_sub(&words(&["0", "8", "1", "1", "1", "1", "extra"])).unwrap();
    assert_eq!(m.id, 8);
    let m = parse_pub(&words(&["5", "1", "1", "1", "1", "0"])).unwrap();
    assert_eq!(m.id, 5);
    assert!(m.receivers.is_empty());
}

#[test]
fn parsing_error_messages() {
    assert_eq!(
        ParsingError::ParsingError("x".to_string()).message(),
        "parsing error x"
    );
    assert_eq!(ParsingError::EOWError.message(), "end of workload");
    assert_eq!(ParsingError::Unknown.message(), "unknown error");
}
