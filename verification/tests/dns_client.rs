use doh_gateway::dns_client::{
    check_query, check_questions, single_question, ArraySizeError, ParsedQuestion, QueryError,
};

fn question(name: &[&str], qtype: u16, qclass: u16) -> Vec<u8> {
    let mut out = Vec::new();
    for label in name {
        out.push(label.len() as u8);
        out.extend_from_slice(label.as_bytes());
    }
    out.push(0);
    out.extend_from_slice(&qtype.to_be_bytes());
    out.extend_from_slice(&qclass.to_be_bytes());
    out
}

fn message(count: u16, questions: &[Vec<u8>]) -> Vec<u8> {
    let mut out = vec![0x12, 0x34, 0x01, 0x00];
    out.extend_from_slice(&count.to_be_bytes());
    out.extend_from_slice(&[0, 0, 0, 0, 0, 0]);
    for q in questions {
        out.extend_from_slice(q);
    }
    out
}

fn sample(name: &str, qtype: u16) -> ParsedQuestion {
    ParsedQuestion::new(name.to_string(), qtype, 1)
}

#[test]
fn array_size_error_keeps_the_length() {
    assert_eq!(ArraySizeError::new(7).len, 7);
    assert_eq!(ArraySizeError::new(0), ArraySizeError { len: 0 });
}

#[test]
fn one_question_is_accepted() {
    let bytes = message(1, &[question(&["www", "example", "com"], 28, 1)]);
    let q = check_query(&bytes).unwrap();
    assert_eq!(q.qname, "www.example.com");
    assert_eq!(q.qtype, 28);
    assert_eq!(q.qclass, 1);
}

#[test]
fn question_type_and_class_are_read() {
    let bytes = message(1, &[question(&["example"], 255, 3)]);
    let q = check_query(&bytes).unwrap();
    assert_eq!(q.qname, "example");
    assert_eq!(q.qtype, 255);
    assert_eq!(q.qclass, 3);
}

#[test]
fn two_questions_are_refused() {
    let bytes = message(2, &[question(&["a", "example"], 1, 1), question(&["b", "example"], 1, 1)]);
    match check_query(&bytes) {
        Err(QueryError::QuestionCount(e)) => assert_eq!(e.len, 2),
        other => panic!("unexpected: {:?}", other),
    }
}

#[test]
fn no_question_is_refused() {
    let bytes = message(0, &[]);
    match check_query(&bytes) {
        Err(QueryError::QuestionCount(e)) => assert_eq!(e.len, 0),
        other => panic!("unexpected: {:?}", other),
    }
}

#[test]
fn short_message_is_malformed() {
    assert!(matches!(check_query(&[]), Err(QueryError::Malformed)));
    assert!(matches!(check_query(&[0; 11]), Err(QueryError::Malformed)));
}

#[test]
fn truncated_question_is_malformed() {
    let mut bytes = message(1, &[question(&["example", "com"], 1, 1)]);
    bytes.truncate(bytes.len() - 3);
    assert!(matches!(check_query(&bytes), Err(QueryError::Malformed)));
    let bytes = message(2, &[question(&["example", "com"], 1, 1)]);
    assert!(matches!(check_query(&bytes), Err(QueryError::Malformed)));
}

#[test]
fn single_question_returns_the_only_one() {
    let q = single_question(vec![sample("example.com", 16)]).unwrap();
    assert_eq!(q.qname, "example.com");
    assert_eq!(q.qtype, 16);
    assert_eq!(q.qclass, 1);
}

#[test]
fn single_question_counts_the_others() {
    assert_eq!(single_question(Vec::new()).unwrap_err(), ArraySizeError { len: 0 });
    let three = vec![sample("a", 1), sample("b", 1), sample("c", 1)];
    assert_eq!(single_question(three).unwrap_err(), ArraySizeError { len: 3 });
}

#[test]
fn check_questions_tells_unreadable_from_miscounted() {
    assert!(matches!(check_questions(None), Err(QueryError::Malformed)));
    match check_questions(Some(vec![sample("a", 1), sample("b", 2)])) {
        Err(QueryError::QuestionCount(e)) => assert_eq!(e.len, 2),
        other => panic!("unexpected: {:?}", other),
    }
    let q = check_questions(Some(vec![sample("b", 2)])).unwrap();
    assert_eq!(q.qname, "b");
    assert_eq!(q.qtype, 2);
}

#[test]
fn array_size_error_message_names_the_length() {
    assert_eq!(ArraySizeError::new(2).message(), "wrong size for array: 2");
    assert_eq!(ArraySizeError::new(0).message(), "wrong size for array: 0");
    assert_eq!(ArraySizeError::new(1234567890).message(), "wrong size for array: 1234567890");
}
