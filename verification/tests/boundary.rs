use rover::boundary::check_arguments;
use rover::{Argument, CError, CoordinatesResult};

fn text(s: &str) -> Argument {
    Argument::Text(s.to_string())
}

#[test]
fn usable_arguments_are_handed_out() {
    assert_eq!(
        check_arguments(text("5 5"), text("1 2 N\nM")),
        Ok(("5 5".to_string(), "1 2 N\nM".to_string()))
    );
    assert_eq!(check_arguments(text(""), text("")), Ok((String::new(), String::new())));
}

#[test]
fn missing_argument_is_reported_first() {
    assert_eq!(check_arguments(Argument::Null, text("x")), Err(CError::NullPointerTopRight));
    assert_eq!(check_arguments(Argument::Null, Argument::Null), Err(CError::NullPointerTopRight));
    assert_eq!(
        check_arguments(Argument::Null, Argument::NotUtf8),
        Err(CError::NullPointerTopRight)
    );
    assert_eq!(check_arguments(text("x"), Argument::Null), Err(CError::NullPointerInstruction));
    assert_eq!(
        check_arguments(Argument::NotUtf8, Argument::Null),
        Err(CError::NullPointerInstruction)
    );
}

#[test]
fn ill_encoded_argument_is_reported() {
    assert_eq!(check_arguments(Argument::NotUtf8, text("x")), Err(CError::InvalidUTF8TopRight));
    assert_eq!(
        check_arguments(Argument::NotUtf8, Argument::NotUtf8),
        Err(CError::InvalidUTF8TopRight)
    );
    assert_eq!(
        check_arguments(text("x"), Argument::NotUtf8),
        Err(CError::InvalidUTF8Instruction)
    );
}

#[test]
fn success_record_joins_the_lines() {
    let record = CoordinatesResult::success(&vec!["1 3 N".to_string(), "5 1 E".to_string()]);
    assert_eq!(record.result, "1 3 N\n5 1 E");
    assert_eq!(record.error, "");
    let record = CoordinatesResult::success(&vec!["0 0 S".to_string()]);
    assert_eq!(record.result, "0 0 S");
    assert_eq!(record.error, "");
    let record = CoordinatesResult::success(&vec![]);
    assert_eq!(record.result, "");
    assert_eq!(record.error, "");
    let record = CoordinatesResult::success(&vec![String::new(), String::new(), "a".to_string()]);
    assert_eq!(record.result, "\n\na");
}

#[test]
fn failure_record_holds_the_message() {
    let record = CoordinatesResult::failure("no such rover".to_string());
    assert_eq!(record.result, "");
    assert_eq!(record.error, "no such rover");
}

#[test]
fn batch_report_survives_the_record() {
    let report = rover::return_coordinates(
        "5 5".to_string(),
        "1 2 N\nLMLMLMLMM\n3 3 E\nMMRMMRMRRM".to_string(),
    )
    .unwrap();
    let record = CoordinatesResult::success(&report);
    let back: Vec<String> = record.result.split("\n").map(|l| l.to_string()).collect();
    assert_eq!(back, report);
}
