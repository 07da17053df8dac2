use std::fmt;

use ask::input;
use ask::Answer;
use ask::AskError;
use ask::Colour;
use ask::InBuffer;
use ask::OutBuffer;

const MSG: &str = "A test message.";
const DEFAULT_RESPONSE: &str = "A response.";
const EMPTY_RESPONSE: &str = "";

type NoValidation = fn(Answer) -> bool;

enum Message {
    TestMessage,
}

impl fmt::Display for Message {
    fn fmt(&self, f: &mut fmt::Formatter) -> fmt::Result {
        f.write_str("Test Message")
    }
}

impl Default for Message {
    fn default() -> Message {
        Message::TestMessage
    }
}

fn mock_input() -> InBuffer {
    InBuffer::new(String::from("A response."))
}

fn mock_no_echo() -> InBuffer {
    InBuffer::new(String::from("A response.\r\n"))
}

fn mock_confirm() -> InBuffer {
    InBuffer::new(String::from("y"))
}

#[test]
fn can_ask_a_question() {
    assert_eq!(
        input::<NoValidation>(MSG.to_string()).redirect_in(mock_input()).ask().unwrap(),
        DEFAULT_RESPONSE
    );
}

#[test]
fn can_disable_echo() {
    assert_eq!(
        input::<NoValidation>(MSG.to_string()).redirect_in(mock_no_echo()).no_echo().ask().unwrap(),
        DEFAULT_RESPONSE
    );
}

#[test]
fn can_disable_answer() {
    assert_eq!(
        input::<NoValidation>(MSG.to_string()).redirect_in(mock_input()).no_answer().ask().unwrap(),
        EMPTY_RESPONSE
    );
}

#[test]
fn can_chain_operations() {
    assert_eq!(
        input::<NoValidation>(MSG.to_string()).redirect_in(mock_input()).no_answer().ask().unwrap(),
        EMPTY_RESPONSE
    );
}

#[test]
fn can_set_prompt() {
    assert_eq!(
        input::<NoValidation>(MSG.to_string()).redirect_in(mock_input()).prompt(':').ask().unwrap(),
        DEFAULT_RESPONSE
    )
}

#[test]
fn can_redirect_output() {
    let sink = OutBuffer::new();
    assert_eq!(
        input::<NoValidation>(MSG.to_string())
            .redirect_out(sink)
            .redirect_in(mock_input())
            .ask()
            .unwrap(),
        DEFAULT_RESPONSE
    );
}

#[test]
fn can_set_fg_colour() {
    assert_eq!(
        input::<NoValidation>(MSG.to_string())
            .redirect_in(mock_input())
            .fg_colour(Colour::Red)
            .ask()
            .unwrap(),
        DEFAULT_RESPONSE
    );
}

#[test]
fn can_set_bg_colour() {
    assert_eq!(
        input::<NoValidation>(MSG.to_string())
            .redirect_in(mock_input())
            .bg_colour(Colour::Red)
            .ask()
            .unwrap(),
        DEFAULT_RESPONSE
    );
}

#[test]
fn can_ask_for_confirmation() {
    assert_eq!(
        input::<NoValidation>(MSG.to_string())
            .redirect_in(mock_confirm())
            .confirm()
            .no_answer()
            .ask()
            .unwrap(),
        EMPTY_RESPONSE
    );
}

#[test]
fn can_validate_answer() {
    let valid = |a: Answer| -> bool {
        if a == DEFAULT_RESPONSE {
            true
        } else {
            false
        }
    };
    assert_eq!(
        input(MSG.to_string()).redirect_in(mock_input()).validate(valid).ask().unwrap(),
        DEFAULT_RESPONSE
    );
}

#[test]
fn can_accept_any_type_implementing_display_and_default() {
    let message = Message::TestMessage;
    assert_eq!(
        input::<NoValidation>(format!("{}", message)).redirect_in(mock_input()).ask().unwrap(),
        DEFAULT_RESPONSE
    );
}

#[test]
fn validation_failure_reports_the_validation_error() {
    let valid = |a: Answer| -> bool { a == "something else" };
    let result = input(MSG.to_string()).redirect_in(mock_input()).validate(valid).ask();
    assert_eq!(result, Err(AskError::Validation));
    assert_eq!(
        result.unwrap_err().message(),
        "Response failed validation"
    );
}

#[test]
fn error_messages_carry_their_causes() {
    assert_eq!(AskError::ReadInput.message(), "Unable to read from input.");
    assert_eq!(AskError::ReadStdin.message(), "Unable to read from STDIN.");
    assert_eq!(AskError::ReadMasked.message(), "Unable to read input.");
    assert_eq!(AskError::Validation.message(), "Response failed validation");
}

#[test]
fn plain_read_keeps_the_line_ending() {
    let answer = input::<NoValidation>(MSG.to_string())
        .redirect_in(InBuffer::new(String::from("first\nsecond")))
        .ask()
        .unwrap();
    assert_eq!(answer, "first\n");
}

#[test]
fn masked_read_strips_the_line_ending() {
    let answer = input::<NoValidation>(MSG.to_string())
        .redirect_in(InBuffer::new(String::from("secret\nrest")))
        .no_echo()
        .ask()
        .unwrap();
    assert_eq!(answer, "secret");
}

#[test]
fn empty_redirected_input_yields_an_empty_answer() {
    let answer = input::<NoValidation>(MSG.to_string())
        .redirect_in(InBuffer::new(String::new()))
        .ask()
        .unwrap();
    assert_eq!(answer, EMPTY_RESPONSE);
}

#[test]
fn redirected_output_is_the_plain_message_without_a_newline() {
    let mut b = input::<NoValidation>(MSG.to_string())
        .redirect_in(mock_input())
        .redirect_out(OutBuffer::new())
        .fg_colour(Colour::Green)
        .bg_colour(Colour::Blue);
    b.ask().unwrap();
    match b.sink {
        ask::Sink::Redirected(out) => assert_eq!(out.contents(), MSG),
        ask::Sink::Console => panic!("output was not redirected"),
    }
}

#[test]
fn prompt_character_is_displayed_but_not_returned() {
    let mut b = input::<NoValidation>(MSG.to_string())
        .redirect_in(mock_input())
        .redirect_out(OutBuffer::new())
        .prompt(':');
    let answer = b.ask().unwrap();
    assert_eq!(answer, DEFAULT_RESPONSE);
    match b.sink {
        ask::Sink::Redirected(out) => assert_eq!(out.contents(), "A test message.:"),
        ask::Sink::Console => panic!("output was not redirected"),
    }
}

#[test]
fn confirmation_prints_message_and_question_per_attempt() {
    let mut b = input::<NoValidation>(MSG.to_string())
        .redirect_in(InBuffer::new(String::from("no\nY\nThe answer.")))
        .redirect_out(OutBuffer::new())
        .confirm();
    let answer = b.ask().unwrap();
    assert_eq!(answer, "The answer.");
    let expected = format!(
        "{m}{q}{m}{q}",
        m = "A test message.",
        q = "Are you sure? Y/N"
    );
    match b.sink {
        ask::Sink::Redirected(out) => assert_eq!(out.contents(), &expected),
        ask::Sink::Console => panic!("output was not redirected"),
    }
}

#[test]
fn confirmation_with_upper_and_lower_case_yes() {
    let upper = input::<NoValidation>(MSG.to_string())
        .redirect_in(InBuffer::new(String::from("Y\nok")))
        .confirm()
        .ask()
        .unwrap();
    assert_eq!(upper, "ok");
    let lower = input::<NoValidation>(MSG.to_string())
        .redirect_in(InBuffer::new(String::from("y\nok")))
        .confirm()
        .ask()
        .unwrap();
    assert_eq!(lower, "ok");
}

#[test]
fn a_line_that_is_not_yes_does_not_confirm() {
    // "yes\n" and "n\n" are read and rejected; only the trimmed "y" line
    // lets the loop exit, and the line after it is the answer.
    let buffer = InBuffer::new(String::from("yes\nn\ny\nThe answer."));
    assert!(buffer.has_confirmation_line());
    let answer = input::<NoValidation>(MSG.to_string())
        .redirect_in(buffer)
        .confirm()
        .ask()
        .unwrap();
    assert_eq!(answer, "The answer.");
}

#[test]
fn has_confirmation_line_finds_no_confirmation_in_plain_text() {
    assert!(!InBuffer::new(String::from("no\nnever\n")).has_confirmation_line());
    assert!(InBuffer::new(String::from("no\ny\n...")).has_confirmation_line());
    assert!(InBuffer::new(String::from("no\ny")).has_confirmation_line());
}

#[test]
fn no_answer_discards_even_a_validated_answer() {
    let valid = |a: Answer| -> bool { a == DEFAULT_RESPONSE };
    let answer = input(MSG.to_string())
        .redirect_in(mock_input())
        .validate(valid)
        .no_answer()
        .ask()
        .unwrap();
    assert_eq!(answer, EMPTY_RESPONSE);
}
