use madlad400::error::EngineError;

#[test]
fn every_error_carries_its_message() {
    assert_eq!(EngineError::Configuration("a".to_string()).message(), "a");
    assert_eq!(EngineError::Tokenization("b".to_string()).message(), "b");
    assert_eq!(EngineError::ModelInference("c".to_string()).message(), "c");
    assert_eq!(EngineError::Numeric(String::new()).message(), "");
}
