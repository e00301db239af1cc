use reception::connection::PingContext;

#[test]
fn should_return_correct_payload() {
    // Arrange
    let payload = vec![42u8, 42u8];
    let timeout: u128 = 5_000_000_000;
    let now: u128 = 1_000;

    // Act
    let ping_context = PingContext::with_time(payload.clone(), timeout, now);

    // Assert
    assert_eq!(payload, *ping_context.payload());
}

#[test]
fn should_return_correct_deadline() {
    // Arrange
    let payload = vec![42u8, 42u8];
    let timeout: u128 = 5_000_000_000;
    let now: u128 = 1_000;

    // Act
    let ping_context = PingContext::with_time(payload, timeout, now);

    // Assert
    assert_eq!(now + timeout, *ping_context.deadline());
}
