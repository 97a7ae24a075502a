use irmaseal_wasm::error::Error;
use irmaseal_wasm::error::SealError;

fn all_seal_errors() -> Vec<SealError> {
    vec![
        SealError::NotIRMASEAL,
        SealError::IncorrectVersion,
        SealError::ConstraintViolation,
        SealError::FormatViolation,
        SealError::UpstreamWritableError,
        SealError::EndOfStream,
        SealError::PrematureEndError,
    ]
}

#[test]
fn seal_error_messages_are_fixed() {
    assert_eq!(SealError::NotIRMASEAL.message(), "Not IRMASEAL");
    assert_eq!(SealError::IncorrectVersion.message(), "Incorrect version");
    assert_eq!(SealError::ConstraintViolation.message(), "Constraint violation");
    assert_eq!(SealError::FormatViolation.message(), "Format violation");
    assert_eq!(SealError::UpstreamWritableError.message(), "Upstream writable error");
    assert_eq!(SealError::EndOfStream.message(), "End of stream");
    assert_eq!(SealError::PrematureEndError.message(), "Premature end");
}

#[test]
fn boundary_error_carries_the_engine_message() {
    for e in all_seal_errors() {
        assert_eq!(Error::Seal(e).message(), e.message());
    }
}

#[test]
fn validation_failure_message() {
    assert_eq!(Error::Validation.message(), "HMAC does not validate");
}

#[test]
fn messages_are_pairwise_distinct() {
    let mut all: Vec<Error> = all_seal_errors().into_iter().map(Error::Seal).collect();
    all.push(Error::Validation);
    assert_eq!(all.len(), 8);
    for (i, a) in all.iter().enumerate() {
        assert!(!a.message().is_empty());
        for (j, b) in all.iter().enumerate() {
            assert_eq!(a.message() == b.message(), i == j);
            assert_eq!(a == b, i == j);
        }
    }
}
