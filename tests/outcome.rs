use keyword_encryptor::outcome::{combine_outcomes, EngineError};

#[test]
fn all_segments_succeed() {
    assert_eq!(combine_outcomes(&vec![Ok(()), Ok(()), Ok(())]), Ok(()));
    assert_eq!(combine_outcomes(&vec![]), Ok(()));
}

#[test]
fn first_failure_is_reported() {
    let outcomes = vec![
        Ok(()),
        Err(EngineError::IoFailure),
        Ok(()),
        Err(EngineError::SourceOpenFailed),
    ];
    assert_eq!(combine_outcomes(&outcomes), Err(EngineError::IoFailure));
    let outcomes = vec![Err(EngineError::DestinationCreateFailed), Err(EngineError::IoFailure)];
    assert_eq!(combine_outcomes(&outcomes), Err(EngineError::DestinationCreateFailed));
    assert_eq!(
        combine_outcomes(&vec![Ok(()), Err(EngineError::MetadataReadFailed)]),
        Err(EngineError::MetadataReadFailed)
    );
}
