use classified::classified_data::ClassifiedData;
use classified::exposure_aware_classified_data::ExposureAwareClassifiedData;
use classified::exposure_aware_classified_data::ExposurePurpose;
use classified::sized_classified_data::SizedClassifiedData;
use classified::traits::ClassifiedEq;

/// Data can be wrapped and safely exposed.
#[test]
fn creates_and_exposes_data() {
    let sensitive = ClassifiedData::new(vec![1, 2, 3]);
    assert_eq!(sensitive.expose().as_slice(), &[1, 2, 3]);
}

/// `update` applies the function to a temporary copy and the original
/// value remains unchanged.
#[test]
fn update_clones_and_applies_function_but_does_not_mutate_original() {
    let sensitive = ClassifiedData::new(vec![1, 2, 3]);

    sensitive.update(|mut v| {
        v.push(9);
        v
    });

    assert_eq!(sensitive.expose().as_slice(), &[1, 2, 3]);
}

/// Equality between two equal secrets using constant-time comparison.
#[test]
fn constant_time_eq_works_correctly() {
    let a = ClassifiedData::new(vec![42; 8]);
    let b = ClassifiedData::new(vec![42; 8]);
    let c = ClassifiedData::new(vec![99; 8]);

    assert!(a.ct_eq(&b));
    assert!(!a.ct_eq(&c));
}

/// Equality behavior when secrets have different lengths.
#[test]
fn handles_different_lengths_in_ct_eq() {
    let short = ClassifiedData::new(vec![1, 2, 3]);
    let long = ClassifiedData::new(vec![1, 2, 3, 4]);
    assert!(!short.ct_eq(&long));
}

/// Dropping a classified value does not panic.
#[test]
fn sensitive_data_clears_on_drop() {
    let data = ClassifiedData::new(vec![1u8, 2, 3]);
    assert_eq!(data.expose().as_slice(), &[1, 2, 3]);

    drop(data);
}

#[test]
fn classified_eq_through_trait() {
    let a = ClassifiedData::new(b"token".to_vec());
    let b = ClassifiedData::new(b"token".to_vec());
    let c = ClassifiedData::new(b"other".to_vec());
    assert!(a.classified_eq(&b));
    assert!(!a.classified_eq(&c));
}

#[test]
fn redacted_debug_is_fixed_for_every_payload() {
    let empty = ClassifiedData::new(vec![]);
    let small = ClassifiedData::new(vec![7u8]);
    let large = ClassifiedData::new(vec![0xAB; 65536]);
    assert_eq!(empty.redacted_debug(), "ClassifiedData(<redacted>)");
    assert_eq!(small.redacted_debug(), "ClassifiedData(<redacted>)");
    assert_eq!(large.redacted_debug(), "ClassifiedData(<redacted>)");
}

#[test]
fn duplicate_copies_contents() {
    let a = ClassifiedData::new(b"copy me".to_vec());
    let b = a.duplicate();
    assert_eq!(a.expose(), b.expose());
}

/// Scoped mutation applies the function to the stored bytes and seals
/// the result back in.
#[test]
fn scoped_mutate_replaces_contents() {
    let mut secret = ClassifiedData::new(b"v1".to_vec());
    secret.scoped_mutate(|mut v| {
        v.push(b'!');
        v
    });
    assert_eq!(secret.expose().as_slice(), b"v1!");
}

#[test]
fn is_empty_reflects_contents() {
    assert!(ClassifiedData::new(vec![]).is_empty());
    assert!(!ClassifiedData::new(vec![0]).is_empty());
}

#[test]
fn test_new_and_expose() {
    let original = vec![1u8; 32];
    let sensitive = SizedClassifiedData::new(original.clone());
    assert_eq!(sensitive.expose(), &original);
}

#[test]
fn test_expose_mut() {
    let mut sensitive = SizedClassifiedData::new(vec![0u8; 32]);
    sensitive.expose_mut()[0] = 42;
    assert_eq!(sensitive.expose()[0], 42);
}

#[test]
fn test_into_data_consumes_and_prevents_drop() {
    let data = vec![7u8; 32];
    let sensitive = SizedClassifiedData::new(data.clone());
    let result = sensitive.into_data();
    assert_eq!(result, data);
}

#[test]
fn test_debug_does_not_leak() {
    let sensitive = SizedClassifiedData::new(vec![1u8; 32]);
    let debug_output = sensitive.redacted_debug();
    assert_eq!(debug_output, "SizedClassifiedData(<REDACTED>)");
}

/// Scrubbing leaves nothing of the payload behind.
#[test]
fn scrub_empties_the_buffer() {
    let mut sensitive = SizedClassifiedData::new(b"ephemeral key".to_vec());
    sensitive.scrub();
    assert!(sensitive.expose().is_empty());
}

#[test]
fn exposes_value_and_increments_count() {
    let mut sensitive = ExposureAwareClassifiedData::new(vec![12u8, 34]);
    let before = sensitive.exposure_count();
    assert_eq!(sensitive.expose(), vec![12u8, 34]);
    let after = sensitive.exposure_count();
    assert_eq!(after, before + 1);
}

#[test]
fn clone_preserves_value_but_not_count() {
    let mut sensitive = ExposureAwareClassifiedData::new(b"secure".to_vec());
    let mut cloned = sensitive.duplicate();
    assert_eq!(cloned.exposure_count(), 0);
    assert_eq!(sensitive.expose(), cloned.expose());
}

#[test]
fn debug_is_redacted() {
    let data = ExposureAwareClassifiedData::new(vec![1, 2, 3]);
    let dbg = data.redacted_debug();
    assert_eq!(dbg, "ExposureAwareClassifiedData(<REDACTED>)");
}

#[test]
fn ct_eq_works_as_expected() {
    let a = ExposureAwareClassifiedData::new(vec![1, 2, 3]);
    let b = ExposureAwareClassifiedData::new(vec![1, 2, 3]);
    let c = ExposureAwareClassifiedData::new(vec![4, 5, 6]);

    assert!(a.ct_eq(&b));
    assert!(!a.ct_eq(&c));
}

#[test]
fn async_update_clones_and_modifies() {
    let mut data = ExposureAwareClassifiedData::new(vec![10, 20, 30]);
    data.update(|mut v| {
        v[0] = 42;
        v
    });

    assert_eq!(data.expose(), vec![10u8, 20, 30]);
}

/// A purpose-tagged exposure appends one audit record carrying the
/// declared purpose and the counter at the time of the exposure.
#[test]
fn expose_for_records_the_purpose() {
    let mut sensitive = ExposureAwareClassifiedData::new(b"signing key".to_vec());
    let _ = sensitive.expose();
    let copy = sensitive.expose_for(ExposurePurpose::Signing);
    assert_eq!(copy, b"signing key".to_vec());
    assert_eq!(sensitive.exposure_count(), 2);
    let log = sensitive.audit_log();
    assert_eq!(log.len(), 1);
    assert_eq!(log[0].counter, 1);
    assert_eq!(log[0].purpose, ExposurePurpose::Signing);
}
