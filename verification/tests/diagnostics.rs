use kml_rhi::vulkan::{
    disabled_validation_features, enabled_validation_features, route_debug_message, LogLevel,
    DEBUG_SEVERITY_ERROR, DEBUG_SEVERITY_INFO, DEBUG_SEVERITY_VERBOSE, DEBUG_SEVERITY_WARNING,
    DEBUG_TYPE_GENERAL, DEBUG_TYPE_PERFORMANCE, DEBUG_TYPE_VALIDATION,
    VALIDATION_FEATURE_BEST_PRACTICES, VALIDATION_FEATURE_DEBUG_PRINTF,
    VALIDATION_FEATURE_SYNCHRONIZATION_VALIDATION,
};

#[test]
fn error_severity_validation_category_routed_verbatim() {
    // A synthetic error-severity validation message reaches the error level
    // with the category bitmask and text preserved verbatim.
    let record = route_debug_message(
        DEBUG_SEVERITY_ERROR,
        DEBUG_TYPE_VALIDATION,
        String::from("descriptor set not bound"),
    );
    assert_eq!(record.level, LogLevel::Error);
    assert_eq!(record.message_types, DEBUG_TYPE_VALIDATION);
    assert_eq!(record.message, "descriptor set not bound");
    assert_eq!(record.unrecognized_severity, None);
}

#[test]
fn severity_mapping() {
    let cases = [
        (DEBUG_SEVERITY_VERBOSE, LogLevel::Trace),
        (DEBUG_SEVERITY_INFO, LogLevel::Info),
        (DEBUG_SEVERITY_WARNING, LogLevel::Warn),
        (DEBUG_SEVERITY_ERROR, LogLevel::Error),
    ];
    for (severity, level) in cases {
        let record = route_debug_message(severity, DEBUG_TYPE_GENERAL, String::from("m"));
        assert_eq!(record.level, level);
        assert_eq!(record.unrecognized_severity, None);
    }
}

#[test]
fn unrecognized_severity_logged_as_warning_with_raw_value() {
    let record = route_debug_message(0x2000, DEBUG_TYPE_PERFORMANCE, String::from("odd"));
    assert_eq!(record.level, LogLevel::Warn);
    assert_eq!(record.unrecognized_severity, Some(0x2000));
    assert_eq!(record.message_types, DEBUG_TYPE_PERFORMANCE);
    assert_eq!(record.message, "odd");
}

#[test]
fn category_bitmask_passes_through_combined() {
    let mask = DEBUG_TYPE_GENERAL | DEBUG_TYPE_VALIDATION | DEBUG_TYPE_PERFORMANCE;
    let record = route_debug_message(DEBUG_SEVERITY_INFO, mask, String::from("all"));
    assert_eq!(record.message_types, mask);
}

#[test]
fn validation_feature_selection() {
    assert_eq!(
        enabled_validation_features(),
        vec![
            VALIDATION_FEATURE_BEST_PRACTICES,
            VALIDATION_FEATURE_DEBUG_PRINTF,
            VALIDATION_FEATURE_SYNCHRONIZATION_VALIDATION,
        ]
    );
    assert!(disabled_validation_features().is_empty());
}
