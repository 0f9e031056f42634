use pmc_ledger::errors::ErrorCode;
use pmc_ledger::load_error::ActionPersistenceLoadError;
use pmc_ledger::terminal_errors::{decode_terminal_error, ErrorExtensionRow, ErrorParamRow, SafeParamValue};

fn param(ordinal: i64, key: &str, kind: &str, text: Option<&str>, unsigned: Option<i64>, boolean: Option<i64>) -> ErrorParamRow {
    ErrorParamRow {
        ordinal,
        param_key: key.to_string(),
        param_kind: kind.to_string(),
        param_text: text.map(|t| t.to_string()),
        param_unsigned: unsigned,
        param_boolean: boolean,
    }
}

fn extension(ordinal: i64, version: Option<i64>) -> ErrorExtensionRow {
    ErrorExtensionRow {
        ordinal,
        extension_kind: "current_version".to_string(),
        current_version: version,
        field_key: None,
        reason_key: None,
    }
}

fn s(text: &str) -> Option<String> {
    Some(text.to_string())
}

#[test]
fn recorded_refusal_decodes() {
    let params = vec![
        param(0, "current_state", "identifier", Some("open"), None, None),
        param(1, "count", "unsigned", None, Some(3), None),
        param(2, "retry", "boolean", None, None, Some(1)),
    ];
    let error = decode_terminal_error(
        s("SECURITY_PREVIEW_EXPIRED_OR_CHANGED"),
        s("work_management.preview_expired"),
        s("corr-1"),
        Some(0),
        None,
        &params,
        &vec![extension(0, Some(4))],
    )
    .unwrap();
    assert_eq!(error.code, ErrorCode::SecurityPreviewExpiredOrChanged);
    assert_eq!(error.code.as_persisted(), "SECURITY_PREVIEW_EXPIRED_OR_CHANGED");
    assert!(!error.retryable);
    assert_eq!(error.params.len(), 3);
    assert!(matches!(&error.params[0].value, SafeParamValue::Identifier(t) if t == "open"));
    assert!(matches!(error.params[1].value, SafeParamValue::Unsigned(3)));
    assert!(matches!(error.params[2].value, SafeParamValue::Boolean(true)));
    assert_eq!(error.current_versions, vec![4]);
}

#[test]
fn malformed_refusals_are_invalid_snapshots() {
    let invalid = Err(ActionPersistenceLoadError::InvalidActionSnapshot);
    let decode = |code: Option<String>, retryable: Option<i64>, private: Option<String>, params: Vec<ErrorParamRow>, extensions: Vec<ErrorExtensionRow>| {
        decode_terminal_error(code, s("key"), s("corr"), retryable, private, &params, &extensions).map(|_| ())
    };
    assert_eq!(decode(s("NOT_A_CODE"), Some(0), None, vec![], vec![]), invalid);
    assert_eq!(decode(None, Some(0), None, vec![], vec![]), invalid);
    assert_eq!(decode(s("DOMAIN_CONFLICT"), Some(2), None, vec![], vec![]), invalid);
    assert_eq!(decode(s("DOMAIN_CONFLICT"), Some(1), s("detail"), vec![], vec![]), invalid);
    assert_eq!(decode(s("DOMAIN_CONFLICT"), Some(1), None, vec![param(1, "k", "identifier", Some("x"), None, None)], vec![]), invalid);
    assert_eq!(decode(s("DOMAIN_CONFLICT"), Some(1), None, vec![param(0, "k", "unsigned", None, Some(-1), None)], vec![]), invalid);
    assert_eq!(decode(s("DOMAIN_CONFLICT"), Some(1), None, vec![param(0, "k", "colour", Some("x"), None, None)], vec![]), invalid);
    assert_eq!(decode(s("DOMAIN_CONFLICT"), Some(1), None, vec![], vec![extension(0, Some(0))]), invalid);
    assert_eq!(decode(s("DOMAIN_CONFLICT"), Some(1), None, vec![], vec![extension(0, Some(2))]), Ok(()));
    assert_eq!(
        decode_terminal_error(s("PLATFORM_INTERNAL"), None, s("corr"), Some(1), None, &vec![], &vec![]).map(|_| ()),
        invalid
    );
}

use pmc_ledger::terminal_errors::{encode_terminal_error, MessageParam, TerminalError};

#[test]
fn recorded_refusal_reads_back() {
    let error = TerminalError {
        code: ErrorCode::DomainConflict,
        message_key: "action.domain_conflict".to_string(),
        correlation_id: "corr-7".to_string(),
        retryable: false,
        params: vec![
            MessageParam { key: "current_state".to_string(), value: SafeParamValue::FieldKey("open".to_string()) },
            MessageParam { key: "count".to_string(), value: SafeParamValue::Unsigned(9) },
            MessageParam { key: "flag".to_string(), value: SafeParamValue::Boolean(false) },
        ],
        current_versions: vec![2, 3],
    };
    let encoded = encode_terminal_error(&error).unwrap();
    assert_eq!(encoded.code, "DOMAIN_CONFLICT");
    assert_eq!(encoded.retryable, 0);
    assert_eq!(encoded.params[1].param_unsigned, Some(9));
    assert_eq!(encoded.params[2].param_boolean, Some(0));
    assert_eq!(encoded.extensions[1].ordinal, 1);
    let decoded = decode_terminal_error(
        Some(encoded.code.clone()),
        Some(encoded.message_key.clone()),
        Some(encoded.correlation_id.clone()),
        Some(encoded.retryable),
        None,
        &encoded.params,
        &encoded.extensions,
    )
    .unwrap();
    assert_eq!(decoded.code, ErrorCode::DomainConflict);
    assert_eq!(decoded.current_versions, vec![2, 3]);
    assert!(matches!(&decoded.params[0].value, SafeParamValue::FieldKey(t) if t == "open"));
}

#[test]
fn numbers_too_large_for_their_column_are_not_recorded() {
    let error = TerminalError {
        code: ErrorCode::PlatformInternal,
        message_key: "ledger.persistence_failed".to_string(),
        correlation_id: "corr-8".to_string(),
        retryable: true,
        params: vec![MessageParam { key: "n".to_string(), value: SafeParamValue::Unsigned(u64::MAX) }],
        current_versions: vec![],
    };
    assert!(encode_terminal_error(&error).is_none());
    let error = TerminalError {
        code: ErrorCode::PlatformInternal,
        message_key: "ledger.persistence_failed".to_string(),
        correlation_id: "corr-8".to_string(),
        retryable: true,
        params: vec![],
        current_versions: vec![u64::MAX],
    };
    assert!(encode_terminal_error(&error).is_none());
}
