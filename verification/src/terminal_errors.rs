//! Decoding the refusal a replay capsule recorded as its terminal outcome:
//! its error code, message key, correlation and retryability from the
//! replay row, and its message parameters and current-version extensions
//! from their own rows, each numbered from 0 in order.

use vstd::prelude::*;
use crate::errors::ErrorCode;
use crate::load_error::ActionPersistenceLoadError;
use crate::text::{opt_string, str_eq};

verus! {

/// The value of one message parameter.
#[derive(Debug)]
pub enum SafeParamValue {
    Identifier(String),
    FieldKey(String),
    Unsigned(u64),
    Boolean(bool),
}

pub enum SafeParamView {
    Identifier(Seq<char>),
    FieldKey(Seq<char>),
    Unsigned(u64),
    Boolean(bool),
}

impl View for SafeParamValue {
    type V = SafeParamView;

    open spec fn view(&self) -> SafeParamView {
        match self {
            SafeParamValue::Identifier(text) => SafeParamView::Identifier(text@),
            SafeParamValue::FieldKey(text) => SafeParamView::FieldKey(text@),
            SafeParamValue::Unsigned(value) => SafeParamView::Unsigned(*value),
            SafeParamValue::Boolean(value) => SafeParamView::Boolean(*value),
        }
    }
}

/// One named message parameter.
#[derive(Debug)]
pub struct MessageParam {
    pub key: String,
    pub value: SafeParamValue,
}

pub struct MessageParamView {
    pub key: Seq<char>,
    pub value: SafeParamView,
}

impl View for MessageParam {
    type V = MessageParamView;

    open spec fn view(&self) -> MessageParamView {
        MessageParamView { key: self.key@, value: self.value@ }
    }
}

/// A recorded refusal: its code, message key and correlation, whether it
/// may succeed when retried, its message parameters and the current
/// versions it reports, each in order.
#[derive(Debug)]
pub struct TerminalError {
    pub code: ErrorCode,
    pub message_key: String,
    pub correlation_id: String,
    pub retryable: bool,
    pub params: Vec<MessageParam>,
    pub current_versions: Vec<u64>,
}

pub struct TerminalErrorView {
    pub code: ErrorCode,
    pub message_key: Seq<char>,
    pub correlation_id: Seq<char>,
    pub retryable: bool,
    pub params: Seq<MessageParamView>,
    pub current_versions: Seq<u64>,
}

impl View for TerminalError {
    type V = TerminalErrorView;

    open spec fn view(&self) -> TerminalErrorView {
        TerminalErrorView {
            code: self.code,
            message_key: self.message_key@,
            correlation_id: self.correlation_id@,
            retryable: self.retryable,
            params: self.params@.map_values(|p: MessageParam| p@),
            current_versions: self.current_versions@,
        }
    }
}

impl Clone for SafeParamValue {
    fn clone(&self) -> (copy: Self)
        ensures
            copy@ == self@,
    {
        match self {
            SafeParamValue::Identifier(text) => SafeParamValue::Identifier(text.clone()),
            SafeParamValue::FieldKey(text) => SafeParamValue::FieldKey(text.clone()),
            SafeParamValue::Unsigned(value) => SafeParamValue::Unsigned(*value),
            SafeParamValue::Boolean(value) => SafeParamValue::Boolean(*value),
        }
    }
}

impl Clone for MessageParam {
    fn clone(&self) -> (copy: Self)
        ensures
            copy@ == self@,
    {
        MessageParam { key: self.key.clone(), value: self.value.clone() }
    }
}

impl Clone for TerminalError {
    fn clone(&self) -> (copy: Self)
        ensures
            copy@ == self@,
    {
        let mut params: Vec<MessageParam> = Vec::new();
        let n = self.params.len();
        let mut i: usize = 0;
        while i < n
            invariant
                n == self.params@.len(),
                i <= n,
                params@.len() == i,
                forall|k: int| 0 <= k < i ==> #[trigger] params@[k]@ == self.params@[k]@,
            decreases n - i,
        {
            params.push(self.params[i].clone());
            i = i + 1;
        }
        let mut versions: Vec<u64> = Vec::new();
        let m = self.current_versions.len();
        let mut j: usize = 0;
        while j < m
            invariant
                m == self.current_versions@.len(),
                j <= m,
                versions@ == self.current_versions@.take(j as int),
            decreases m - j,
        {
            versions.push(self.current_versions[j]);
            proof {
                assert(self.current_versions@.take(j + 1) =~= self.current_versions@.take(
                    j as int,
                ).push(self.current_versions@[j as int]));
            }
            j = j + 1;
        }
        let copy = TerminalError {
            code: self.code,
            message_key: self.message_key.clone(),
            correlation_id: self.correlation_id.clone(),
            retryable: self.retryable,
            params,
            current_versions: versions,
        };
        proof {
            assert(self.current_versions@.take(m as int) =~= self.current_versions@);
            assert(copy@.params =~= self@.params);
        }
        copy
    }
}

/// One `action_replay_error_params` row.
#[derive(Debug)]
pub struct ErrorParamRow {
    pub ordinal: i64,
    pub param_key: String,
    pub param_kind: String,
    pub param_text: Option<String>,
    pub param_unsigned: Option<i64>,
    pub param_boolean: Option<i64>,
}

/// One `action_replay_error_extensions` row.
#[derive(Debug)]
pub struct ErrorExtensionRow {
    pub ordinal: i64,
    pub extension_kind: String,
    pub current_version: Option<i64>,
    pub field_key: Option<String>,
    pub reason_key: Option<String>,
}

/// A persisted flag: 0 is false and 1 is true.
pub open spec fn flag(value: Option<i64>) -> Option<bool> {
    match value {
        Some(0) => Some(false),
        Some(1) => Some(true),
        _ => None,
    }
}

/// The parameter row `row` at place `index` holds: its ordinal is its
/// place; an identifier or a field key carries text, an unsigned value a
/// non-negative number and a boolean a flag.
pub open spec fn decoded_param(row: ErrorParamRow, index: int) -> Option<MessageParamView> {
    if row.ordinal != index {
        None
    } else {
        let value = if row.param_kind@ == "identifier"@ {
            match opt_string(row.param_text) {
                Some(text) => Some(SafeParamView::Identifier(text)),
                None => None,
            }
        } else if row.param_kind@ == "field_key"@ {
            match opt_string(row.param_text) {
                Some(text) => Some(SafeParamView::FieldKey(text)),
                None => None,
            }
        } else if row.param_kind@ == "unsigned"@ {
            match row.param_unsigned {
                Some(n) => if n >= 0 {
                    Some(SafeParamView::Unsigned(n as u64))
                } else {
                    None
                },
                None => None,
            }
        } else if row.param_kind@ == "boolean"@ {
            match flag(row.param_boolean) {
                Some(b) => Some(SafeParamView::Boolean(b)),
                None => None,
            }
        } else {
            None
        };
        match value {
            Some(v) => Some(MessageParamView { key: row.param_key@, value: v }),
            None => None,
        }
    }
}

/// The version the extension row `row` at place `index` reports: its
/// ordinal is its place, it is a current-version extension with a
/// version of at least 1, and no field or reason key.
pub open spec fn decoded_extension(row: ErrorExtensionRow, index: int) -> Option<u64> {
    if row.ordinal == index && row.extension_kind@ == "current_version"@ && row.field_key is None
        && row.reason_key is None && row.current_version is Some && row.current_version->Some_0
        >= 1 {
        Some(row.current_version->Some_0 as u64)
    } else {
        None
    }
}

/// What decoding a recorded refusal gives: the error its columns and rows
/// hold, or an invalid snapshot where a code is unknown, the key or the
/// correlation is missing, the retry flag is not 0 or 1, a parameter or
/// an extension row does not decode, or a private detail was kept.
pub open spec fn terminal_error_model(
    code: Option<Seq<char>>,
    key: Option<Seq<char>>,
    correlation: Option<Seq<char>>,
    retryable: Option<i64>,
    private_detail: Option<Seq<char>>,
    params: Seq<ErrorParamRow>,
    extensions: Seq<ErrorExtensionRow>,
) -> Result<TerminalErrorView, ActionPersistenceLoadError> {
    let decoded_code = match code {
        Some(text) => ErrorCode::decoded(text),
        None => None,
    };
    if decoded_code is Some && key is Some && correlation is Some && flag(retryable) is Some
        && (forall|i: int| 0 <= i < params.len() ==> #[trigger] decoded_param(params[i], i) is Some)
        && (forall|i: int|
        0 <= i < extensions.len() ==> #[trigger] decoded_extension(extensions[i], i) is Some)
        && private_detail is None {
        Ok(
            TerminalErrorView {
                code: decoded_code->Some_0,
                message_key: key->Some_0,
                correlation_id: correlation->Some_0,
                retryable: flag(retryable)->Some_0,
                params: Seq::new(params.len(), |i: int| decoded_param(params[i], i)->Some_0),
                current_versions: Seq::new(
                    extensions.len(),
                    |i: int| decoded_extension(extensions[i], i)->Some_0,
                ),
            },
        )
    } else {
        Err(ActionPersistenceLoadError::InvalidActionSnapshot)
    }
}

pub open spec fn terminal_result_view(result: Result<TerminalError, ActionPersistenceLoadError>) -> Result<
    TerminalErrorView,
    ActionPersistenceLoadError,
> {
    match result {
        Ok(error) => Ok(error@),
        Err(error) => Err(error),
    }
}

fn decode_flag(value: Option<i64>) -> (result: Option<bool>)
    ensures
        result == flag(value),
{
    match value {
        Some(0) => Some(false),
        Some(1) => Some(true),
        _ => None,
    }
}

fn decode_param(row: &ErrorParamRow, index: usize) -> (result: Option<MessageParam>)
    ensures
        match result {
            Some(param) => decoded_param(*row, index as int) == Some(param@),
            None => decoded_param(*row, index as int) is None,
        },
{
    if (row.ordinal as i128) != (index as i128) {
        return None;
    }
    let value = if str_eq(row.param_kind.as_str(), "identifier") {
        match &row.param_text {
            Some(text) => SafeParamValue::Identifier(text.clone()),
            None => {
                return None;
            },
        }
    } else if str_eq(row.param_kind.as_str(), "field_key") {
        match &row.param_text {
            Some(text) => SafeParamValue::FieldKey(text.clone()),
            None => {
                return None;
            },
        }
    } else if str_eq(row.param_kind.as_str(), "unsigned") {
        match row.param_unsigned {
            Some(n) => if n >= 0 {
                SafeParamValue::Unsigned(n as u64)
            } else {
                return None;
            },
            None => {
                return None;
            },
        }
    } else if str_eq(row.param_kind.as_str(), "boolean") {
        match decode_flag(row.param_boolean) {
            Some(b) => SafeParamValue::Boolean(b),
            None => {
                return None;
            },
        }
    } else {
        return None;
    };
    Some(MessageParam { key: row.param_key.clone(), value })
}

fn decode_extension(row: &ErrorExtensionRow, index: usize) -> (result: Option<u64>)
    ensures
        result == decoded_extension(*row, index as int),
{
    if (row.ordinal as i128) == (index as i128) && str_eq(row.extension_kind.as_str(), "current_version")
        && row.field_key.is_none() && row.reason_key.is_none() {
        match row.current_version {
            Some(version) => if version >= 1 {
                Some(version as u64)
            } else {
                None
            },
            None => None,
        }
    } else {
        None
    }
}

/// Decodes a recorded refusal from its replay-row columns and its
/// parameter and extension rows, each given in ordinal order.
pub fn decode_terminal_error(
    code: Option<String>,
    key: Option<String>,
    correlation: Option<String>,
    retryable: Option<i64>,
    private_detail: Option<String>,
    params: &Vec<ErrorParamRow>,
    extensions: &Vec<ErrorExtensionRow>,
) -> (result: Result<TerminalError, ActionPersistenceLoadError>)
    ensures
        terminal_result_view(result) == terminal_error_model(
            opt_string(code),
            opt_string(key),
            opt_string(correlation),
            retryable,
            opt_string(private_detail),
            params@,
            extensions@,
        ),
{
    let decoded_code = match &code {
        Some(text) => ErrorCode::from_persisted(text.as_str()),
        None => None,
    };
    let code = match decoded_code {
        Some(code) => code,
        None => {
            return Err(ActionPersistenceLoadError::InvalidActionSnapshot);
        },
    };
    let message_key = match key {
        Some(key) => key,
        None => {
            return Err(ActionPersistenceLoadError::InvalidActionSnapshot);
        },
    };
    let correlation_id = match correlation {
        Some(correlation) => correlation,
        None => {
            return Err(ActionPersistenceLoadError::InvalidActionSnapshot);
        },
    };
    let retryable = match decode_flag(retryable) {
        Some(flag) => flag,
        None => {
            return Err(ActionPersistenceLoadError::InvalidActionSnapshot);
        },
    };
    let ghost param_rows = params@;
    let mut decoded_params: Vec<MessageParam> = Vec::new();
    let n = params.len();
    let mut i: usize = 0;
    while i < n
        invariant
            n == params@.len(),
            param_rows == params@,
            i <= n,
            decoded_params@.len() == i,
            forall|k: int| 0 <= k < i ==> #[trigger] decoded_param(param_rows[k], k) == Some(
                decoded_params@[k]@,
            ),
        decreases n - i,
    {
        match decode_param(&params[i], i) {
            Some(param) => {
                decoded_params.push(param);
            },
            None => {
                return Err(ActionPersistenceLoadError::InvalidActionSnapshot);
            },
        }
        i = i + 1;
    }
    let ghost extension_rows = extensions@;
    let mut versions: Vec<u64> = Vec::new();
    let m = extensions.len();
    let mut j: usize = 0;
    while j < m
        invariant
            m == extensions@.len(),
            extension_rows == extensions@,
            j <= m,
            versions@.len() == j,
            forall|k: int| 0 <= k < j ==> #[trigger] decoded_extension(extension_rows[k], k) == Some(
                versions@[k],
            ),
        decreases m - j,
    {
        match decode_extension(&extensions[j], j) {
            Some(version) => {
                versions.push(version);
            },
            None => {
                return Err(ActionPersistenceLoadError::InvalidActionSnapshot);
            },
        }
        j = j + 1;
    }
    if private_detail.is_some() {
        return Err(ActionPersistenceLoadError::InvalidActionSnapshot);
    }
    let error = TerminalError {
        code,
        message_key,
        correlation_id,
        retryable,
        params: decoded_params,
        current_versions: versions,
    };
    proof {
        assert(error@.params =~= Seq::new(
            params@.len(),
            |k: int| decoded_param(params@[k], k)->Some_0,
        ));
        assert(error@.current_versions =~= Seq::new(
            extensions@.len(),
            |k: int| decoded_extension(extensions@[k], k)->Some_0,
        ));
    }
    Ok(error)
}

// ---------------------------------------------------------------------------
// Recording a refusal
// ---------------------------------------------------------------------------

/// The columns and rows a refusal is recorded as.
#[derive(Debug)]
pub struct EncodedTerminalError {
    pub code: String,
    pub message_key: String,
    pub correlation_id: String,
    pub retryable: i64,
    pub params: Vec<ErrorParamRow>,
    pub extensions: Vec<ErrorExtensionRow>,
}

/// Whether `row` records the parameter `param` at place `index`: text for
/// an identifier or a field key, the number for an unsigned value (which
/// must fit the column), 0 or 1 for a boolean, and nothing else.
pub open spec fn param_row_encodes(row: ErrorParamRow, index: int, param: MessageParamView) -> bool {
    &&& row.ordinal == index
    &&& row.param_key@ == param.key
    &&& match param.value {
        SafeParamView::Identifier(text) => row.param_kind@ == "identifier"@ && opt_string(
            row.param_text,
        ) == Some(text) && row.param_unsigned is None && row.param_boolean is None,
        SafeParamView::FieldKey(text) => row.param_kind@ == "field_key"@ && opt_string(
            row.param_text,
        ) == Some(text) && row.param_unsigned is None && row.param_boolean is None,
        SafeParamView::Unsigned(n) => row.param_kind@ == "unsigned"@ && row.param_text is None
            && n <= i64::MAX && row.param_unsigned == Some(n as i64) && row.param_boolean is None,
        SafeParamView::Boolean(b) => row.param_kind@ == "boolean"@ && row.param_text is None
            && row.param_unsigned is None && row.param_boolean == Some(
            if b {
                1i64
            } else {
                0i64
            },
        ),
    }
}

/// Whether `row` records the current version `version` at place `index`.
pub open spec fn extension_row_encodes(row: ErrorExtensionRow, index: int, version: u64) -> bool {
    &&& row.ordinal == index
    &&& row.extension_kind@ == "current_version"@
    &&& version <= i64::MAX
    &&& row.current_version == Some(version as i64)
    &&& row.field_key is None
    &&& row.reason_key is None
}

/// Whether `encoded` records the refusal `error`.
pub open spec fn encodes(encoded: EncodedTerminalError, error: TerminalErrorView) -> bool {
    &&& encoded.code@ == error.code.persisted()
    &&& encoded.message_key@ == error.message_key
    &&& encoded.correlation_id@ == error.correlation_id
    &&& encoded.retryable == (if error.retryable {
        1i64
    } else {
        0i64
    })
    &&& encoded.params@.len() == error.params.len()
    &&& forall|i: int|
        0 <= i < error.params.len() ==> #[trigger] param_row_encodes(
            encoded.params@[i],
            i,
            error.params[i],
        )
    &&& encoded.extensions@.len() == error.current_versions.len()
    &&& forall|i: int|
        0 <= i < error.current_versions.len() ==> #[trigger] extension_row_encodes(
            encoded.extensions@[i],
            i,
            error.current_versions[i],
        )
}

/// Whether the number a parameter carries, if any, fits its column.
pub open spec fn param_fits(param: MessageParamView) -> bool {
    match param.value {
        SafeParamView::Unsigned(n) => n <= i64::MAX,
        _ => true,
    }
}

/// Whether every number a refusal carries fits the columns it is recorded
/// in.
pub open spec fn fits_columns(error: TerminalErrorView) -> bool {
    &&& error.params.len() <= i64::MAX
    &&& error.current_versions.len() <= i64::MAX
    &&& forall|i: int| 0 <= i < error.params.len() ==> #[trigger] param_fits(error.params[i])
    &&& forall|i: int|
        0 <= i < error.current_versions.len() ==> #[trigger] error.current_versions[i] <= i64::MAX
}

fn encode_param(param: &MessageParam, index: usize) -> (row: Option<ErrorParamRow>)
    requires
        index <= i64::MAX,
    ensures
        row is Some <==> param_fits(param@),
        row matches Some(r) ==> param_row_encodes(r, index as int, param@),
{
    let (kind, text, unsigned, boolean): (&str, Option<String>, Option<i64>, Option<i64>) =
        match &param.value {
        SafeParamValue::Identifier(value) => ("identifier", Some(value.clone()), None, None),
        SafeParamValue::FieldKey(value) => ("field_key", Some(value.clone()), None, None),
        SafeParamValue::Unsigned(value) => {
            if *value > i64::MAX as u64 {
                return None;
            }
            ("unsigned", None, Some(*value as i64), None)
        },
        SafeParamValue::Boolean(value) => ("boolean", None, None, Some(
            if *value {
                1i64
            } else {
                0i64
            },
        )),
    };
    Some(
        ErrorParamRow {
            ordinal: index as i64,
            param_key: param.key.clone(),
            param_kind: kind.to_string(),
            param_text: text,
            param_unsigned: unsigned,
            param_boolean: boolean,
        },
    )
}

/// Records a refusal as columns and rows; none where a number it carries
/// does not fit its column.
pub fn encode_terminal_error(error: &TerminalError) -> (result: Option<EncodedTerminalError>)
    ensures
        result is Some <==> fits_columns(error@),
        result matches Some(encoded) ==> encodes(encoded, error@),
{
    let ghost view = error@;
    if error.params.len() as u128 > i64::MAX as u128 || error.current_versions.len() as u128
        > i64::MAX as u128 {
        return None;
    }
    let mut params: Vec<ErrorParamRow> = Vec::new();
    let n = error.params.len();
    let mut i: usize = 0;
    while i < n
        invariant
            n == error.params@.len(),
            n <= i64::MAX,
            view == error@,
            i <= n,
            params@.len() == i,
            forall|k: int| 0 <= k < i ==> #[trigger] param_row_encodes(params@[k], k, view.params[k]),
            forall|k: int| 0 <= k < i ==> #[trigger] param_fits(view.params[k]),
        decreases n - i,
    {
        assert(view.params[i as int] == error.params@[i as int]@);
        match encode_param(&error.params[i], i) {
            Some(row) => {
                params.push(row);
            },
            None => {
                return None;
            },
        }
        i = i + 1;
    }
    let mut extensions: Vec<ErrorExtensionRow> = Vec::new();
    let m = error.current_versions.len();
    let mut j: usize = 0;
    while j < m
        invariant
            m == error.current_versions@.len(),
            m <= i64::MAX,
            n == error.params@.len(),
            n <= i64::MAX,
            params@.len() == n,
            forall|k: int| 0 <= k < n ==> #[trigger] param_row_encodes(params@[k], k, view.params[k]),
            forall|k: int| 0 <= k < n ==> #[trigger] param_fits(view.params[k]),
            view == error@,
            j <= m,
            extensions@.len() == j,
            forall|k: int|
                0 <= k < j ==> #[trigger] extension_row_encodes(
                    extensions@[k],
                    k,
                    view.current_versions[k],
                ),
            forall|k: int| 0 <= k < j ==> #[trigger] view.current_versions[k] <= i64::MAX,
        decreases m - j,
    {
        let version = error.current_versions[j];
        if version > i64::MAX as u64 {
            return None;
        }
        extensions.push(
            ErrorExtensionRow {
                ordinal: j as i64,
                extension_kind: "current_version".to_string(),
                current_version: Some(version as i64),
                field_key: None,
                reason_key: None,
            },
        );
        j = j + 1;
    }
    Some(
        EncodedTerminalError {
            code: error.code.as_persisted().to_string(),
            message_key: error.message_key.clone(),
            correlation_id: error.correlation_id.clone(),
            retryable: if error.retryable {
                1
            } else {
                0
            },
            params,
            extensions,
        },
    )
}

/// A recorded refusal reads back as the refusal it records: the columns
/// and rows that record a refusal whose current versions are all at least
/// 1 decode to exactly that refusal.
pub proof fn lemma_terminal_error_round_trip(encoded: EncodedTerminalError, error: TerminalErrorView)
    requires
        encodes(encoded, error),
        forall|i: int| 0 <= i < error.current_versions.len() ==> #[trigger] error.current_versions[i]
            >= 1,
    ensures
        terminal_error_model(
            Some(encoded.code@),
            Some(encoded.message_key@),
            Some(encoded.correlation_id@),
            Some(encoded.retryable),
            None,
            encoded.params@,
            encoded.extensions@,
        ) == Ok::<TerminalErrorView, ActionPersistenceLoadError>(error),
{
    crate::errors::lemma_error_code_text_round_trip(error.code, encoded.code@);
    reveal_strlit("identifier");
    reveal_strlit("field_key");
    reveal_strlit("unsigned");
    reveal_strlit("boolean");
    assert("identifier"@.len() == 10);
    assert("field_key"@.len() == 9);
    assert("unsigned"@.len() == 8);
    assert("boolean"@.len() == 7);
    assert forall|i: int| 0 <= i < encoded.params@.len() implies #[trigger] decoded_param(
        encoded.params@[i],
        i,
    ) == Some(error.params[i]) by {
        assert(param_row_encodes(encoded.params@[i], i, error.params[i]));
    }
    assert forall|i: int| 0 <= i < encoded.extensions@.len() implies #[trigger] decoded_extension(
        encoded.extensions@[i],
        i,
    ) == Some(error.current_versions[i]) by {
        assert(extension_row_encodes(encoded.extensions@[i], i, error.current_versions[i]));
    }
    let decoded = terminal_error_model(
        Some(encoded.code@),
        Some(encoded.message_key@),
        Some(encoded.correlation_id@),
        Some(encoded.retryable),
        None,
        encoded.params@,
        encoded.extensions@,
    );
    assert(decoded->Ok_0.params =~= error.params);
    assert(decoded->Ok_0.current_versions =~= error.current_versions);
}

} // verus!
