//! Error kinds of the document parser.
//!
//! One distinct kind exists per grammar construct, together with a few
//! generic lexical kinds and a catch-all kind for otherwise unclassified
//! low-level failures.  A failure inside a named construct is mapped to that
//! construct's kind at the construct's boundary.

use vstd::prelude::*;

verus! {

/// Why a parse failed.
#[derive(Clone, Copy, Debug, PartialEq, Eq, Structural)]
pub enum DbcParseError {
    BadVersion,
    BadNames,
    BadBitTiming,
    BadBitTimingValue,
    BadCanNodes,
    BadSignal,
    BadMessageHeader,
    BadComment,
    BadNetworkComment,
    BadNodeComment,
    BadMessageComment,
    BadSignalComment,
    BadEnvironmentVariable,
    BadEnvironmentVariableData,
    BadEnvironmentVariableComment,
    BadSignalValueDescriptions,
    BadEnvironmentVariableValueDescriptions,
    BadAttributeIntegerValueType,
    BadAttributeHexValueType,
    BadAttributeFloatValueType,
    BadAttributeStringValueType,
    BadAttributeEnumValueType,
    BadNetworkAttribute,
    BadNodeAttribute,
    BadMessageAttribute,
    BadSignalAttribute,
    BadEnvironmentVariableAttribute,
    BadControlUnitEnvironmentVariableAttribute,
    BadNodeTxMessageAttribute,
    BadNodeMappedRxSignalAttribute,
    BadAttributeDefinitionDefault,
    BadRelationAttributeDefinitionDefault,
    BadNetworkAttributeValue,
    BadNodeAttributeValue,
    BadMessageAttributeValue,
    BadSignalAttributeValue,
    BadEnvironmentVariableAttributeValue,
    BadInt,
    BadFloat,
    BadEscape,
    Unparseable,
    InvalidCIdentifier,
    UseKeywordAsIdentifier,
}

impl DbcParseError {
    /// A short human-readable description of the error kind.
    pub fn message(&self) -> &'static str {
        match self {
            DbcParseError::BadVersion => "bad version",
            DbcParseError::BadNames => "bad names",
            DbcParseError::BadBitTiming => "bad bit timing",
            DbcParseError::BadBitTimingValue => "bad bit timing value",
            DbcParseError::BadCanNodes => "bad can nodes",
            DbcParseError::BadSignal => "bad signal",
            DbcParseError::BadMessageHeader => "bad message header",
            DbcParseError::BadComment => "bad comment",
            DbcParseError::BadNetworkComment => "bad network comment",
            DbcParseError::BadNodeComment => "bad node comment",
            DbcParseError::BadMessageComment => "bad message comment",
            DbcParseError::BadSignalComment => "bad signal comment",
            DbcParseError::BadEnvironmentVariable => "bad environment variable",
            DbcParseError::BadEnvironmentVariableData => "bad environment variable data",
            DbcParseError::BadEnvironmentVariableComment => "bad environment variable comment",
            DbcParseError::BadSignalValueDescriptions => "bad signal value descriptions",
            DbcParseError::BadEnvironmentVariableValueDescriptions => "bad environment variable value descriptions",
            DbcParseError::BadAttributeIntegerValueType => "bad attribute integer value type",
            DbcParseError::BadAttributeHexValueType => "bad attribute hex value type",
            DbcParseError::BadAttributeFloatValueType => "bad attribute float value type",
            DbcParseError::BadAttributeStringValueType => "bad attribute string value type",
            DbcParseError::BadAttributeEnumValueType => "bad attribute enum value type",
            DbcParseError::BadNetworkAttribute => "bad network attribute",
            DbcParseError::BadNodeAttribute => "bad node attribute",
            DbcParseError::BadMessageAttribute => "bad message attribute",
            DbcParseError::BadSignalAttribute => "bad signal attribute",
            DbcParseError::BadEnvironmentVariableAttribute => "bad environment variable attribute",
            DbcParseError::BadControlUnitEnvironmentVariableAttribute => "bad control unit environment variable attribute",
            DbcParseError::BadNodeTxMessageAttribute => "bad node tx message attribute",
            DbcParseError::BadNodeMappedRxSignalAttribute => "bad node mapped rx signal attribute",
            DbcParseError::BadAttributeDefinitionDefault => "bad attribute definition default",
            DbcParseError::BadRelationAttributeDefinitionDefault => "bad relation attribute definition default",
            DbcParseError::BadNetworkAttributeValue => "bad network attribute value",
            DbcParseError::BadNodeAttributeValue => "bad node attribute value",
            DbcParseError::BadMessageAttributeValue => "bad message attribute value",
            DbcParseError::BadSignalAttributeValue => "bad signal attribute value",
            DbcParseError::BadEnvironmentVariableAttributeValue => "bad environment variable attribute value",
            DbcParseError::BadInt => "bad integer",
            DbcParseError::BadFloat => "bad float",
            DbcParseError::BadEscape => "bad escape sequence",
            DbcParseError::Unparseable => "unknown parser error",
            DbcParseError::InvalidCIdentifier => "invalid c identifier",
            DbcParseError::UseKeywordAsIdentifier => "invalid dbc identifier",
        }
    }
}

} // verus!
