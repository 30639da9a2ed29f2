//! Human-readable texts and translation keys of compliance errors.
use vstd::prelude::*;
use vstd::string::StringExecFns;

use crate::compliance::ComplianceError;

verus! {

/// The short text shown for a compliance error.
pub open spec fn compliance_error_text(e: ComplianceError) -> Seq<char> {
    match e {
        ComplianceError::NotAuthorized => "Caller is not authorized"@,
        ComplianceError::NotVerified => "User is not verified"@,
        ComplianceError::VerificationExpired => "Verification has expired"@,
        ComplianceError::HighRisk => "User has high risk level"@,
        ComplianceError::ProhibitedJurisdiction => "Jurisdiction is prohibited"@,
        ComplianceError::AlreadyVerified => "User already verified"@,
        ComplianceError::ConsentNotGiven => "Consent not given"@,
        ComplianceError::DataRetentionExpired => "Data retention period expired"@,
        ComplianceError::InvalidRiskScore => "Invalid risk score"@,
        ComplianceError::InvalidDocumentType => "Invalid document type"@,
        ComplianceError::JurisdictionNotSupported => "Jurisdiction not supported"@,
    }
}

/// The longer explanation of a compliance error.
pub open spec fn compliance_error_description(e: ComplianceError) -> Seq<char> {
    match e {
        ComplianceError::NotAuthorized => "Caller does not have permission to perform this compliance operation"@,
        ComplianceError::NotVerified => "The user has not completed verification"@,
        ComplianceError::VerificationExpired => "The user's verification has expired and needs renewal"@,
        ComplianceError::HighRisk => "The user has been assessed as high risk and is not permitted"@,
        ComplianceError::ProhibitedJurisdiction => "The user's jurisdiction is prohibited from this operation"@,
        ComplianceError::AlreadyVerified => "The user is already verified and cannot be re-verified"@,
        ComplianceError::ConsentNotGiven => "The user has not provided the required consent"@,
        ComplianceError::DataRetentionExpired => "The data retention period for this record has expired"@,
        ComplianceError::InvalidRiskScore => "The risk score provided is invalid or out of acceptable range"@,
        ComplianceError::InvalidDocumentType => "The document type is invalid or not accepted"@,
        ComplianceError::JurisdictionNotSupported => "The specified jurisdiction is not currently supported"@,
    }
}

/// The key under which translations of a compliance error's text are found.
pub open spec fn compliance_error_key(e: ComplianceError) -> Seq<char> {
    match e {
        ComplianceError::NotAuthorized => "compliance.unauthorized"@,
        ComplianceError::NotVerified => "compliance.not_verified"@,
        ComplianceError::VerificationExpired => "compliance.verification_expired"@,
        ComplianceError::HighRisk => "compliance.high_risk"@,
        ComplianceError::ProhibitedJurisdiction => "compliance.prohibited_jurisdiction"@,
        ComplianceError::AlreadyVerified => "compliance.already_verified"@,
        ComplianceError::ConsentNotGiven => "compliance.consent_not_given"@,
        ComplianceError::DataRetentionExpired => "compliance.data_retention_expired"@,
        ComplianceError::InvalidRiskScore => "compliance.invalid_risk_score"@,
        ComplianceError::InvalidDocumentType => "compliance.invalid_document_type"@,
        ComplianceError::JurisdictionNotSupported => "compliance.jurisdiction_not_supported"@,
    }
}

impl ComplianceError {
    /// The short text shown for this error.
    pub fn to_string(&self) -> (r: String)
        ensures
            r@ == compliance_error_text(*self),
    {
        let s: &str = match self {
            ComplianceError::NotAuthorized => "Caller is not authorized",
            ComplianceError::NotVerified => "User is not verified",
            ComplianceError::VerificationExpired => "Verification has expired",
            ComplianceError::HighRisk => "User has high risk level",
            ComplianceError::ProhibitedJurisdiction => "Jurisdiction is prohibited",
            ComplianceError::AlreadyVerified => "User already verified",
            ComplianceError::ConsentNotGiven => "Consent not given",
            ComplianceError::DataRetentionExpired => "Data retention period expired",
            ComplianceError::InvalidRiskScore => "Invalid risk score",
            ComplianceError::InvalidDocumentType => "Invalid document type",
            ComplianceError::JurisdictionNotSupported => "Jurisdiction not supported",
        };
        String::from_str(s)
    }

    /// The longer explanation of this error.
    pub fn error_description(&self) -> (r: &'static str)
        ensures
            r@ == compliance_error_description(*self),
    {
        match self {
            ComplianceError::NotAuthorized => "Caller does not have permission to perform this compliance operation",
            ComplianceError::NotVerified => "The user has not completed verification",
            ComplianceError::VerificationExpired => "The user's verification has expired and needs renewal",
            ComplianceError::HighRisk => "The user has been assessed as high risk and is not permitted",
            ComplianceError::ProhibitedJurisdiction => "The user's jurisdiction is prohibited from this operation",
            ComplianceError::AlreadyVerified => "The user is already verified and cannot be re-verified",
            ComplianceError::ConsentNotGiven => "The user has not provided the required consent",
            ComplianceError::DataRetentionExpired => "The data retention period for this record has expired",
            ComplianceError::InvalidRiskScore => "The risk score provided is invalid or out of acceptable range",
            ComplianceError::InvalidDocumentType => "The document type is invalid or not accepted",
            ComplianceError::JurisdictionNotSupported => "The specified jurisdiction is not currently supported",
        }
    }

    /// The key under which translations of this error's text are found.
    pub fn error_i18n_key(&self) -> (r: &'static str)
        ensures
            r@ == compliance_error_key(*self),
    {
        match self {
            ComplianceError::NotAuthorized => "compliance.unauthorized",
            ComplianceError::NotVerified => "compliance.not_verified",
            ComplianceError::VerificationExpired => "compliance.verification_expired",
            ComplianceError::HighRisk => "compliance.high_risk",
            ComplianceError::ProhibitedJurisdiction => "compliance.prohibited_jurisdiction",
            ComplianceError::AlreadyVerified => "compliance.already_verified",
            ComplianceError::ConsentNotGiven => "compliance.consent_not_given",
            ComplianceError::DataRetentionExpired => "compliance.data_retention_expired",
            ComplianceError::InvalidRiskScore => "compliance.invalid_risk_score",
            ComplianceError::InvalidDocumentType => "compliance.invalid_document_type",
            ComplianceError::JurisdictionNotSupported => "compliance.jurisdiction_not_supported",
        }
    }
}

} // verus!
