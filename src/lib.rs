//! Parsing, validating, classifying and formatting international phone numbers.

pub mod chars;
pub mod country;
pub mod country_code;
pub mod database;
pub mod decimal;
pub mod laws;
pub mod loader;
pub mod metadata;
pub mod natural;
pub mod parser;
pub mod regex;
pub mod rfc3966;
pub mod text;
pub mod validator;

mod carrier;
mod error;
mod extension;
mod formatter;
mod national_number;
mod phone_number;

pub use crate::carrier::Carrier;
pub use crate::country_code::CountryCode;
pub use crate::database::Database;
pub use crate::error::{LoadMetadata, Metadata as MetadataError, Parse as ParseError};
pub use crate::extension::Extension;
pub use crate::formatter::{format_with, Formatter, Mode};
pub use crate::metadata::Metadata;
pub use crate::national_number::NationalNumber;
pub use crate::parser::parse_with;
pub use crate::phone_number::{PhoneNumber, PhoneNumberView, Type};
pub use crate::validator::{is_valid_with, is_viable, Validation};
