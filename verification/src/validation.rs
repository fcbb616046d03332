//! The rules that a restaurant, a review or a user record must meet before
//! it is stored.

use vstd::prelude::*;
use vstd::string::*;
use crate::text::{blank, has_char, is_blank, same_text};

verus! {

/// The rule that a record broke.
#[derive(Clone, Copy, Debug, PartialEq, Eq, Structural)]
pub enum ValidationError {
    RestaurantNameRequired,
    CategoryRequired,
    AddressRequired,
    BusinessHoursRequired,
    InvalidCategory,
    RestaurantIdRequired,
    UserIdRequired,
    UserNameRequired,
    RatingOutOfRange,
    AtmosphereRatingOutOfRange,
    TasteRatingOutOfRange,
    ServiceRatingOutOfRange,
    ValuePriceRatingOutOfRange,
    CleanlinessRatingOutOfRange,
    VisitDateFormat,
    InvalidEmail,
}

impl ValidationError {
    /// The text shown for this error. For `InvalidCategory` the category
    /// that was refused follows it.
    pub open spec fn text(self) -> Seq<char> {
        match self {
            ValidationError::RestaurantNameRequired => "Restaurant name is required"@,
            ValidationError::CategoryRequired => "Restaurant category is required"@,
            ValidationError::AddressRequired => "Restaurant address is required"@,
            ValidationError::BusinessHoursRequired => "Business hours are required"@,
            ValidationError::InvalidCategory => "Invalid category: "@,
            ValidationError::RestaurantIdRequired => "Restaurant ID is required"@,
            ValidationError::UserIdRequired => "User ID is required"@,
            ValidationError::UserNameRequired => "User name is required"@,
            ValidationError::RatingOutOfRange => "Rating must be between 1 and 5"@,
            ValidationError::AtmosphereRatingOutOfRange => "Atmosphere rating must be between 1 and 5"@,
            ValidationError::TasteRatingOutOfRange => "Taste rating must be between 1 and 5"@,
            ValidationError::ServiceRatingOutOfRange => "Service rating must be between 1 and 5"@,
            ValidationError::ValuePriceRatingOutOfRange => "Value/price rating must be between 1 and 5"@,
            ValidationError::CleanlinessRatingOutOfRange => "Cleanliness rating must be between 1 and 5"@,
            ValidationError::VisitDateFormat => "Visit date must be in YYYY-MM-DD format"@,
            ValidationError::InvalidEmail => "Invalid email format"@,
        }
    }

    pub fn message(&self) -> (s: String)
        ensures
            s@ == self.text(),
    {
        match self {
            ValidationError::RestaurantNameRequired => String::from_str("Restaurant name is required"),
            ValidationError::CategoryRequired => String::from_str("Restaurant category is required"),
            ValidationError::AddressRequired => String::from_str("Restaurant address is required"),
            ValidationError::BusinessHoursRequired => String::from_str("Business hours are required"),
            ValidationError::InvalidCategory => String::from_str("Invalid category: "),
            ValidationError::RestaurantIdRequired => String::from_str("Restaurant ID is required"),
            ValidationError::UserIdRequired => String::from_str("User ID is required"),
            ValidationError::UserNameRequired => String::from_str("User name is required"),
            ValidationError::RatingOutOfRange => String::from_str("Rating must be between 1 and 5"),
            ValidationError::AtmosphereRatingOutOfRange => String::from_str(
                "Atmosphere rating must be between 1 and 5",
            ),
            ValidationError::TasteRatingOutOfRange => String::from_str(
                "Taste rating must be between 1 and 5",
            ),
            ValidationError::ServiceRatingOutOfRange => String::from_str(
                "Service rating must be between 1 and 5",
            ),
            ValidationError::ValuePriceRatingOutOfRange => String::from_str(
                "Value/price rating must be between 1 and 5",
            ),
            ValidationError::CleanlinessRatingOutOfRange => String::from_str(
                "Cleanliness rating must be between 1 and 5",
            ),
            ValidationError::VisitDateFormat => String::from_str(
                "Visit date must be in YYYY-MM-DD format",
            ),
            ValidationError::InvalidEmail => String::from_str("Invalid email format"),
        }
    }
}

/// The kind of record that a collection holds.
#[derive(Clone, Copy, Debug, PartialEq, Eq, Structural)]
pub enum RecordKind {
    Restaurant,
    Review,
    User,
    /// A collection without rules: every record is accepted.
    Other,
}

pub open spec fn record_kind_spec(collection: Seq<char>) -> RecordKind {
    if collection == "restaurants"@ {
        RecordKind::Restaurant
    } else if collection == "reviews"@ {
        RecordKind::Review
    } else if collection == "users"@ {
        RecordKind::User
    } else {
        RecordKind::Other
    }
}

/// The kind of record that the named collection holds.
pub fn record_kind(collection: &str) -> (kind: RecordKind)
    ensures
        kind == record_kind_spec(collection@),
{
    if same_text(collection, "restaurants") {
        RecordKind::Restaurant
    } else if same_text(collection, "reviews") {
        RecordKind::Review
    } else if same_text(collection, "users") {
        RecordKind::User
    } else {
        RecordKind::Other
    }
}

/// What the rules read of a restaurant record. The coordinates are not
/// among it.
#[derive(Debug)]
pub struct RestaurantRecord {
    pub name: String,
    pub category: String,
    pub address: String,
    pub business_hours: String,
}

/// What the rules read of a review record.
#[derive(Debug)]
pub struct ReviewRecord {
    pub restaurant_id: String,
    pub user_id: String,
    pub user_name: String,
    pub rating: u8,
    pub visit_date: String,
    pub atmosphere_rating: Option<u8>,
    pub taste_rating: Option<u8>,
    pub service_rating: Option<u8>,
    pub value_price_rating: Option<u8>,
    pub cleanliness_rating: Option<u8>,
}

/// What the rules read of a user record.
#[derive(Debug)]
pub struct UserRecord {
    pub name: String,
    pub email: Option<String>,
}

/// The categories that a restaurant may have.
pub open spec fn known_category(category: Seq<char>) -> bool {
    ||| category == "和食"@
    ||| category == "洋食"@
    ||| category == "中華"@
    ||| category == "イタリアン"@
    ||| category == "フレンチ"@
    ||| category == "カフェ"@
    ||| category == "ラーメン"@
    ||| category == "焼肉"@
    ||| category == "寿司"@
    ||| category == "その他"@
}

/// Whether the category is one that a restaurant may have.
pub fn is_known_category(category: &str) -> (known: bool)
    ensures
        known == known_category(category@),
{
    same_text(category, "和食") || same_text(category, "洋食") || same_text(category, "中華")
        || same_text(category, "イタリアン") || same_text(category, "フレンチ") || same_text(
        category,
        "カフェ",
    ) || same_text(category, "ラーメン") || same_text(category, "焼肉") || same_text(
        category,
        "寿司",
    ) || same_text(category, "その他")
}

/// A rating is a number from 1 to 5.
pub open spec fn rating_in_range(rating: u8) -> bool {
    1 <= rating <= 5
}

/// A rating that is given is a number from 1 to 5.
pub open spec fn optional_rating_in_range(rating: Option<u8>) -> bool {
    match rating {
        Some(r) => rating_in_range(r),
        None => true,
    }
}

fn optional_rating_ok(rating: Option<u8>) -> (ok: bool)
    ensures
        ok == optional_rating_in_range(rating),
{
    match rating {
        Some(r) => 1 <= r && r <= 5,
        None => true,
    }
}

/// The first rule that the restaurant breaks, in the order of the checks.
pub open spec fn restaurant_verdict(r: &RestaurantRecord) -> Result<(), ValidationError> {
    if blank(r.name@) {
        Err(ValidationError::RestaurantNameRequired)
    } else if blank(r.category@) {
        Err(ValidationError::CategoryRequired)
    } else if blank(r.address@) {
        Err(ValidationError::AddressRequired)
    } else if blank(r.business_hours@) {
        Err(ValidationError::BusinessHoursRequired)
    } else if !known_category(r.category@) {
        Err(ValidationError::InvalidCategory)
    } else {
        Ok(())
    }
}

/// Checks a restaurant: name, category, address and business hours must
/// hold more than white space, and the category must be a known one.
pub fn validate_restaurant(record: &RestaurantRecord) -> (res: Result<(), ValidationError>)
    ensures
        res == restaurant_verdict(record),
{
    if is_blank(record.name.as_str()) {
        return Err(ValidationError::RestaurantNameRequired);
    }
    if is_blank(record.category.as_str()) {
        return Err(ValidationError::CategoryRequired);
    }
    if is_blank(record.address.as_str()) {
        return Err(ValidationError::AddressRequired);
    }
    if is_blank(record.business_hours.as_str()) {
        return Err(ValidationError::BusinessHoursRequired);
    }
    if !is_known_category(record.category.as_str()) {
        return Err(ValidationError::InvalidCategory);
    }
    Ok(())
}

/// The text of an error of a restaurant record: for a refused category the
/// category follows the text of the error.
pub fn restaurant_error_text(error: ValidationError, record: &RestaurantRecord) -> (s: String)
    ensures
        s@ == if error == ValidationError::InvalidCategory {
            error.text() + record.category@
        } else {
            error.text()
        },
{
    let mut s = error.message();
    if error == ValidationError::InvalidCategory {
        s.append(record.category.as_str());
    }
    s
}

/// A visit date has ten characters, a dash among them.
pub open spec fn visit_date_shaped(date: Seq<char>) -> bool {
    date.len() == 10 && date.contains('-')
}

/// The first rule that the review breaks, in the order of the checks.
pub open spec fn review_verdict(r: &ReviewRecord) -> Result<(), ValidationError> {
    if blank(r.restaurant_id@) {
        Err(ValidationError::RestaurantIdRequired)
    } else if blank(r.user_id@) {
        Err(ValidationError::UserIdRequired)
    } else if blank(r.user_name@) {
        Err(ValidationError::UserNameRequired)
    } else if !rating_in_range(r.rating) {
        Err(ValidationError::RatingOutOfRange)
    } else if !optional_rating_in_range(r.atmosphere_rating) {
        Err(ValidationError::AtmosphereRatingOutOfRange)
    } else if !optional_rating_in_range(r.taste_rating) {
        Err(ValidationError::TasteRatingOutOfRange)
    } else if !optional_rating_in_range(r.service_rating) {
        Err(ValidationError::ServiceRatingOutOfRange)
    } else if !optional_rating_in_range(r.value_price_rating) {
        Err(ValidationError::ValuePriceRatingOutOfRange)
    } else if !optional_rating_in_range(r.cleanliness_rating) {
        Err(ValidationError::CleanlinessRatingOutOfRange)
    } else if !visit_date_shaped(r.visit_date@) {
        Err(ValidationError::VisitDateFormat)
    } else {
        Ok(())
    }
}

/// Checks a review: the three identifiers must hold more than white space,
/// the rating and each rating of a part that is given must be from 1 to 5,
/// and the visit date must have the shape of a date.
pub fn validate_review(record: &ReviewRecord) -> (res: Result<(), ValidationError>)
    ensures
        res == review_verdict(record),
{
    if is_blank(record.restaurant_id.as_str()) {
        return Err(ValidationError::RestaurantIdRequired);
    }
    if is_blank(record.user_id.as_str()) {
        return Err(ValidationError::UserIdRequired);
    }
    if is_blank(record.user_name.as_str()) {
        return Err(ValidationError::UserNameRequired);
    }
    if record.rating < 1 || record.rating > 5 {
        return Err(ValidationError::RatingOutOfRange);
    }
    if !optional_rating_ok(record.atmosphere_rating) {
        return Err(ValidationError::AtmosphereRatingOutOfRange);
    }
    if !optional_rating_ok(record.taste_rating) {
        return Err(ValidationError::TasteRatingOutOfRange);
    }
    if !optional_rating_ok(record.service_rating) {
        return Err(ValidationError::ServiceRatingOutOfRange);
    }
    if !optional_rating_ok(record.value_price_rating) {
        return Err(ValidationError::ValuePriceRatingOutOfRange);
    }
    if !optional_rating_ok(record.cleanliness_rating) {
        return Err(ValidationError::CleanlinessRatingOutOfRange);
    }
    if record.visit_date.as_str().unicode_len() != 10 || !has_char(
        record.visit_date.as_str(),
        '-',
    ) {
        return Err(ValidationError::VisitDateFormat);
    }
    Ok(())
}

/// An email address holds an at sign and a dot.
pub open spec fn email_shaped(email: Seq<char>) -> bool {
    email.contains('@') && email.contains('.')
}

/// The first rule that the user breaks, in the order of the checks.
pub open spec fn user_verdict(r: &UserRecord) -> Result<(), ValidationError> {
    if blank(r.name@) {
        Err(ValidationError::UserNameRequired)
    } else if r.email is Some && !email_shaped(r.email->0@) {
        Err(ValidationError::InvalidEmail)
    } else {
        Ok(())
    }
}

/// Checks a user: the name must hold more than white space, and an email
/// address that is given must have the shape of one.
pub fn validate_user(record: &UserRecord) -> (res: Result<(), ValidationError>)
    ensures
        res == user_verdict(record),
{
    if is_blank(record.name.as_str()) {
        return Err(ValidationError::UserNameRequired);
    }
    match &record.email {
        Some(email) => {
            if !has_char(email.as_str(), '@') || !has_char(email.as_str(), '.') {
                return Err(ValidationError::InvalidEmail);
            }
        },
        None => {},
    }
    Ok(())
}

} // verus!
