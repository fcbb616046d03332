use reward_ledger::text::{is_blank, same_text};
use reward_ledger::validation::{
    is_known_category, record_kind, restaurant_error_text, validate_restaurant, validate_review,
    validate_user, RecordKind, RestaurantRecord, ReviewRecord, UserRecord, ValidationError,
};

fn restaurant() -> RestaurantRecord {
    RestaurantRecord {
        name: "Sushi Dai".to_string(),
        category: "寿司".to_string(),
        address: "Tokyo".to_string(),
        business_hours: "5-14".to_string(),
    }
}

fn review() -> ReviewRecord {
    ReviewRecord {
        restaurant_id: "rest1".to_string(),
        user_id: "alice".to_string(),
        user_name: "Alice".to_string(),
        rating: 4,
        visit_date: "2024-05-01".to_string(),
        atmosphere_rating: Some(5),
        taste_rating: None,
        service_rating: Some(1),
        value_price_rating: None,
        cleanliness_rating: Some(3),
    }
}

#[test]
fn blank_is_only_white_space() {
    assert!(is_blank(""));
    assert!(is_blank("   "));
    assert!(is_blank(" \t\r\n\u{b}\u{c}"));
    assert!(is_blank("\u{3000}\u{a0}\u{85}\u{1680}\u{2000}\u{200a}\u{2028}\u{2029}\u{202f}\u{205f}"));
    assert!(!is_blank(" x "));
    assert!(!is_blank("\u{200b}"));
    assert!(!is_blank("\u{180e}"));
    assert!(!is_blank("\u{feff}"));
    assert!(!is_blank("\u{1f}"));
}

#[test]
fn same_text_compares_characters() {
    assert!(same_text("abc", "abc"));
    assert!(!same_text("abc", "abd"));
    assert!(!same_text("abc", "ab"));
    assert!(same_text("", ""));
}

#[test]
fn collections_and_their_kinds() {
    assert_eq!(record_kind("restaurants"), RecordKind::Restaurant);
    assert_eq!(record_kind("reviews"), RecordKind::Review);
    assert_eq!(record_kind("users"), RecordKind::User);
    assert_eq!(record_kind("menus"), RecordKind::Other);
    assert_eq!(record_kind("Users"), RecordKind::Other);
    assert_eq!(record_kind(""), RecordKind::Other);
}

#[test]
fn known_categories() {
    for c in ["和食", "洋食", "中華", "イタリアン", "フレンチ", "カフェ", "ラーメン", "焼肉", "寿司", "その他"] {
        assert!(is_known_category(c));
    }
    assert!(!is_known_category("sushi"));
    assert!(!is_known_category(""));
    assert!(!is_known_category("寿司 "));
}

#[test]
fn good_restaurant_passes() {
    assert_eq!(validate_restaurant(&restaurant()), Ok(()));
}

#[test]
fn restaurant_errors_in_order() {
    let mut r = restaurant();
    r.name = "  ".to_string();
    r.category = "".to_string();
    assert_eq!(validate_restaurant(&r), Err(ValidationError::RestaurantNameRequired));
    r.name = "x".to_string();
    r.address = " ".to_string();
    assert_eq!(validate_restaurant(&r), Err(ValidationError::CategoryRequired));
    r.category = "pizza".to_string();
    assert_eq!(validate_restaurant(&r), Err(ValidationError::AddressRequired));
    r.address = "here".to_string();
    r.business_hours = "\t".to_string();
    assert_eq!(validate_restaurant(&r), Err(ValidationError::BusinessHoursRequired));
    r.business_hours = "9-17".to_string();
    assert_eq!(validate_restaurant(&r), Err(ValidationError::InvalidCategory));
    assert_eq!(
        restaurant_error_text(ValidationError::InvalidCategory, &r),
        "Invalid category: pizza"
    );
    assert_eq!(
        restaurant_error_text(ValidationError::AddressRequired, &r),
        "Restaurant address is required"
    );
}

#[test]
fn good_review_passes() {
    assert_eq!(validate_review(&review()), Ok(()));
}

#[test]
fn review_requires_its_names() {
    let mut r = review();
    r.restaurant_id = " ".to_string();
    r.user_id = "".to_string();
    assert_eq!(validate_review(&r), Err(ValidationError::RestaurantIdRequired));
    r.restaurant_id = "x".to_string();
    r.user_name = "".to_string();
    assert_eq!(validate_review(&r), Err(ValidationError::UserIdRequired));
    r.user_id = "u".to_string();
    assert_eq!(validate_review(&r), Err(ValidationError::UserNameRequired));
}

#[test]
fn review_ratings_are_one_to_five() {
    let mut r = review();
    r.rating = 0;
    assert_eq!(validate_review(&r), Err(ValidationError::RatingOutOfRange));
    r.rating = 6;
    assert_eq!(validate_review(&r), Err(ValidationError::RatingOutOfRange));
    r.rating = 1;
    assert_eq!(validate_review(&r), Ok(()));
    r.rating = 5;
    r.cleanliness_rating = Some(0);
    assert_eq!(validate_review(&r), Err(ValidationError::CleanlinessRatingOutOfRange));
    r.value_price_rating = Some(6);
    assert_eq!(validate_review(&r), Err(ValidationError::ValuePriceRatingOutOfRange));
    r.service_rating = Some(9);
    assert_eq!(validate_review(&r), Err(ValidationError::ServiceRatingOutOfRange));
    r.taste_rating = Some(0);
    assert_eq!(validate_review(&r), Err(ValidationError::TasteRatingOutOfRange));
    r.atmosphere_rating = Some(255);
    assert_eq!(validate_review(&r), Err(ValidationError::AtmosphereRatingOutOfRange));
}

#[test]
fn review_visit_date_shape() {
    let mut r = review();
    r.visit_date = "2024-5-1".to_string();
    assert_eq!(validate_review(&r), Err(ValidationError::VisitDateFormat));
    r.visit_date = "2024/05/01".to_string();
    assert_eq!(validate_review(&r), Err(ValidationError::VisitDateFormat));
    r.visit_date = "20240501-x".to_string();
    assert_eq!(validate_review(&r), Ok(()));
    r.visit_date = "".to_string();
    assert_eq!(validate_review(&r), Err(ValidationError::VisitDateFormat));
}

#[test]
fn user_rules() {
    let mut u = UserRecord { name: "Alice".to_string(), email: None };
    assert_eq!(validate_user(&u), Ok(()));
    u.email = Some("alice@example.com".to_string());
    assert_eq!(validate_user(&u), Ok(()));
    u.email = Some("alice.example.com".to_string());
    assert_eq!(validate_user(&u), Err(ValidationError::InvalidEmail));
    u.email = Some("alice@example".to_string());
    assert_eq!(validate_user(&u), Err(ValidationError::InvalidEmail));
    u.name = " ".to_string();
    assert_eq!(validate_user(&u), Err(ValidationError::UserNameRequired));
}

#[test]
fn validation_messages() {
    assert_eq!(ValidationError::RestaurantNameRequired.message(), "Restaurant name is required");
    assert_eq!(ValidationError::CategoryRequired.message(), "Restaurant category is required");
    assert_eq!(ValidationError::AddressRequired.message(), "Restaurant address is required");
    assert_eq!(ValidationError::BusinessHoursRequired.message(), "Business hours are required");
    assert_eq!(ValidationError::InvalidCategory.message(), "Invalid category: ");
    assert_eq!(ValidationError::RestaurantIdRequired.message(), "Restaurant ID is required");
    assert_eq!(ValidationError::UserIdRequired.message(), "User ID is required");
    assert_eq!(ValidationError::UserNameRequired.message(), "User name is required");
    assert_eq!(ValidationError::RatingOutOfRange.message(), "Rating must be between 1 and 5");
    assert_eq!(
        ValidationError::AtmosphereRatingOutOfRange.message(),
        "Atmosphere rating must be between 1 and 5"
    );
    assert_eq!(ValidationError::TasteRatingOutOfRange.message(), "Taste rating must be between 1 and 5");
    assert_eq!(
        ValidationError::ServiceRatingOutOfRange.message(),
        "Service rating must be between 1 and 5"
    );
    assert_eq!(
        ValidationError::ValuePriceRatingOutOfRange.message(),
        "Value/price rating must be between 1 and 5"
    );
    assert_eq!(
        ValidationError::CleanlinessRatingOutOfRange.message(),
        "Cleanliness rating must be between 1 and 5"
    );
    assert_eq!(ValidationError::VisitDateFormat.message(), "Visit date must be in YYYY-MM-DD format");
    assert_eq!(ValidationError::InvalidEmail.message(), "Invalid email format");
}
