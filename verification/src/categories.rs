//! Sorting transactions into spending categories.

use vstd::prelude::*;

use crate::outside::{lowercase, to_lowercase};
use crate::text::{chars_of, contains, occurs_in};

verus! {

/// Keywords of `dining`: restaurants and delivery.
pub const DINING: [&'static str; 45] = [
    "akira ramen", "swadesh", "kong", "tst*", "potomac pizza", "lao sze chuan", "starbucks",
    "mcdonalds", "mcdonald", "bakery momo", "tous les jours", "spice", "kung fu tea",
    "chipotle", "chick-fil-a", "chickfila", "subway", "panera", "domino", "pizza hut",
    "papa john", "taco bell", "burger king", "wendy", "dunkin", "doordash", "grubhub",
    "ubereats", "uber eats", "noodle", "sushi", "ramen", "pho", "bbq", "grill", "diner", "cafe",
    "coffee", "bakery", "boba", "smoothie", "restaurant", "eatery", "kitchen", "bar & grill",
];

/// Keywords of `groceries`: supermarkets.
pub const GROCERIES: [&'static str; 19] = [
    "h mart", "hmart", "safeway", "walmart", "target", "costco", "bjs", "whole foods",
    "trader joe", "aldi", "kroger", "giant", "food lion", "harris teeter", "weis", "lidl",
    "fresh market", "sprouts", "instacart",
];

/// Keywords of `fuel`: petrol stations.
pub const FUEL: [&'static str; 13] = [
    "sunoco", "1763 pf perry hall", "exxon", "mobil", "shell", "bp", "chevron", "wawa",
    "sheetz", "7-eleven", "7eleven", "gas station", "fuel",
];

/// Keywords of `transport`: rides, transit, parking and airlines.
pub const TRANSPORT: [&'static str; 17] = [
    "uber *trip", "uber* trip", "lyft", "metro", "mta", "transit", "parking", "toll", "zipcar",
    "amtrak", "greyhound", "airline", "united air", "delta air", "southwest air",
    "american air", "spirit air",
];

/// Keywords of `shopping`: shops.
pub const SHOPPING: [&'static str; 28] = [
    "macys", "macy", "burlington", "amazon", "amzn", "ebay", "etsy", "bestbuy", "best buy",
    "apple store", "apple.com", "walmart.com", "target.com", "tjmaxx", "t.j. maxx", "marshalls",
    "ross ", "nordstrom", "h&m", "zara", "gap", "old navy", "forever 21", "nike", "adidas",
    "foot locker", "chewy", "wayfair",
];

/// Keywords of `entertainment`: streaming, games, films and events.
pub const ENTERTAINMENT: [&'static str; 22] = [
    "bowlero", "white marsh ice", "netflix", "hulu", "disney", "hbo", "spotify", "apple music",
    "youtube", "twitch", "steam", "playstation", "xbox", "nintendo", "amc", "regal", "cinemark",
    "movie", "concert", "ticketmaster", "eventbrite", "stubhub",
];

/// Keywords of `recreation`: sport and the outdoors.
pub const RECREATION: [&'static str; 14] = [
    "gunpowder falls", "gym", "planet fitness", "la fitness", "equinox", "crunch", "ymca",
    "peloton", "rei ", "dick's sporting", "dicks sporting", "golf", "tennis", "swimming",
];

/// Keywords of `education`: schools, courses and books.
pub const EDUCATION: [&'static str; 11] = [
    "ccbc essex", "ccbc", "university", "college", "coursera", "udemy", "chegg", "duolingo",
    "khan academy", "barnes & noble", "book",
];

/// Keywords of `bills`: telephone, utilities and rent.
pub const BILLS: [&'static str; 17] = [
    "mint mobile", "at&t", "verizon", "t-mobile", "tmobile", "comcast", "xfinity", "cox ",
    "spectrum", "bge", "pepco", "electric", "utility", "water bill", "internet", "rent",
    "mortgage",
];

/// Keywords of `insurance`: insurers.
pub const INSURANCE: [&'static str; 11] = [
    "iso student health", "geico", "progressive", "state farm", "allstate", "usaa", "cigna",
    "aetna", "bluecross", "blue cross", "insurance",
];

/// Keywords of `memberships`: memberships and subscriptions.
pub const MEMBERSHIPS: [&'static str; 11] = [
    "bjs membership", "costco membership", "amazon prime", "prime video", "apple one", "icloud",
    "google one", "dropbox", "microsoft 365", "adobe", "patreon",
];

/// Keywords of `health`: pharmacies and medical care.
pub const HEALTH: [&'static str; 12] = [
    "cvs", "walgreens", "rite aid", "pharmacy", "doctor", "dental", "vision", "hospital",
    "clinic", "urgent care", "lab corp", "quest diag",
];

/// Keywords of `automotive`: repairs and supplies for cars.
pub const AUTOMOTIVE: [&'static str; 11] = [
    "auto diagnostic", "tims automotive", "jiffy lube", "midas", "valvoline", "autozone",
    "advance auto", "o'reilly", "car wash", "dmv", "pep boys",
];

/// Keywords of `travel`: lodging and rental cars.
pub const TRAVEL: [&'static str; 11] = [
    "airbnb", "hotel", "marriott", "hilton", "hyatt", "expedia", "booking.com", "vrbo", "hertz",
    "enterprise rent", "avis",
];

/// Keywords of `payment`: payments to credit card issuers. Each names a credit card
/// or an issuer of them; that a card was used to pay is not enough.
pub const PAYMENT: [&'static str; 13] = [
    "credit card payment", "credit card autopay", "credit card bill payment", "credit card pmt",
    "crcardpmt", "applecard gsbank payment", "discover e-payment", "chase credit crd autopay",
    "chase credit crd epay", "citi card online payment", "amex epayment",
    "american express ach pmt", "barclaycard us creditcard",
];

/// One of the keywords stands in the text.
pub open spec fn names_any(text: Seq<char>, keywords: Seq<&'static str>) -> bool {
    exists|i: int| 0 <= i < keywords.len() && occurs_in(text, (#[trigger] keywords[i])@)
}

/// The category of a description in lower case: the first one, in this order,
/// of which a keyword stands in it. Payments to card issuers come first: the card
/// may be that of a merchant.
pub open spec fn category_of(text: Seq<char>) -> Seq<char> {
    if names_any(text, PAYMENT@) {
        "payment"@
    } else if names_any(text, DINING@) {
        "dining"@
    } else if names_any(text, GROCERIES@) {
        "groceries"@
    } else if names_any(text, FUEL@) {
        "fuel"@
    } else if names_any(text, TRANSPORT@) {
        "transport"@
    } else if names_any(text, SHOPPING@) {
        "shopping"@
    } else if names_any(text, ENTERTAINMENT@) {
        "entertainment"@
    } else if names_any(text, RECREATION@) {
        "recreation"@
    } else if names_any(text, EDUCATION@) {
        "education"@
    } else if names_any(text, BILLS@) {
        "bills"@
    } else if names_any(text, INSURANCE@) {
        "insurance"@
    } else if names_any(text, MEMBERSHIPS@) {
        "memberships"@
    } else if names_any(text, HEALTH@) {
        "health"@
    } else if names_any(text, AUTOMOTIVE@) {
        "automotive"@
    } else if names_any(text, TRAVEL@) {
        "travel"@
    } else {
        "Others"@
    }
}

/// Whether one of the keywords stands in the text.
fn names_one(text: &Vec<char>, keywords: &[&'static str]) -> (r: bool)
    ensures
        r == names_any(text@, keywords@),
{
    let mut i: usize = 0;
    while i < keywords.len()
        invariant
            i <= keywords@.len(),
            forall|j: int| 0 <= j < i ==> !occurs_in(text@, (#[trigger] keywords@[j])@),
        decreases keywords@.len() - i,
    {
        if contains(text, keywords[i]) {
            return true;
        }
        i = i + 1;
    }
    false
}

/// The category of a description that is in lower case already.
pub fn category_name(text: &str) -> (r: &'static str)
    ensures
        r@ == category_of(text@),
{
    let text = chars_of(text);
    if names_one(&text, PAYMENT.as_slice()) {
        "payment"
    } else if names_one(&text, DINING.as_slice()) {
        "dining"
    } else if names_one(&text, GROCERIES.as_slice()) {
        "groceries"
    } else if names_one(&text, FUEL.as_slice()) {
        "fuel"
    } else if names_one(&text, TRANSPORT.as_slice()) {
        "transport"
    } else if names_one(&text, SHOPPING.as_slice()) {
        "shopping"
    } else if names_one(&text, ENTERTAINMENT.as_slice()) {
        "entertainment"
    } else if names_one(&text, RECREATION.as_slice()) {
        "recreation"
    } else if names_one(&text, EDUCATION.as_slice()) {
        "education"
    } else if names_one(&text, BILLS.as_slice()) {
        "bills"
    } else if names_one(&text, INSURANCE.as_slice()) {
        "insurance"
    } else if names_one(&text, MEMBERSHIPS.as_slice()) {
        "memberships"
    } else if names_one(&text, HEALTH.as_slice()) {
        "health"
    } else if names_one(&text, AUTOMOTIVE.as_slice()) {
        "automotive"
    } else if names_one(&text, TRAVEL.as_slice()) {
        "travel"
    } else {
        "Others"
    }
}

/// The category of a transaction's description, whatever its case.
pub fn categorize(description: &str) -> (r: String)
    ensures
        r@ == category_of(lowercase(description@)),
{
    let lowered = to_lowercase(description);
    category_name(lowered.as_str()).to_string()
}

/// The names that a category can have.
pub open spec fn is_category(name: Seq<char>) -> bool {
    ||| name == "dining"@
    ||| name == "groceries"@
    ||| name == "fuel"@
    ||| name == "transport"@
    ||| name == "shopping"@
    ||| name == "entertainment"@
    ||| name == "recreation"@
    ||| name == "education"@
    ||| name == "bills"@
    ||| name == "insurance"@
    ||| name == "memberships"@
    ||| name == "health"@
    ||| name == "automotive"@
    ||| name == "travel"@
    ||| name == "payment"@
    ||| name == "Others"@
}

/// Every description gets one of the fifteen categories, or `Others`.
pub proof fn law_category_is_listed(description: Seq<char>)
    ensures
        is_category(category_of(lowercase(description))),
{
}

} // verus!
