//! Which words put a transaction under which category.

use vstd::prelude::*;

use crate::categories::{
    category_of, names_any, AUTOMOTIVE, BILLS, DINING, EDUCATION, ENTERTAINMENT, FUEL, GROCERIES,
    HEALTH, INSURANCE, MEMBERSHIPS, PAYMENT, RECREATION, SHOPPING, TRANSPORT, TRAVEL,
};
use crate::text::occurs_in;

verus! {

/// One of the words stands in the text.
pub open spec fn holds_one(text: Seq<char>, words: Seq<Seq<char>>) -> bool {
    exists|i: int| 0 <= i < words.len() && occurs_in(text, #[trigger] words[i])
}

/// The words of `payment`.
pub open spec fn payment_words() -> Seq<Seq<char>> {
    seq![
        "credit card payment"@, "credit card autopay"@, "credit card bill payment"@,
        "credit card pmt"@, "crcardpmt"@, "applecard gsbank payment"@, "discover e-payment"@,
        "chase credit crd autopay"@, "chase credit crd epay"@, "citi card online payment"@,
        "amex epayment"@, "american express ach pmt"@, "barclaycard us creditcard"@,
    ]
}

/// The words of `dining`.
pub open spec fn dining_words() -> Seq<Seq<char>> {
    seq![
        "akira ramen"@, "swadesh"@, "kong"@, "tst*"@, "potomac pizza"@, "lao sze chuan"@,
        "starbucks"@, "mcdonalds"@, "mcdonald"@, "bakery momo"@, "tous les jours"@, "spice"@,
        "kung fu tea"@, "chipotle"@, "chick-fil-a"@, "chickfila"@, "subway"@, "panera"@,
        "domino"@, "pizza hut"@, "papa john"@, "taco bell"@, "burger king"@, "wendy"@, "dunkin"@,
        "doordash"@, "grubhub"@, "ubereats"@, "uber eats"@, "noodle"@, "sushi"@, "ramen"@, "pho"@,
        "bbq"@, "grill"@, "diner"@, "cafe"@, "coffee"@, "bakery"@, "boba"@, "smoothie"@,
        "restaurant"@, "eatery"@, "kitchen"@, "bar & grill"@,
    ]
}

/// The words of `groceries`.
pub open spec fn groceries_words() -> Seq<Seq<char>> {
    seq![
        "h mart"@, "hmart"@, "safeway"@, "walmart"@, "target"@, "costco"@, "bjs"@, "whole foods"@,
        "trader joe"@, "aldi"@, "kroger"@, "giant"@, "food lion"@, "harris teeter"@, "weis"@,
        "lidl"@, "fresh market"@, "sprouts"@, "instacart"@,
    ]
}

/// The words of `fuel`.
pub open spec fn fuel_words() -> Seq<Seq<char>> {
    seq![
        "sunoco"@, "1763 pf perry hall"@, "exxon"@, "mobil"@, "shell"@, "bp"@, "chevron"@,
        "wawa"@, "sheetz"@, "7-eleven"@, "7eleven"@, "gas station"@, "fuel"@,
    ]
}

/// The words of `transport`.
pub open spec fn transport_words() -> Seq<Seq<char>> {
    seq![
        "uber *trip"@, "uber* trip"@, "lyft"@, "metro"@, "mta"@, "transit"@, "parking"@, "toll"@,
        "zipcar"@, "amtrak"@, "greyhound"@, "airline"@, "united air"@, "delta air"@,
        "southwest air"@, "american air"@, "spirit air"@,
    ]
}

/// The words of `shopping`.
pub open spec fn shopping_words() -> Seq<Seq<char>> {
    seq![
        "macys"@, "macy"@, "burlington"@, "amazon"@, "amzn"@, "ebay"@, "etsy"@, "bestbuy"@,
        "best buy"@, "apple store"@, "apple.com"@, "walmart.com"@, "target.com"@, "tjmaxx"@,
        "t.j. maxx"@, "marshalls"@, "ross "@, "nordstrom"@, "h&m"@, "zara"@, "gap"@, "old navy"@,
        "forever 21"@, "nike"@, "adidas"@, "foot locker"@, "chewy"@, "wayfair"@,
    ]
}

/// The words of `entertainment`.
pub open spec fn entertainment_words() -> Seq<Seq<char>> {
    seq![
        "bowlero"@, "white marsh ice"@, "netflix"@, "hulu"@, "disney"@, "hbo"@, "spotify"@,
        "apple music"@, "youtube"@, "twitch"@, "steam"@, "playstation"@, "xbox"@, "nintendo"@,
        "amc"@, "regal"@, "cinemark"@, "movie"@, "concert"@, "ticketmaster"@, "eventbrite"@,
        "stubhub"@,
    ]
}

/// The words of `recreation`.
pub open spec fn recreation_words() -> Seq<Seq<char>> {
    seq![
        "gunpowder falls"@, "gym"@, "planet fitness"@, "la fitness"@, "equinox"@, "crunch"@,
        "ymca"@, "peloton"@, "rei "@, "dick's sporting"@, "dicks sporting"@, "golf"@, "tennis"@,
        "swimming"@,
    ]
}

/// The words of `education`.
pub open spec fn education_words() -> Seq<Seq<char>> {
    seq![
        "ccbc essex"@, "ccbc"@, "university"@, "college"@, "coursera"@, "udemy"@, "chegg"@,
        "duolingo"@, "khan academy"@, "barnes & noble"@, "book"@,
    ]
}

/// The words of `bills`.
pub open spec fn bills_words() -> Seq<Seq<char>> {
    seq![
        "mint mobile"@, "at&t"@, "verizon"@, "t-mobile"@, "tmobile"@, "comcast"@, "xfinity"@,
        "cox "@, "spectrum"@, "bge"@, "pepco"@, "electric"@, "utility"@, "water bill"@,
        "internet"@, "rent"@, "mortgage"@,
    ]
}

/// The words of `insurance`.
pub open spec fn insurance_words() -> Seq<Seq<char>> {
    seq![
        "iso student health"@, "geico"@, "progressive"@, "state farm"@, "allstate"@, "usaa"@,
        "cigna"@, "aetna"@, "bluecross"@, "blue cross"@, "insurance"@,
    ]
}

/// The words of `memberships`.
pub open spec fn memberships_words() -> Seq<Seq<char>> {
    seq![
        "bjs membership"@, "costco membership"@, "amazon prime"@, "prime video"@, "apple one"@,
        "icloud"@, "google one"@, "dropbox"@, "microsoft 365"@, "adobe"@, "patreon"@,
    ]
}

/// The words of `health`.
pub open spec fn health_words() -> Seq<Seq<char>> {
    seq![
        "cvs"@, "walgreens"@, "rite aid"@, "pharmacy"@, "doctor"@, "dental"@, "vision"@,
        "hospital"@, "clinic"@, "urgent care"@, "lab corp"@, "quest diag"@,
    ]
}

/// The words of `automotive`.
pub open spec fn automotive_words() -> Seq<Seq<char>> {
    seq![
        "auto diagnostic"@, "tims automotive"@, "jiffy lube"@, "midas"@, "valvoline"@,
        "autozone"@, "advance auto"@, "o'reilly"@, "car wash"@, "dmv"@, "pep boys"@,
    ]
}

/// The words of `travel`.
pub open spec fn travel_words() -> Seq<Seq<char>> {
    seq![
        "airbnb"@, "hotel"@, "marriott"@, "hilton"@, "hyatt"@, "expedia"@, "booking.com"@,
        "vrbo"@, "hertz"@, "enterprise rent"@, "avis"@,
    ]
}

/// The categories with their words, in the order in which they are tried.
pub open spec fn word_lists() -> Seq<(Seq<char>, Seq<Seq<char>>)> {
    seq![
        ("payment"@, payment_words()),
        ("dining"@, dining_words()),
        ("groceries"@, groceries_words()),
        ("fuel"@, fuel_words()),
        ("transport"@, transport_words()),
        ("shopping"@, shopping_words()),
        ("entertainment"@, entertainment_words()),
        ("recreation"@, recreation_words()),
        ("education"@, education_words()),
        ("bills"@, bills_words()),
        ("insurance"@, insurance_words()),
        ("memberships"@, memberships_words()),
        ("health"@, health_words()),
        ("automotive"@, automotive_words()),
        ("travel"@, travel_words()),
    ]
}

/// A text in lower case falls under a category exactly where it holds one of the
/// words of that category, and none of those of the categories before it; under
/// `Others` where it holds none at all.
pub proof fn law_words_decide(text: Seq<char>)
    ensures
        forall|k: int|
            0 <= k < word_lists().len() && holds_one(text, (#[trigger] word_lists()[k]).1) && (
            forall|j: int| 0 <= j < k ==> !holds_one(text, (#[trigger] word_lists()[j]).1))
                ==> category_of(text) == word_lists()[k].0,
        (forall|k: int|
            0 <= k < word_lists().len() ==> !holds_one(text, (#[trigger] word_lists()[k]).1))
            ==> category_of(text) == "Others"@,
{
    lemma_payment(text);
    lemma_dining(text);
    lemma_groceries(text);
    lemma_fuel(text);
    lemma_transport(text);
    lemma_shopping(text);
    lemma_entertainment(text);
    lemma_recreation(text);
    lemma_education(text);
    lemma_bills(text);
    lemma_insurance(text);
    lemma_memberships(text);
    lemma_health(text);
    lemma_automotive(text);
    lemma_travel(text);
    let lists = word_lists();
    assert(lists[0] == ("payment"@, payment_words()));
    assert(lists[1] == ("dining"@, dining_words()));
    assert(lists[2] == ("groceries"@, groceries_words()));
    assert(lists[3] == ("fuel"@, fuel_words()));
    assert(lists[4] == ("transport"@, transport_words()));
    assert(lists[5] == ("shopping"@, shopping_words()));
    assert(lists[6] == ("entertainment"@, entertainment_words()));
    assert(lists[7] == ("recreation"@, recreation_words()));
    assert(lists[8] == ("education"@, education_words()));
    assert(lists[9] == ("bills"@, bills_words()));
    assert(lists[10] == ("insurance"@, insurance_words()));
    assert(lists[11] == ("memberships"@, memberships_words()));
    assert(lists[12] == ("health"@, health_words()));
    assert(lists[13] == ("automotive"@, automotive_words()));
    assert(lists[14] == ("travel"@, travel_words()));
}

proof fn lemma_payment(text: Seq<char>)
    ensures
        names_any(text, PAYMENT@) <==> holds_one(text, payment_words()),
{
    let words = payment_words();
    assert(words.len() == PAYMENT@.len());
    assert forall|i: int| 0 <= i < words.len() implies #[trigger] words[i] == PAYMENT@[i]@ by {}
    if holds_one(text, words) {
        let i = choose|i: int| 0 <= i < words.len() && occurs_in(text, #[trigger] words[i]);
        assert(occurs_in(text, PAYMENT@[i]@));
    }
    if names_any(text, PAYMENT@) {
        let i = choose|i: int|
            0 <= i < PAYMENT@.len() && occurs_in(text, (#[trigger] PAYMENT@[i])@);
        assert(occurs_in(text, words[i]));
    }
}

proof fn lemma_dining(text: Seq<char>)
    ensures
        names_any(text, DINING@) <==> holds_one(text, dining_words()),
{
    let words = dining_words();
    assert(words.len() == DINING@.len());
    assert forall|i: int| 0 <= i < words.len() implies #[trigger] words[i] == DINING@[i]@ by {}
    if holds_one(text, words) {
        let i = choose|i: int| 0 <= i < words.len() && occurs_in(text, #[trigger] words[i]);
        assert(occurs_in(text, DINING@[i]@));
    }
    if names_any(text, DINING@) {
        let i = choose|i: int|
            0 <= i < DINING@.len() && occurs_in(text, (#[trigger] DINING@[i])@);
        assert(occurs_in(text, words[i]));
    }
}

proof fn lemma_groceries(text: Seq<char>)
    ensures
        names_any(text, GROCERIES@) <==> holds_one(text, groceries_words()),
{
    let words = groceries_words();
    assert(words.len() == GROCERIES@.len());
    assert forall|i: int| 0 <= i < words.len() implies #[trigger] words[i] == GROCERIES@[i]@ by {}
    if holds_one(text, words) {
        let i = choose|i: int| 0 <= i < words.len() && occurs_in(text, #[trigger] words[i]);
        assert(occurs_in(text, GROCERIES@[i]@));
    }
    if names_any(text, GROCERIES@) {
        let i = choose|i: int|
            0 <= i < GROCERIES@.len() && occurs_in(text, (#[trigger] GROCERIES@[i])@);
        assert(occurs_in(text, words[i]));
    }
}

proof fn lemma_fuel(text: Seq<char>)
    ensures
        names_any(text, FUEL@) <==> holds_one(text, fuel_words()),
{
    let words = fuel_words();
    assert(words.len() == FUEL@.len());
    assert forall|i: int| 0 <= i < words.len() implies #[trigger] words[i] == FUEL@[i]@ by {}
    if holds_one(text, words) {
        let i = choose|i: int| 0 <= i < words.len() && occurs_in(text, #[trigger] words[i]);
        assert(occurs_in(text, FUEL@[i]@));
    }
    if names_any(text, FUEL@) {
        let i = choose|i: int|
            0 <= i < FUEL@.len() && occurs_in(text, (#[trigger] FUEL@[i])@);
        assert(occurs_in(text, words[i]));
    }
}

proof fn lemma_transport(text: Seq<char>)
    ensures
        names_any(text, TRANSPORT@) <==> holds_one(text, transport_words()),
{
    let words = transport_words();
    assert(words.len() == TRANSPORT@.len());
    assert forall|i: int| 0 <= i < words.len() implies #[trigger] words[i] == TRANSPORT@[i]@ by {}
    if holds_one(text, words) {
        let i = choose|i: int| 0 <= i < words.len() && occurs_in(text, #[trigger] words[i]);
        assert(occurs_in(text, TRANSPORT@[i]@));
    }
    if names_any(text, TRANSPORT@) {
        let i = choose|i: int|
            0 <= i < TRANSPORT@.len() && occurs_in(text, (#[trigger] TRANSPORT@[i])@);
        assert(occurs_in(text, words[i]));
    }
}

proof fn lemma_shopping(text: Seq<char>)
    ensures
        names_any(text, SHOPPING@) <==> holds_one(text, shopping_words()),
{
    let words = shopping_words();
    assert(words.len() == SHOPPING@.len());
    assert forall|i: int| 0 <= i < words.len() implies #[trigger] words[i] == SHOPPING@[i]@ by {}
    if holds_one(text, words) {
        let i = choose|i: int| 0 <= i < words.len() && occurs_in(text, #[trigger] words[i]);
        assert(occurs_in(text, SHOPPING@[i]@));
    }
    if names_any(text, SHOPPING@) {
        let i = choose|i: int|
            0 <= i < SHOPPING@.len() && occurs_in(text, (#[trigger] SHOPPING@[i])@);
        assert(occurs_in(text, words[i]));
    }
}

proof fn lemma_entertainment(text: Seq<char>)
    ensures
        names_any(text, ENTERTAINMENT@) <==> holds_one(text, entertainment_words()),
{
    let words = entertainment_words();
    assert(words.len() == ENTERTAINMENT@.len());
    assert forall|i: int| 0 <= i < words.len() implies #[trigger] words[i] == ENTERTAINMENT@[i]@ by {}
    if holds_one(text, words) {
        let i = choose|i: int| 0 <= i < words.len() && occurs_in(text, #[trigger] words[i]);
        assert(occurs_in(text, ENTERTAINMENT@[i]@));
    }
    if names_any(text, ENTERTAINMENT@) {
        let i = choose|i: int|
            0 <= i < ENTERTAINMENT@.len() && occurs_in(text, (#[trigger] ENTERTAINMENT@[i])@);
        assert(occurs_in(text, words[i]));
    }
}

proof fn lemma_recreation(text: Seq<char>)
    ensures
        names_any(text, RECREATION@) <==> holds_one(text, recreation_words()),
{
    let words = recreation_words();
    assert(words.len() == RECREATION@.len());
    assert forall|i: int| 0 <= i < words.len() implies #[trigger] words[i] == RECREATION@[i]@ by {}
    if holds_one(text, words) {
        let i = choose|i: int| 0 <= i < words.len() && occurs_in(text, #[trigger] words[i]);
        assert(occurs_in(text, RECREATION@[i]@));
    }
    if names_any(text, RECREATION@) {
        let i = choose|i: int|
            0 <= i < RECREATION@.len() && occurs_in(text, (#[trigger] RECREATION@[i])@);
        assert(occurs_in(text, words[i]));
    }
}

proof fn lemma_education(text: Seq<char>)
    ensures
        names_any(text, EDUCATION@) <==> holds_one(text, education_words()),
{
    let words = education_words();
    assert(words.len() == EDUCATION@.len());
    assert forall|i: int| 0 <= i < words.len() implies #[trigger] words[i] == EDUCATION@[i]@ by {}
    if holds_one(text, words) {
        let i = choose|i: int| 0 <= i < words.len() && occurs_in(text, #[trigger] words[i]);
        assert(occurs_in(text, EDUCATION@[i]@));
    }
    if names_any(text, EDUCATION@) {
        let i = choose|i: int|
            0 <= i < EDUCATION@.len() && occurs_in(text, (#[trigger] EDUCATION@[i])@);
        assert(occurs_in(text, words[i]));
    }
}

proof fn lemma_bills(text: Seq<char>)
    ensures
        names_any(text, BILLS@) <==> holds_one(text, bills_words()),
{
    let words = bills_words();
    assert(words.len() == BILLS@.len());
    assert forall|i: int| 0 <= i < words.len() implies #[trigger] words[i] == BILLS@[i]@ by {}
    if holds_one(text, words) {
        let i = choose|i: int| 0 <= i < words.len() && occurs_in(text, #[trigger] words[i]);
        assert(occurs_in(text, BILLS@[i]@));
    }
    if names_any(text, BILLS@) {
        let i = choose|i: int|
            0 <= i < BILLS@.len() && occurs_in(text, (#[trigger] BILLS@[i])@);
        assert(occurs_in(text, words[i]));
    }
}

proof fn lemma_insurance(text: Seq<char>)
    ensures
        names_any(text, INSURANCE@) <==> holds_one(text, insurance_words()),
{
    let words = insurance_words();
    assert(words.len() == INSURANCE@.len());
    assert forall|i: int| 0 <= i < words.len() implies #[trigger] words[i] == INSURANCE@[i]@ by {}
    if holds_one(text, words) {
        let i = choose|i: int| 0 <= i < words.len() && occurs_in(text, #[trigger] words[i]);
        assert(occurs_in(text, INSURANCE@[i]@));
    }
    if names_any(text, INSURANCE@) {
        let i = choose|i: int|
            0 <= i < INSURANCE@.len() && occurs_in(text, (#[trigger] INSURANCE@[i])@);
        assert(occurs_in(text, words[i]));
    }
}

proof fn lemma_memberships(text: Seq<char>)
    ensures
        names_any(text, MEMBERSHIPS@) <==> holds_one(text, memberships_words()),
{
    let words = memberships_words();
    assert(words.len() == MEMBERSHIPS@.len());
    assert forall|i: int| 0 <= i < words.len() implies #[trigger] words[i] == MEMBERSHIPS@[i]@ by {}
    if holds_one(text, words) {
        let i = choose|i: int| 0 <= i < words.len() && occurs_in(text, #[trigger] words[i]);
        assert(occurs_in(text, MEMBERSHIPS@[i]@));
    }
    if names_any(text, MEMBERSHIPS@) {
        let i = choose|i: int|
            0 <= i < MEMBERSHIPS@.len() && occurs_in(text, (#[trigger] MEMBERSHIPS@[i])@);
        assert(occurs_in(text, words[i]));
    }
}

proof fn lemma_health(text: Seq<char>)
    ensures
        names_any(text, HEALTH@) <==> holds_one(text, health_words()),
{
    let words = health_words();
    assert(words.len() == HEALTH@.len());
    assert forall|i: int| 0 <= i < words.len() implies #[trigger] words[i] == HEALTH@[i]@ by {}
    if holds_one(text, words) {
        let i = choose|i: int| 0 <= i < words.len() && occurs_in(text, #[trigger] words[i]);
        assert(occurs_in(text, HEALTH@[i]@));
    }
    if names_any(text, HEALTH@) {
        let i = choose|i: int|
            0 <= i < HEALTH@.len() && occurs_in(text, (#[trigger] HEALTH@[i])@);
        assert(occurs_in(text, words[i]));
    }
}

proof fn lemma_automotive(text: Seq<char>)
    ensures
        names_any(text, AUTOMOTIVE@) <==> holds_one(text, automotive_words()),
{
    let words = automotive_words();
    assert(words.len() == AUTOMOTIVE@.len());
    assert forall|i: int| 0 <= i < words.len() implies #[trigger] words[i] == AUTOMOTIVE@[i]@ by {}
    if holds_one(text, words) {
        let i = choose|i: int| 0 <= i < words.len() && occurs_in(text, #[trigger] words[i]);
        assert(occurs_in(text, AUTOMOTIVE@[i]@));
    }
    if names_any(text, AUTOMOTIVE@) {
        let i = choose|i: int|
            0 <= i < AUTOMOTIVE@.len() && occurs_in(text, (#[trigger] AUTOMOTIVE@[i])@);
        assert(occurs_in(text, words[i]));
    }
}

proof fn lemma_travel(text: Seq<char>)
    ensures
        names_any(text, TRAVEL@) <==> holds_one(text, travel_words()),
{
    let words = travel_words();
    assert(words.len() == TRAVEL@.len());
    assert forall|i: int| 0 <= i < words.len() implies #[trigger] words[i] == TRAVEL@[i]@ by {}
    if holds_one(text, words) {
        let i = choose|i: int| 0 <= i < words.len() && occurs_in(text, #[trigger] words[i]);
        assert(occurs_in(text, TRAVEL@[i]@));
    }
    if names_any(text, TRAVEL@) {
        let i = choose|i: int|
            0 <= i < TRAVEL@.len() && occurs_in(text, (#[trigger] TRAVEL@[i])@);
        assert(occurs_in(text, words[i]));
    }
}

} // verus!
