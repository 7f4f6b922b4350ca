//! How the categories of texts relate to those of their parts.

use vstd::prelude::*;

use crate::categories::{
    category_of, names_any, AUTOMOTIVE, BILLS, DINING, EDUCATION, ENTERTAINMENT, FUEL, GROCERIES,
    HEALTH, INSURANCE, MEMBERSHIPS, PAYMENT, RECREATION, SHOPPING, TRANSPORT, TRAVEL,
};
use crate::text::{occurs_at, occurs_in};

verus! {

/// Where a category stands in the order in which they are tried.
pub open spec fn rank(category: Seq<char>) -> int {
    if category == "payment"@ {
        0
    } else if category == "dining"@ {
        1
    } else if category == "groceries"@ {
        2
    } else if category == "fuel"@ {
        3
    } else if category == "transport"@ {
        4
    } else if category == "shopping"@ {
        5
    } else if category == "entertainment"@ {
        6
    } else if category == "recreation"@ {
        7
    } else if category == "education"@ {
        8
    } else if category == "bills"@ {
        9
    } else if category == "insurance"@ {
        10
    } else if category == "memberships"@ {
        11
    } else if category == "health"@ {
        12
    } else if category == "automotive"@ {
        13
    } else if category == "travel"@ {
        14
    } else {
        15
    }
}

/// Two lines together get the category of one of them: of the one whose category
/// is tried first. The lines are in lower case.
pub proof fn law_the_first_category_wins(a: Seq<char>, b: Seq<char>)
    ensures
        category_of(a + seq!['\n'] + b) == if rank(category_of(a)) <= rank(category_of(b)) {
            category_of(a)
        } else {
            category_of(b)
        },
{
    lemma_keywords_are_one_line();
    lemma_rank(a);
    lemma_rank(b);
    lemma_names_join(DINING@, a, b);
    lemma_names_join(GROCERIES@, a, b);
    lemma_names_join(FUEL@, a, b);
    lemma_names_join(TRANSPORT@, a, b);
    lemma_names_join(SHOPPING@, a, b);
    lemma_names_join(ENTERTAINMENT@, a, b);
    lemma_names_join(RECREATION@, a, b);
    lemma_names_join(EDUCATION@, a, b);
    lemma_names_join(BILLS@, a, b);
    lemma_names_join(INSURANCE@, a, b);
    lemma_names_join(MEMBERSHIPS@, a, b);
    lemma_names_join(HEALTH@, a, b);
    lemma_names_join(AUTOMOTIVE@, a, b);
    lemma_names_join(TRAVEL@, a, b);
    lemma_names_join(PAYMENT@, a, b);
}

/// Text that is added, before or after, never moves a text to a category that is
/// tried later. The texts are in lower case.
pub proof fn law_added_text_moves_no_later(x: Seq<char>, a: Seq<char>, y: Seq<char>)
    ensures
        rank(category_of(x + a + y)) <= rank(category_of(a)),
{
    lemma_rank(a);
    lemma_rank(x + a + y);
    lemma_names_within(DINING@, x, a, y);
    lemma_names_within(GROCERIES@, x, a, y);
    lemma_names_within(FUEL@, x, a, y);
    lemma_names_within(TRANSPORT@, x, a, y);
    lemma_names_within(SHOPPING@, x, a, y);
    lemma_names_within(ENTERTAINMENT@, x, a, y);
    lemma_names_within(RECREATION@, x, a, y);
    lemma_names_within(EDUCATION@, x, a, y);
    lemma_names_within(BILLS@, x, a, y);
    lemma_names_within(INSURANCE@, x, a, y);
    lemma_names_within(MEMBERSHIPS@, x, a, y);
    lemma_names_within(HEALTH@, x, a, y);
    lemma_names_within(AUTOMOTIVE@, x, a, y);
    lemma_names_within(TRAVEL@, x, a, y);
    lemma_names_within(PAYMENT@, x, a, y);
}

/// One of the keywords of a merchant stands in the text: of any category but
/// `payment`.
pub open spec fn names_merchant(text: Seq<char>) -> bool {
    ||| names_any(text, DINING@)
    ||| names_any(text, GROCERIES@)
    ||| names_any(text, FUEL@)
    ||| names_any(text, TRANSPORT@)
    ||| names_any(text, SHOPPING@)
    ||| names_any(text, ENTERTAINMENT@)
    ||| names_any(text, RECREATION@)
    ||| names_any(text, EDUCATION@)
    ||| names_any(text, BILLS@)
    ||| names_any(text, INSURANCE@)
    ||| names_any(text, MEMBERSHIPS@)
    ||| names_any(text, HEALTH@)
    ||| names_any(text, AUTOMOTIVE@)
    ||| names_any(text, TRAVEL@)
}

/// What is no payment to a card issuer falls under `Others` exactly where it holds
/// no keyword of a merchant. The text is in lower case.
pub proof fn law_others_hold_no_keyword(text: Seq<char>)
    requires
        !names_any(text, PAYMENT@),
    ensures
        category_of(text) == "Others"@ <==> !names_merchant(text),
{
    lemma_ranks();
}

/// A payment to a card issuer is one, whatever merchant the card is of, and
/// nothing else is. The text is in lower case.
pub proof fn law_payments_are_detected(text: Seq<char>)
    ensures
        category_of(text) == "payment"@ <==> names_any(text, PAYMENT@),
{
    lemma_ranks();
}

/// How many of the lists of keywords are tried in vain.
spec fn tried(text: Seq<char>) -> int {
    if names_any(text, PAYMENT@) {
        0
    } else if names_any(text, DINING@) {
        1
    } else if names_any(text, GROCERIES@) {
        2
    } else if names_any(text, FUEL@) {
        3
    } else if names_any(text, TRANSPORT@) {
        4
    } else if names_any(text, SHOPPING@) {
        5
    } else if names_any(text, ENTERTAINMENT@) {
        6
    } else if names_any(text, RECREATION@) {
        7
    } else if names_any(text, EDUCATION@) {
        8
    } else if names_any(text, BILLS@) {
        9
    } else if names_any(text, INSURANCE@) {
        10
    } else if names_any(text, MEMBERSHIPS@) {
        11
    } else if names_any(text, HEALTH@) {
        12
    } else if names_any(text, AUTOMOTIVE@) {
        13
    } else if names_any(text, TRAVEL@) {
        14
    } else {
        15
    }
}

proof fn lemma_ranks()
    ensures
        rank("payment"@) == 0,
        rank("dining"@) == 1,
        rank("groceries"@) == 2,
        rank("fuel"@) == 3,
        rank("transport"@) == 4,
        rank("shopping"@) == 5,
        rank("entertainment"@) == 6,
        rank("recreation"@) == 7,
        rank("education"@) == 8,
        rank("bills"@) == 9,
        rank("insurance"@) == 10,
        rank("memberships"@) == 11,
        rank("health"@) == 12,
        rank("automotive"@) == 13,
        rank("travel"@) == 14,
        rank("Others"@) == 15,
{
    reveal_strlit("dining");
    reveal_strlit("groceries");
    reveal_strlit("fuel");
    reveal_strlit("transport");
    reveal_strlit("shopping");
    reveal_strlit("entertainment");
    reveal_strlit("recreation");
    reveal_strlit("education");
    reveal_strlit("bills");
    reveal_strlit("insurance");
    reveal_strlit("memberships");
    reveal_strlit("health");
    reveal_strlit("automotive");
    reveal_strlit("travel");
    reveal_strlit("payment");
    reveal_strlit("Others");
    assert("dining"@.len() == 6);
    assert("groceries"@.len() == 9);
    assert("fuel"@.len() == 4);
    assert("transport"@.len() == 9);
    assert("shopping"@.len() == 8);
    assert("entertainment"@.len() == 13);
    assert("recreation"@.len() == 10);
    assert("education"@.len() == 9);
    assert("bills"@.len() == 5);
    assert("insurance"@.len() == 9);
    assert("memberships"@.len() == 11);
    assert("health"@.len() == 6);
    assert("automotive"@.len() == 10);
    assert("travel"@.len() == 6);
    assert("payment"@.len() == 7);
    assert("Others"@.len() == 6);
    assert("dining"@[0] != "health"@[0]);
    assert("dining"@[0] != "travel"@[0]);
    assert("dining"@[0] != "Others"@[0]);
    assert("health"@[0] != "travel"@[0]);
    assert("health"@[0] != "Others"@[0]);
    assert("travel"@[0] != "Others"@[0]);
    assert("groceries"@[0] != "transport"@[0]);
    assert("groceries"@[0] != "education"@[0]);
    assert("groceries"@[0] != "insurance"@[0]);
    assert("transport"@[0] != "education"@[0]);
    assert("transport"@[0] != "insurance"@[0]);
    assert("education"@[0] != "insurance"@[0]);
    assert("recreation"@[0] != "automotive"@[0]);
}

proof fn lemma_rank(text: Seq<char>)
    ensures
        rank(category_of(text)) == tried(text),
{
    lemma_ranks();
}

/// No keyword goes over the end of a line.
spec fn one_line(keywords: Seq<&'static str>) -> bool {
    forall|i: int| 0 <= i < keywords.len() ==> !(#[trigger] keywords[i])@.contains('\n')
}

proof fn lemma_occurs_join(a: Seq<char>, b: Seq<char>, k: Seq<char>)
    requires
        !k.contains('\n'),
    ensures
        occurs_in(a + seq!['\n'] + b, k) <==> occurs_in(a, k) || occurs_in(b, k),
{
    let joined = a + seq!['\n'] + b;
    if occurs_in(joined, k) {
        let i = choose|i: int| occurs_at(joined, k, i);
        if i + k.len() <= a.len() {
            assert(a.subrange(i, i + k.len()) =~= joined.subrange(i, i + k.len()));
            assert(occurs_at(a, k, i));
        } else if i > a.len() {
            let j = i - a.len() - 1;
            assert(b.subrange(j, j + k.len()) =~= joined.subrange(i, i + k.len()));
            assert(occurs_at(b, k, j));
        } else {
            assert(joined.subrange(i, i + k.len())[a.len() - i] == '\n');
            assert(k.contains('\n'));
        }
    }
    if occurs_in(a, k) {
        let i = choose|i: int| occurs_at(a, k, i);
        assert(joined.subrange(i, i + k.len()) =~= a.subrange(i, i + k.len()));
        assert(occurs_at(joined, k, i));
    }
    if occurs_in(b, k) {
        let j = choose|j: int| occurs_at(b, k, j);
        let i = a.len() + 1 + j;
        assert(joined.subrange(i, i + k.len()) =~= b.subrange(j, j + k.len()));
        assert(occurs_at(joined, k, i));
    }
}

proof fn lemma_names_join(keywords: Seq<&'static str>, a: Seq<char>, b: Seq<char>)
    requires
        one_line(keywords),
    ensures
        names_any(a + seq!['\n'] + b, keywords) <==> names_any(a, keywords) || names_any(
            b,
            keywords,
        ),
{
    assert forall|i: int| 0 <= i < keywords.len() implies (occurs_in(
        a + seq!['\n'] + b,
        (#[trigger] keywords[i])@,
    ) <==> occurs_in(a, keywords[i]@) || occurs_in(b, keywords[i]@)) by {
        lemma_occurs_join(a, b, keywords[i]@);
    }
}

proof fn lemma_names_within(
    keywords: Seq<&'static str>,
    x: Seq<char>,
    a: Seq<char>,
    y: Seq<char>,
)
    ensures
        names_any(a, keywords) ==> names_any(x + a + y, keywords),
{
    if names_any(a, keywords) {
        let n = choose|n: int| 0 <= n < keywords.len() && occurs_in(a, (#[trigger] keywords[n])@);
        let k = keywords[n]@;
        let i = choose|i: int| occurs_at(a, k, i);
        let whole = x + a + y;
        let j = x.len() + i;
        assert(whole.subrange(j, j + k.len()) =~= a.subrange(i, i + k.len()));
        assert(occurs_at(whole, k, j));
    }
}

proof fn lemma_keywords_are_one_line()
    ensures
        one_line(DINING@),
        one_line(GROCERIES@),
        one_line(FUEL@),
        one_line(TRANSPORT@),
        one_line(SHOPPING@),
        one_line(ENTERTAINMENT@),
        one_line(RECREATION@),
        one_line(EDUCATION@),
        one_line(BILLS@),
        one_line(INSURANCE@),
        one_line(MEMBERSHIPS@),
        one_line(HEALTH@),
        one_line(AUTOMOTIVE@),
        one_line(TRAVEL@),
        one_line(PAYMENT@),
{
    lemma_dining();
    lemma_groceries();
    lemma_fuel();
    lemma_transport();
    lemma_shopping();
    lemma_entertainment();
    lemma_recreation();
    lemma_education();
    lemma_bills();
    lemma_insurance();
    lemma_memberships();
    lemma_health();
    lemma_automotive();
    lemma_travel();
    lemma_payment();
}

proof fn lemma_dining()
    ensures
        one_line(DINING@),
{
    reveal_strlit("akira ramen");
    reveal_strlit("swadesh");
    reveal_strlit("kong");
    reveal_strlit("tst*");
    reveal_strlit("potomac pizza");
    reveal_strlit("lao sze chuan");
    reveal_strlit("starbucks");
    reveal_strlit("mcdonalds");
    reveal_strlit("mcdonald");
    reveal_strlit("bakery momo");
    reveal_strlit("tous les jours");
    reveal_strlit("spice");
    reveal_strlit("kung fu tea");
    reveal_strlit("chipotle");
    reveal_strlit("chick-fil-a");
    reveal_strlit("chickfila");
    reveal_strlit("subway");
    reveal_strlit("panera");
    reveal_strlit("domino");
    reveal_strlit("pizza hut");
    reveal_strlit("papa john");
    reveal_strlit("taco bell");
    reveal_strlit("burger king");
    reveal_strlit("wendy");
    reveal_strlit("dunkin");
    reveal_strlit("doordash");
    reveal_strlit("grubhub");
    reveal_strlit("ubereats");
    reveal_strlit("uber eats");
    reveal_strlit("noodle");
    reveal_strlit("sushi");
    reveal_strlit("ramen");
    reveal_strlit("pho");
    reveal_strlit("bbq");
    reveal_strlit("grill");
    reveal_strlit("diner");
    reveal_strlit("cafe");
    reveal_strlit("coffee");
    reveal_strlit("bakery");
    reveal_strlit("boba");
    reveal_strlit("smoothie");
    reveal_strlit("restaurant");
    reveal_strlit("eatery");
    reveal_strlit("kitchen");
    reveal_strlit("bar & grill");
}

proof fn lemma_groceries()
    ensures
        one_line(GROCERIES@),
{
    reveal_strlit("h mart");
    reveal_strlit("hmart");
    reveal_strlit("safeway");
    reveal_strlit("walmart");
    reveal_strlit("target");
    reveal_strlit("costco");
    reveal_strlit("bjs");
    reveal_strlit("whole foods");
    reveal_strlit("trader joe");
    reveal_strlit("aldi");
    reveal_strlit("kroger");
    reveal_strlit("giant");
    reveal_strlit("food lion");
    reveal_strlit("harris teeter");
    reveal_strlit("weis");
    reveal_strlit("lidl");
    reveal_strlit("fresh market");
    reveal_strlit("sprouts");
    reveal_strlit("instacart");
}

proof fn lemma_fuel()
    ensures
        one_line(FUEL@),
{
    reveal_strlit("sunoco");
    reveal_strlit("1763 pf perry hall");
    reveal_strlit("exxon");
    reveal_strlit("mobil");
    reveal_strlit("shell");
    reveal_strlit("bp");
    reveal_strlit("chevron");
    reveal_strlit("wawa");
    reveal_strlit("sheetz");
    reveal_strlit("7-eleven");
    reveal_strlit("7eleven");
    reveal_strlit("gas station");
    reveal_strlit("fuel");
}

proof fn lemma_transport()
    ensures
        one_line(TRANSPORT@),
{
    reveal_strlit("uber *trip");
    reveal_strlit("uber* trip");
    reveal_strlit("lyft");
    reveal_strlit("metro");
    reveal_strlit("mta");
    reveal_strlit("transit");
    reveal_strlit("parking");
    reveal_strlit("toll");
    reveal_strlit("zipcar");
    reveal_strlit("amtrak");
    reveal_strlit("greyhound");
    reveal_strlit("airline");
    reveal_strlit("united air");
    reveal_strlit("delta air");
    reveal_strlit("southwest air");
    reveal_strlit("american air");
    reveal_strlit("spirit air");
}

proof fn lemma_shopping()
    ensures
        one_line(SHOPPING@),
{
    reveal_strlit("macys");
    reveal_strlit("macy");
    reveal_strlit("burlington");
    reveal_strlit("amazon");
    reveal_strlit("amzn");
    reveal_strlit("ebay");
    reveal_strlit("etsy");
    reveal_strlit("bestbuy");
    reveal_strlit("best buy");
    reveal_strlit("apple store");
    reveal_strlit("apple.com");
    reveal_strlit("walmart.com");
    reveal_strlit("target.com");
    reveal_strlit("tjmaxx");
    reveal_strlit("t.j. maxx");
    reveal_strlit("marshalls");
    reveal_strlit("ross ");
    reveal_strlit("nordstrom");
    reveal_strlit("h&m");
    reveal_strlit("zara");
    reveal_strlit("gap");
    reveal_strlit("old navy");
    reveal_strlit("forever 21");
    reveal_strlit("nike");
    reveal_strlit("adidas");
    reveal_strlit("foot locker");
    reveal_strlit("chewy");
    reveal_strlit("wayfair");
}

proof fn lemma_entertainment()
    ensures
        one_line(ENTERTAINMENT@),
{
    reveal_strlit("bowlero");
    reveal_strlit("white marsh ice");
    reveal_strlit("netflix");
    reveal_strlit("hulu");
    reveal_strlit("disney");
    reveal_strlit("hbo");
    reveal_strlit("spotify");
    reveal_strlit("apple music");
    reveal_strlit("youtube");
    reveal_strlit("twitch");
    reveal_strlit("steam");
    reveal_strlit("playstation");
    reveal_strlit("xbox");
    reveal_strlit("nintendo");
    reveal_strlit("amc");
    reveal_strlit("regal");
    reveal_strlit("cinemark");
    reveal_strlit("movie");
    reveal_strlit("concert");
    reveal_strlit("ticketmaster");
    reveal_strlit("eventbrite");
    reveal_strlit("stubhub");
}

proof fn lemma_recreation()
    ensures
        one_line(RECREATION@),
{
    reveal_strlit("gunpowder falls");
    reveal_strlit("gym");
    reveal_strlit("planet fitness");
    reveal_strlit("la fitness");
    reveal_strlit("equinox");
    reveal_strlit("crunch");
    reveal_strlit("ymca");
    reveal_strlit("peloton");
    reveal_strlit("rei ");
    reveal_strlit("dick's sporting");
    reveal_strlit("dicks sporting");
    reveal_strlit("golf");
    reveal_strlit("tennis");
    reveal_strlit("swimming");
}

proof fn lemma_education()
    ensures
        one_line(EDUCATION@),
{
    reveal_strlit("ccbc essex");
    reveal_strlit("ccbc");
    reveal_strlit("university");
    reveal_strlit("college");
    reveal_strlit("coursera");
    reveal_strlit("udemy");
    reveal_strlit("chegg");
    reveal_strlit("duolingo");
    reveal_strlit("khan academy");
    reveal_strlit("barnes & noble");
    reveal_strlit("book");
}

proof fn lemma_bills()
    ensures
        one_line(BILLS@),
{
    reveal_strlit("mint mobile");
    reveal_strlit("at&t");
    reveal_strlit("verizon");
    reveal_strlit("t-mobile");
    reveal_strlit("tmobile");
    reveal_strlit("comcast");
    reveal_strlit("xfinity");
    reveal_strlit("cox ");
    reveal_strlit("spectrum");
    reveal_strlit("bge");
    reveal_strlit("pepco");
    reveal_strlit("electric");
    reveal_strlit("utility");
    reveal_strlit("water bill");
    reveal_strlit("internet");
    reveal_strlit("rent");
    reveal_strlit("mortgage");
}

proof fn lemma_insurance()
    ensures
        one_line(INSURANCE@),
{
    reveal_strlit("iso student health");
    reveal_strlit("geico");
    reveal_strlit("progressive");
    reveal_strlit("state farm");
    reveal_strlit("allstate");
    reveal_strlit("usaa");
    reveal_strlit("cigna");
    reveal_strlit("aetna");
    reveal_strlit("bluecross");
    reveal_strlit("blue cross");
    reveal_strlit("insurance");
}

proof fn lemma_memberships()
    ensures
        one_line(MEMBERSHIPS@),
{
    reveal_strlit("bjs membership");
    reveal_strlit("costco membership");
    reveal_strlit("amazon prime");
    reveal_strlit("prime video");
    reveal_strlit("apple one");
    reveal_strlit("icloud");
    reveal_strlit("google one");
    reveal_strlit("dropbox");
    reveal_strlit("microsoft 365");
    reveal_strlit("adobe");
    reveal_strlit("patreon");
}

proof fn lemma_health()
    ensures
        one_line(HEALTH@),
{
    reveal_strlit("cvs");
    reveal_strlit("walgreens");
    reveal_strlit("rite aid");
    reveal_strlit("pharmacy");
    reveal_strlit("doctor");
    reveal_strlit("dental");
    reveal_strlit("vision");
    reveal_strlit("hospital");
    reveal_strlit("clinic");
    reveal_strlit("urgent care");
    reveal_strlit("lab corp");
    reveal_strlit("quest diag");
}

proof fn lemma_automotive()
    ensures
        one_line(AUTOMOTIVE@),
{
    reveal_strlit("auto diagnostic");
    reveal_strlit("tims automotive");
    reveal_strlit("jiffy lube");
    reveal_strlit("midas");
    reveal_strlit("valvoline");
    reveal_strlit("autozone");
    reveal_strlit("advance auto");
    reveal_strlit("o'reilly");
    reveal_strlit("car wash");
    reveal_strlit("dmv");
    reveal_strlit("pep boys");
}

proof fn lemma_travel()
    ensures
        one_line(TRAVEL@),
{
    reveal_strlit("airbnb");
    reveal_strlit("hotel");
    reveal_strlit("marriott");
    reveal_strlit("hilton");
    reveal_strlit("hyatt");
    reveal_strlit("expedia");
    reveal_strlit("booking.com");
    reveal_strlit("vrbo");
    reveal_strlit("hertz");
    reveal_strlit("enterprise rent");
    reveal_strlit("avis");
}

proof fn lemma_payment()
    ensures
        one_line(PAYMENT@),
{
    reveal_strlit("credit card payment");
    reveal_strlit("credit card autopay");
    reveal_strlit("credit card bill payment");
    reveal_strlit("credit card pmt");
    reveal_strlit("crcardpmt");
    reveal_strlit("applecard gsbank payment");
    reveal_strlit("discover e-payment");
    reveal_strlit("chase credit crd autopay");
    reveal_strlit("chase credit crd epay");
    reveal_strlit("citi card online payment");
    reveal_strlit("amex epayment");
    reveal_strlit("american express ach pmt");
    reveal_strlit("barclaycard us creditcard");
}

} // verus!
