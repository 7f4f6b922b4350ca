use finad::categories::{categorize, category_name};

#[test]
fn every_category_has_its_merchants() {
    let cases = [
        ("Akira Ramen #12", "dining"),
        ("TST* THE LOCAL", "dining"),
        ("UBER EATS", "dining"),
        ("H MART CATONSVILLE", "groceries"),
        ("Trader Joe's #645", "groceries"),
        ("SUNOCO 0363", "fuel"),
        ("1763 PF PERRY HALL", "fuel"),
        ("UBER *TRIP HELP.UBER.COM", "transport"),
        ("Delta Air Lines", "transport"),
        ("AMZN MKTP US", "shopping"),
        ("ROSS STORES", "shopping"),
        ("NETFLIX", "entertainment"),
        ("Planet Fitness", "recreation"),
        ("CCBC ESSEX", "education"),
        ("VERIZON WIRELESS", "bills"),
        ("AT&T*BILL", "bills"),
        ("GEICO *AUTO", "insurance"),
        ("PATREON* MEMBER", "memberships"),
        ("WALGREENS #1", "health"),
        ("JIFFY LUBE 99", "automotive"),
        ("AIRBNB HMXYZ", "travel"),
        ("DISCOVER E-PAYMENT 1234", "payment"),
        ("APPLECARD GSBANK PAYMENT", "payment"),
        ("CHASE CREDIT CRD AUTOPAY", "payment"),
        ("ZZZ", "Others"),
        ("", "Others"),
    ];
    for (description, category) in cases {
        assert_eq!(categorize(description), category, "{}", description);
    }
}

#[test]
fn case_does_not_matter() {
    assert_eq!(categorize("sTaRbUcKs"), "dining");
    assert_eq!(categorize("STARBUCKS"), categorize("starbucks"));
    // The keywords themselves are in lower case.
    assert_eq!(category_name("starbucks"), "dining");
    assert_eq!(category_name("STARBUCKS"), "Others");
}

#[test]
fn the_first_rule_wins() {
    // "walmart" comes before "walmart.com", "costco" before "costco membership".
    assert_eq!(categorize("WALMART.COM"), "groceries");
    assert_eq!(categorize("COSTCO MEMBERSHIP"), "groceries");
    assert_eq!(categorize("AMAZON PRIME"), "shopping");
    // "mobil" comes before "mint mobile".
    assert_eq!(categorize("MINT MOBILE"), "fuel");
    // "macy" comes before "pharmacy".
    assert_eq!(categorize("CVS/PHARMACY"), "shopping");
    assert_eq!(categorize("BARNES & NOBLE CAFE"), "dining");
}

#[test]
fn payments_to_card_issuers_are_detected() {
    for description in [
        "CAPITAL ONE CREDIT CARD PAYMENT",
        "MACYS CREDIT CARD PAYMENT",
        "CREDIT CARD AUTOPAY MOBILE",
        "BANK OF AMERICA CREDIT CARD BILL PAYMENT",
        "CAPITAL ONE CRCARDPMT",
        "CHASE CREDIT CRD EPAY",
        "CITI CARD ONLINE PAYMENT",
        "AMEX EPAYMENT ACH PMT",
        "AMERICAN EXPRESS ACH PMT",
        "BARCLAYCARD US CREDITCARD",
    ] {
        assert_eq!(categorize(description), "payment", "{}", description);
    }
}

#[test]
fn what_is_paid_by_card_is_spending() {
    for description in [
        "LIBRARY CARD PAYMENT", "GIFT CARD PAYMENT", "CARD PAYMENT TO JOES BARBERS", "CARD AUTOPAY",
        "APPLECARD GSBANK", "CREDIT CARD",
    ] {
        assert_eq!(categorize(description), "Others", "{}", description);
    }
    assert_eq!(categorize("GYM CARD PAYMENT"), "recreation");
}

#[test]
fn a_keyword_may_stand_anywhere() {
    assert_eq!(categorize("xxboba"), "dining");
    assert_eq!(categorize("ross"), "Others");
    assert_eq!(categorize("ross "), "shopping");
    // Part of a word will do.
    assert_eq!(categorize("CURRENT"), "bills");
}

#[test]
fn keywords_need_not_be_whole_words_in_other_scripts() {
    assert_eq!(categorize("ÉPICERIE CAFÉ"), "Others");
    assert_eq!(categorize("ÜBER SUSHI"), "dining");
}

#[test]
fn of_two_lines_the_first_category_wins() {
    let lines = ["starbucks", "netflix", "geico", "airbnb", "crcardpmt", "zzz", "h mart", ""];
    let order = [
        "payment", "dining", "groceries", "fuel", "transport", "shopping", "entertainment",
        "recreation", "education", "bills", "insurance", "memberships", "health", "automotive",
        "travel", "Others",
    ];
    let rank = |name: &str| order.iter().position(|n| *n == name).expect("a category");
    for a in lines {
        for b in lines {
            let both = rank(category_name(&format!("{}\n{}", a, b)));
            assert_eq!(both, rank(category_name(a)).min(rank(category_name(b))));
            assert!(rank(category_name(&format!("{}{}", a, b))) <= rank(category_name(a)));
        }
    }
    // Keywords do not go over the end of a line.
    assert_eq!(categorize("h\nmart"), "Others");
}
