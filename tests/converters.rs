use czas::mapping::{
    date_to_polish_genitive as date_variant, hours_to_polish_locative as hours_variant,
    month_to_polish_genitive as month_variant, seconds_or_minutes_to_polish_nominative,
};
use czas::{
    date_to_polish_genitive, hours_to_polish_locative, minutes_to_polish_nominative,
    month_to_polish_genitive, seconds_to_polish_nominative, year_to_polish_genetive, CzasError,
};

#[test]
fn seconds_take_the_agreeing_noun() {
    assert_eq!(seconds_to_polish_nominative(0).unwrap(), "");
    assert_eq!(seconds_to_polish_nominative(1).unwrap(), "jeden sekunda");
    assert_eq!(seconds_to_polish_nominative(3).unwrap(), "trzy sekundy");
    assert_eq!(seconds_to_polish_nominative(5).unwrap(), "pięć sekund");
    assert_eq!(seconds_to_polish_nominative(12).unwrap(), "dwanaście sekund");
    assert_eq!(seconds_to_polish_nominative(20).unwrap(), "dwadzieścia sekund");
    assert_eq!(seconds_to_polish_nominative(21).unwrap(), "dwadzieścia jeden sekund");
    assert_eq!(seconds_to_polish_nominative(22).unwrap(), "dwadzieścia dwa sekundy");
    assert_eq!(seconds_to_polish_nominative(45).unwrap(), "czterdzieści pięć sekund");
    assert_eq!(seconds_to_polish_nominative(51).unwrap(), "pięćdziesiąt jeden sekund");
    assert_eq!(seconds_to_polish_nominative(54).unwrap(), "pięćdziesiąt cztery sekundy");
}

#[test]
fn seconds_out_of_range_fail() {
    assert!(matches!(seconds_to_polish_nominative(60), Err(CzasError::Error)));
    assert!(matches!(seconds_to_polish_nominative(u32::MAX), Err(CzasError::Error)));
}

#[test]
fn bare_numeral_is_empty_only_at_zero() {
    for n in 0..60 {
        let text = minutes_to_polish_nominative(n).unwrap();
        assert_eq!(text.is_empty(), n == 0);
        assert_eq!(seconds_or_minutes_to_polish_nominative(n).unwrap(), text);
    }
}

#[test]
fn bare_numeral_of_the_ones_after_twenty() {
    assert_eq!(minutes_to_polish_nominative(21).unwrap(), "dwadzieścia jeden");
    assert_eq!(minutes_to_polish_nominative(31).unwrap(), "trzydzieści jeden");
    assert_eq!(minutes_to_polish_nominative(41).unwrap(), "czterdzieści jeden");
    assert_eq!(minutes_to_polish_nominative(51).unwrap(), "pięćdziesiąt jeden");
    assert_eq!(seconds_or_minutes_to_polish_nominative(51).unwrap(), "pięćdziesiąt jeden");
}

#[test]
fn bare_numeral_examples() {
    assert_eq!(minutes_to_polish_nominative(1).unwrap(), "jeden");
    assert_eq!(minutes_to_polish_nominative(19).unwrap(), "dziewiętnaście");
    assert_eq!(minutes_to_polish_nominative(30).unwrap(), "trzydzieści");
    assert_eq!(minutes_to_polish_nominative(59).unwrap(), "pięćdziesiąt dziewięć");
}

#[test]
fn minutes_out_of_range_fail() {
    assert!(matches!(minutes_to_polish_nominative(60), Err(CzasError::Error)));
    assert!(matches!(seconds_or_minutes_to_polish_nominative(75), Err(CzasError::Error)));
}

#[test]
fn every_hour_has_a_phrase() {
    for h in 0..24 {
        assert!(!hours_to_polish_locative(h).unwrap().is_empty());
        assert_eq!(hours_variant(h).unwrap(), hours_to_polish_locative(h).unwrap());
    }
    assert_eq!(hours_to_polish_locative(0).unwrap(), "północy");
    assert_eq!(hours_to_polish_locative(1).unwrap(), "pierwszej");
    assert_eq!(hours_to_polish_locative(21).unwrap(), "dwudziestej pierwszej");
    assert_eq!(hours_to_polish_locative(23).unwrap(), "dwudziestej trzeciej");
}

#[test]
fn hours_wrap_modulo_a_day() {
    for k in 0..24 {
        assert_eq!(
            hours_to_polish_locative(24 + k).unwrap(),
            hours_to_polish_locative(k).unwrap()
        );
    }
    assert_eq!(hours_to_polish_locative(48).unwrap(), "północy");
}

#[test]
fn every_day_has_a_phrase() {
    for d in 1..32 {
        assert!(!date_to_polish_genitive(d).unwrap().is_empty());
        assert_eq!(date_variant(d).unwrap(), date_to_polish_genitive(d).unwrap());
    }
    assert_eq!(date_to_polish_genitive(1).unwrap(), "pierwszego");
    assert_eq!(date_to_polish_genitive(20).unwrap(), "dwudziestego");
    assert_eq!(date_to_polish_genitive(22).unwrap(), "dwudziestego drugiego");
    assert_eq!(date_to_polish_genitive(30).unwrap(), "trzydziestego");
    assert_eq!(date_to_polish_genitive(31).unwrap(), "trzydziestego pierwszego");
}

#[test]
fn days_out_of_range_fail() {
    assert!(matches!(date_to_polish_genitive(0), Err(CzasError::Error)));
    assert!(matches!(date_to_polish_genitive(32), Err(CzasError::Error)));
}

#[test]
fn months_come_from_the_table() {
    let names = [
        "stycznia", "lutego", "marca", "kwietnia", "maja", "czerwca", "lipca", "sierpnia",
        "września", "października", "listopada", "grudnia",
    ];
    for (i, name) in names.iter().enumerate() {
        let m = i as u32 + 1;
        assert_eq!(month_to_polish_genitive(m).unwrap(), *name);
        assert_eq!(month_variant(m).unwrap(), *name);
    }
}

#[test]
fn months_out_of_range_fail() {
    for m in [0, 13, 100, u32::MAX] {
        assert!(matches!(month_to_polish_genitive(m), Err(CzasError::Error)));
    }
}

#[test]
fn year_examples() {
    assert_eq!(year_to_polish_genetive(2022), "dwa tysiące dwudziestego drugiego");
    assert_eq!(year_to_polish_genetive(120), "sto dwudziestego");
    assert_eq!(year_to_polish_genetive(20), "dwudziestego");
}

#[test]
fn year_components_are_left_out_where_zero() {
    assert_eq!(year_to_polish_genetive(2000), "dwa tysiące");
    assert_eq!(year_to_polish_genetive(2005), "dwa tysiące piątego");
    assert_eq!(year_to_polish_genetive(1410), "tysiąc czterysta dziesiątego");
    assert_eq!(year_to_polish_genetive(1971), "tysiąc dziewięćset siedemdziesiątego pierwszego");
    assert_eq!(year_to_polish_genetive(1991), "tysiąc dziewięćset dziewięćdziesiątego pierwszego");
    assert_eq!(year_to_polish_genetive(7), "siódmego");
    assert_eq!(year_to_polish_genetive(1250), "tysiąc dwieście pięćdziesiątego");
}

#[test]
fn year_outside_the_tables() {
    assert_eq!(year_to_polish_genetive(0), "");
    assert_eq!(year_to_polish_genetive(-2022), "");
    assert_eq!(year_to_polish_genetive(12345), "trzysta czterdziestego piątego");
}

#[test]
fn converters_repeat_their_results() {
    for n in 0..60 {
        assert_eq!(
            seconds_to_polish_nominative(n).unwrap(),
            seconds_to_polish_nominative(n).unwrap()
        );
    }
    assert_eq!(year_to_polish_genetive(1984), year_to_polish_genetive(1984));
    assert_eq!(month_to_polish_genitive(5).unwrap(), month_to_polish_genitive(5).unwrap());
}
