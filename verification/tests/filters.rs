use vaccine_finder::filter::{
    agenda_ids, contains_id, have_common_id, motive_ids, primary_practice_id,
    select_eligible_agendas, select_eligible_motives, select_motives,
};
use vaccine_finder::model::{Agenda, Place, VisitMotive};
use vaccine_finder::text::{chars_of, contains, contains_chars, matches_at};

fn motive(id: u32, name: &str) -> VisitMotive {
    VisitMotive { id, name: name.to_string() }
}

fn agenda(id: u32, practice_id: u32, disabled: bool, motives: Vec<u32>) -> Agenda {
    Agenda {
        id,
        booking_disabled: disabled,
        booking_temporary_disabled: false,
        visit_motive_ids: motives,
        practice_id,
    }
}

fn place(practice_ids: Vec<u32>) -> Place {
    Place {
        id: "practice-1".to_string(),
        address: "1 rue de la Paix".to_string(),
        zipcode: "75002".to_string(),
        city: "Paris".to_string(),
        formal_name: "Centre".to_string(),
        full_address: "1 rue de la Paix 75002 Paris".to_string(),
        practice_ids,
    }
}

#[test]
fn contains_finds_a_run_of_characters() {
    assert!(contains("1re injection Pfizer", "1re injection"));
    assert!(contains("1re injection Pfizer", "Pfizer"));
    assert!(contains("1re injection Pfizer", "n P"));
    assert!(!contains("1re injection Pfizer", "AstraZeneca"));
    assert!(!contains("1re injection Pfizer", "Pfizer "));
}

#[test]
fn contains_is_case_sensitive() {
    assert!(!contains("1RE INJECTION", "1re injection"));
    assert!(!contains("astrazeneca", "AstraZeneca"));
}

#[test]
fn contains_takes_the_empty_needle_everywhere() {
    assert!(contains("abc", ""));
    assert!(contains("", ""));
    assert!(!contains("", "a"));
}

#[test]
fn contains_rejects_a_needle_longer_than_the_text() {
    assert!(!contains("abc", "abcd"));
    assert!(contains("abc", "abc"));
}

#[test]
fn contains_works_on_characters_not_bytes() {
    assert!(contains("2ème injection", "ème"));
    assert!(contains("vaccin à ARN", "à A"));
    assert!(!contains("2ème injection", "eme"));
    assert_eq!(chars_of("2ème"), vec!['2', 'è', 'm', 'e']);
}

#[test]
fn matches_at_compares_at_one_position() {
    let hay = chars_of("abcabc");
    let needle = chars_of("bc");
    assert!(!matches_at(&hay, &needle, 0));
    assert!(matches_at(&hay, &needle, 1));
    assert!(matches_at(&hay, &needle, 4));
    assert!(contains_chars(&hay, &needle));
    assert!(!contains_chars(&needle, &hay));
}

#[test]
fn first_dose_of_another_brand_is_the_only_eligible_motive() {
    let motives = vec![
        motive(1, "1re injection Pfizer"),
        motive(2, "1re injection AstraZeneca"),
    ];
    let kept = select_eligible_motives(&motives);
    assert_eq!(kept.len(), 1);
    assert_eq!(kept[0].id, 1);
    assert_eq!(kept[0].name, "1re injection Pfizer");
    assert_eq!(motive_ids(&kept), vec![1]);
}

#[test]
fn exclusion_wins_over_the_marker() {
    let motives = vec![
        motive(1, "AstraZeneca 1re injection"),
        motive(2, "1re injection AstraZeneca ou Pfizer"),
        motive(3, "2nde injection Pfizer"),
        motive(4, "Rappel"),
    ];
    assert!(select_eligible_motives(&motives).is_empty());
}

#[test]
fn eligible_motives_keep_their_order() {
    let motives = vec![
        motive(7, "1re injection Moderna"),
        motive(3, "2nde injection Moderna"),
        motive(9, "1re injection Pfizer"),
        motive(7, "1re injection Moderna"),
    ];
    let kept = select_eligible_motives(&motives);
    assert_eq!(motive_ids(&kept), vec![7, 9, 7]);
}

#[test]
fn no_motives_give_no_eligible_motives() {
    let motives: Vec<VisitMotive> = Vec::new();
    assert!(select_eligible_motives(&motives).is_empty());
}

#[test]
fn select_motives_takes_other_wording() {
    let motives = vec![motive(1, "first dose A"), motive(2, "first dose B"), motive(3, "booster")];
    let kept = select_motives(&motives, "first dose", "B");
    assert_eq!(motive_ids(&kept), vec![1]);
    let all = select_motives(&motives, "", "zzz");
    assert_eq!(motive_ids(&all), vec![1, 2, 3]);
    let none = select_motives(&motives, "first", "");
    assert!(none.is_empty());
}

#[test]
fn eligible_agendas_match_practice_and_motive_and_are_bookable() {
    let agendas = vec![
        agenda(10, 5, false, vec![1, 2]),
        agenda(11, 5, true, vec![1]),
        agenda(12, 6, false, vec![1]),
        agenda(13, 5, false, vec![3]),
        agenda(14, 5, false, vec![9, 2]),
        agenda(15, 5, false, vec![]),
    ];
    let kept = select_eligible_agendas(&agendas, 5, &vec![1, 2]);
    assert_eq!(agenda_ids(&kept), vec![10, 14]);
    for a in &kept {
        assert_eq!(a.practice_id, 5);
        assert!(!a.booking_disabled);
    }
}

#[test]
fn eligible_agendas_are_empty_without_motive_ids() {
    let agendas = vec![agenda(10, 5, false, vec![1, 2]), agenda(11, 5, false, vec![])];
    assert!(select_eligible_agendas(&agendas, 5, &vec![]).is_empty());
}

#[test]
fn temporarily_disabled_agendas_stay_eligible() {
    let mut a = agenda(10, 5, false, vec![1]);
    a.booking_temporary_disabled = true;
    let agendas = vec![a];
    let kept = select_eligible_agendas(&agendas, 5, &vec![1]);
    assert_eq!(agenda_ids(&kept), vec![10]);
}

#[test]
fn common_ids_are_found_in_any_position() {
    assert!(have_common_id(&vec![1, 2, 3], &vec![9, 3]));
    assert!(!have_common_id(&vec![1, 2, 3], &vec![4, 5]));
    assert!(!have_common_id(&vec![], &vec![4, 5]));
    assert!(!have_common_id(&vec![1], &vec![]));
    assert!(contains_id(&vec![4, 5], 5));
    assert!(!contains_id(&vec![4, 5], 6));
}

#[test]
fn primary_practice_is_the_first_or_zero() {
    assert_eq!(primary_practice_id(&place(vec![42, 7])), 42);
    assert_eq!(primary_practice_id(&place(vec![7])), 7);
    assert_eq!(primary_practice_id(&place(vec![])), 0);
}
