use vaccine_finder::instant::availability_params_at;
use vaccine_finder::model::Availabilities;
use vaccine_finder::params::{
    availability_params, booking_url, push_decimal, vec_to_param, ACCEPT, AUTHORITY,
    AVAILABILITY_URL,
};
use vaccine_finder::response::{read_availability, settle, status_is_success, QueryError};
use vaccine_finder::tally::{add_total, combine_totals};

fn pair(name: &str, value: &str) -> (String, String) {
    (name.to_string(), value.to_string())
}

#[test]
fn ids_are_joined_with_commas() {
    assert_eq!(vec_to_param(&vec![1, 22, 333]), "1,22,333");
    assert_eq!(vec_to_param(&vec![2615448]), "2615448");
    assert_eq!(vec_to_param(&vec![]), "");
    assert_eq!(vec_to_param(&vec![0]), "0");
    assert_eq!(vec_to_param(&vec![0, 0]), "0,0");
    assert_eq!(vec_to_param(&vec![10, 100, 4294967295]), "10,100,4294967295");
}

#[test]
fn ids_are_written_as_std_writes_them() {
    let ids: Vec<u32> = vec![0, 9, 10, 99, 100, 101, 1000, 65535, 65536, 4294967294, 4294967295];
    let expected = ids.iter().map(|id| id.to_string()).collect::<Vec<_>>().join(",");
    assert_eq!(vec_to_param(&ids), expected);
}

#[test]
fn decimal_is_appended_to_what_is_there() {
    let mut text = String::from("id=");
    push_decimal(&mut text, 407);
    assert_eq!(text, "id=407");
    push_decimal(&mut text, 0);
    assert_eq!(text, "id=4070");
}

#[test]
fn booking_url_holds_the_center() {
    assert_eq!(
        booking_url("centre-covid19-paris-5"),
        "https://www.doctolib.fr/booking/centre-covid19-paris-5.json"
    );
    assert_eq!(booking_url(""), "https://www.doctolib.fr/booking/.json");
}

#[test]
fn request_identity_is_fixed() {
    assert_eq!(AUTHORITY, "www.doctolib.fr");
    assert_eq!(ACCEPT, "text/json");
    assert_eq!(AVAILABILITY_URL, "https://www.doctolib.fr/availabilities.json");
}

#[test]
fn availability_form_has_seven_fields_in_order() {
    let form = availability_params(
        "2021-05-20T10:00:00+00:00".to_string(),
        &vec![1, 2],
        &vec![10, 14, 15],
        &vec![5],
    );
    assert_eq!(
        form,
        vec![
            pair("start_date", "2021-05-20T10:00:00+00:00"),
            pair("visit_motive_ids", "1,2"),
            pair("agenda_ids", "10,14,15"),
            pair("practice_ids", "5"),
            pair("insurance_sector", "public"),
            pair("destroy_temporary", "true"),
            pair("limit", "2"),
        ]
    );
}

#[test]
fn start_date_is_written_from_the_instant() {
    let form = availability_params_at(0, 0, &vec![1], &vec![2], &vec![3]).unwrap();
    assert_eq!(form[0], pair("start_date", "1970-01-01T00:00:00+00:00"));
    assert_eq!(form[1], pair("visit_motive_ids", "1"));
    assert_eq!(form[2], pair("agenda_ids", "2"));
    assert_eq!(form[3], pair("practice_ids", "3"));
    assert_eq!(form.len(), 7);

    let form = availability_params_at(1621504800, 0, &vec![], &vec![], &vec![]).unwrap();
    assert_eq!(form[0], pair("start_date", "2021-05-20T10:00:00+00:00"));

    let form = availability_params_at(1621504800, 250_000_000, &vec![], &vec![], &vec![]).unwrap();
    assert_eq!(form[0], pair("start_date", "2021-05-20T10:00:00.250+00:00"));
}

#[test]
fn start_date_differs_from_one_instant_to_the_next() {
    let a = availability_params_at(1621504800, 0, &vec![1], &vec![2], &vec![3]).unwrap();
    let b = availability_params_at(1621504801, 0, &vec![1], &vec![2], &vec![3]).unwrap();
    assert_ne!(a[0], b[0]);
    assert_eq!(a[1..], b[1..]);
}

#[test]
fn an_instant_out_of_range_gives_no_form() {
    assert!(availability_params_at(i64::MAX, 0, &vec![1], &vec![2], &vec![3]).is_none());
    assert!(availability_params_at(i64::MIN, 0, &vec![1], &vec![2], &vec![3]).is_none());
    assert!(availability_params_at(0, 2_000_000_000, &vec![1], &vec![2], &vec![3]).is_none());
}

#[test]
fn success_is_the_2xx_range() {
    assert!(status_is_success(200));
    assert!(status_is_success(204));
    assert!(status_is_success(299));
    assert!(!status_is_success(199));
    assert!(!status_is_success(300));
    assert!(!status_is_success(429));
    assert!(!status_is_success(500));
    assert!(!status_is_success(0));
}

#[test]
fn a_success_gives_its_body() {
    let found = Availabilities { total: 3 };
    assert_eq!(read_availability(200, Some(found)), Ok(found));
    assert_eq!(settle(read_availability(200, Some(found))), Ok(found));
}

#[test]
fn a_success_without_a_readable_body_is_fatal() {
    assert_eq!(read_availability(200, None), Err(QueryError::Fatal));
    assert_eq!(settle(read_availability(200, None)), Err(QueryError::Fatal));
}

#[test]
fn a_rejection_counts_as_nothing_found() {
    assert_eq!(read_availability(429, None), Err(QueryError::UpstreamDegraded));
    assert_eq!(
        read_availability(429, Some(Availabilities { total: 8 })),
        Err(QueryError::UpstreamDegraded)
    );
    assert_eq!(read_availability(503, None), Err(QueryError::UpstreamDegraded));
    assert_eq!(settle(read_availability(429, None)), Ok(Availabilities { total: 0 }));
}

#[test]
fn totals_add_up_in_any_order() {
    assert_eq!(combine_totals(&vec![2, 0, 5, 1]), Some(8));
    assert_eq!(combine_totals(&vec![1, 5, 0, 2]), Some(8));
    assert_eq!(combine_totals(&vec![5, 2, 1, 0]), Some(8));
    assert_eq!(combine_totals(&vec![]), Some(0));
    assert_eq!(combine_totals(&vec![7]), Some(7));
}

#[test]
fn totals_add_up_in_groups() {
    let first = combine_totals(&vec![2, 0]).unwrap();
    let second = combine_totals(&vec![5, 1]).unwrap();
    assert_eq!(combine_totals(&vec![first, second]), combine_totals(&vec![2, 0, 5, 1]));
}

#[test]
fn a_sum_that_does_not_fit_is_none() {
    assert_eq!(combine_totals(&vec![u32::MAX, 1]), None);
    assert_eq!(combine_totals(&vec![u32::MAX, 0]), Some(u32::MAX));
    assert_eq!(combine_totals(&vec![1, u32::MAX, 0]), None);
    assert_eq!(add_total(u32::MAX, 1), None);
    assert_eq!(add_total(u32::MAX - 1, 1), Some(u32::MAX));
    assert_eq!(add_total(2, 3), Some(5));
}
